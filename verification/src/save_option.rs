//! The save-decision popup: when the output file already exists, the user
//! must choose between replacing it, appending to it, or cancelling the
//! save. The popup owns all input while it is up; choices can be made by
//! key or by mouse.

use vstd::prelude::*;
use crate::geom::{spec_centered_rect, centered_rect, Rect};

verus! {

/// The three choices the popup offers.
#[derive(Clone, Copy, Debug, PartialEq, Eq, Structural)]
pub enum SaveOptions {
    Replace,
    Append,
    Cancel,
}

/// The regions of the popup: the popup itself, the prompt text, and the
/// three buttons.
#[derive(Clone, Copy, Debug, PartialEq, Eq, Structural)]
pub struct SaveFrameSet {
    pub popup: Rect,
    pub prompt: Rect,
    pub replace: Rect,
    pub append: Rect,
    pub cancel: Rect,
}

pub open spec fn spec_min_u16(a: u16, b: u16) -> u16 {
    if a < b {
        a
    } else {
        b
    }
}

/// The popup layout on a screen: at most 30 by 9 cells, centered; the upper
/// half holds the prompt behind a one-row, two-column margin; the lower
/// half holds the three one-row buttons, each centered.
pub open spec fn spec_save_frames(screen: Rect) -> SaveFrameSet {
    let pw = spec_min_u16(30u16, screen.width);
    let ph = spec_min_u16(9u16, screen.height);
    let popup = spec_centered_rect(pw, ph, screen);
    let top_h = (ph - ph / 2) as u16;
    let bottom_h = (ph / 2) as u16;
    let prompt = if top_h >= 2 && pw >= 4 {
        Rect {
            x: (popup.x + 2) as u16,
            y: (popup.y + 1) as u16,
            width: (pw - 4) as u16,
            height: (top_h - 2) as u16,
        }
    } else {
        Rect { x: popup.x, y: popup.y, width: 0u16, height: 0u16 }
    };
    SaveFrameSet {
        popup,
        prompt,
        replace: spec_button_rect(popup, top_h, bottom_h, 0u16, 9u16),
        append: spec_button_rect(popup, top_h, bottom_h, 1u16, 8u16),
        cancel: spec_button_rect(popup, top_h, bottom_h, 2u16, 8u16),
    }
}

/// Button `k` of the lower half: one row high when the lower half reaches
/// it, centered at its label's width plus the brackets.
pub open spec fn spec_button_rect(popup: Rect, top_h: u16, bottom_h: u16, k: u16, w: u16) -> Rect {
    if bottom_h > k {
        let row = Rect {
            x: popup.x,
            y: (popup.y + top_h + k) as u16,
            width: popup.width,
            height: 1u16,
        };
        spec_centered_rect(spec_min_u16(w, popup.width), 1u16, row)
    } else {
        Rect { x: popup.x, y: popup.y, width: 0u16, height: 0u16 }
    }
}

/// What a click means: one of the buttons when hit; a click outside the
/// popup cancels; a click elsewhere inside the popup means nothing.
pub open spec fn spec_save_hit(fs: SaveFrameSet, x: u16, y: u16) -> Option<SaveOptions> {
    if fs.replace.spec_contains(x, y) {
        Some(SaveOptions::Replace)
    } else if fs.append.spec_contains(x, y) {
        Some(SaveOptions::Append)
    } else if fs.cancel.spec_contains(x, y) || !fs.popup.spec_contains(x, y) {
        Some(SaveOptions::Cancel)
    } else {
        None
    }
}

/// What a key means: the first letter of each choice picks it.
pub open spec fn spec_save_key(ch: char) -> Option<SaveOptions> {
    if ch == 'r' {
        Some(SaveOptions::Replace)
    } else if ch == 'a' {
        Some(SaveOptions::Append)
    } else if ch == 'c' {
        Some(SaveOptions::Cancel)
    } else {
        None
    }
}

/// The save-decision popup: remembers its last-computed layout for
/// hit-testing.
#[derive(Debug)]
pub struct SaveOption {
    frame_set: SaveFrameSet,
}

impl View for SaveOption {
    type V = SaveFrameSet;

    closed spec fn view(&self) -> SaveFrameSet {
        self.frame_set
    }
}

/// The popup layout for a screen.
pub fn calculate_frames(screen: Rect) -> (r: SaveFrameSet)
    requires
        screen.x + screen.width <= u16::MAX,
        screen.y + screen.height <= u16::MAX,
    ensures
        r == spec_save_frames(screen),
{
    let pw: u16 = if 30 < screen.width {
        30
    } else {
        screen.width
    };
    let ph: u16 = if 9 < screen.height {
        9
    } else {
        screen.height
    };
    let popup = centered_rect(pw, ph, screen);
    let top_h = ph - ph / 2;
    let bottom_h = ph / 2;
    let prompt = if top_h >= 2 && pw >= 4 {
        Rect { x: popup.x + 2, y: popup.y + 1, width: pw - 4, height: top_h - 2 }
    } else {
        Rect { x: popup.x, y: popup.y, width: 0, height: 0 }
    };
    SaveFrameSet {
        popup,
        prompt,
        replace: button_rect(popup, top_h, bottom_h, 0, 9),
        append: button_rect(popup, top_h, bottom_h, 1, 8),
        cancel: button_rect(popup, top_h, bottom_h, 2, 8),
    }
}

fn button_rect(popup: Rect, top_h: u16, bottom_h: u16, k: u16, w: u16) -> (r: Rect)
    requires
        popup.x + popup.width <= u16::MAX,
        popup.y + top_h + bottom_h <= u16::MAX,
        k < 3,
    ensures
        r == spec_button_rect(popup, top_h, bottom_h, k, w),
{
    if bottom_h > k {
        let row = Rect { x: popup.x, y: popup.y + top_h + k, width: popup.width, height: 1 };
        let bw: u16 = if w < popup.width {
            w
        } else {
            popup.width
        };
        centered_rect(bw, 1, row)
    } else {
        Rect { x: popup.x, y: popup.y, width: 0, height: 0 }
    }
}

impl SaveOption {
    pub fn new() -> (r: SaveOption)
        ensures
            r@ == spec_save_frames(Rect { x: 0u16, y: 0u16, width: 0u16, height: 0u16 }),
    {
        SaveOption { frame_set: calculate_frames(Rect::zero()) }
    }

    /// The regions of the popup, for painting it.
    pub fn frame_set(&self) -> (r: SaveFrameSet)
        ensures
            r == self@,
    {
        self.frame_set
    }

    /// Recomputes the popup layout for a screen.
    pub fn handle_resize_event(&mut self, screen: Rect)
        requires
            screen.x + screen.width <= u16::MAX,
            screen.y + screen.height <= u16::MAX,
        ensures
            final(self)@ == spec_save_frames(screen),
    {
        self.frame_set = calculate_frames(screen);
    }

    /// Maps a key to the choice it picks, if any.
    pub fn key_test(&self, ch: char) -> (r: Option<SaveOptions>)
        ensures
            r == spec_save_key(ch),
    {
        if ch == 'r' {
            Some(SaveOptions::Replace)
        } else if ch == 'a' {
            Some(SaveOptions::Append)
        } else if ch == 'c' {
            Some(SaveOptions::Cancel)
        } else {
            None
        }
    }

    /// Maps a click to the choice it picks, if any.
    pub fn hit_test(&self, column: u16, row: u16) -> (r: Option<SaveOptions>)
        ensures
            r == spec_save_hit(self@, column, row),
    {
        if self.frame_set.replace.contains(column, row) {
            Some(SaveOptions::Replace)
        } else if self.frame_set.append.contains(column, row) {
            Some(SaveOptions::Append)
        } else if self.frame_set.cancel.contains(column, row) || !self.frame_set.popup.contains(
            column,
            row,
        ) {
            Some(SaveOptions::Cancel)
        } else {
            None
        }
    }
}

} // verus!

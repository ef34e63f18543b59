//! Screen geometry: rectangles in terminal cells, hit testing, centering,
//! and the fixed frame layout of the main screen (one filter row on top, the
//! two template panes side by side in the middle, one task-bar row at the
//! bottom).

use vstd::prelude::*;

verus! {

/// A rectangular region of the terminal, in character cells.
#[derive(Clone, Copy, Debug, PartialEq, Eq, Structural)]
pub struct Rect {
    pub x: u16,
    pub y: u16,
    pub width: u16,
    pub height: u16,
}

impl Rect {
    pub open spec fn spec_contains(self, x: u16, y: u16) -> bool {
        &&& self.x <= x
        &&& (x as int) < self.x + self.width
        &&& self.y <= y
        &&& (y as int) < self.y + self.height
    }

    pub fn new(x: u16, y: u16, width: u16, height: u16) -> (r: Rect)
        ensures
            r == (Rect { x, y, width, height }),
    {
        Rect { x, y, width, height }
    }

    pub fn zero() -> (r: Rect)
        ensures
            r == (Rect { x: 0u16, y: 0u16, width: 0u16, height: 0u16 }),
    {
        Rect { x: 0, y: 0, width: 0, height: 0 }
    }

    /// True when the cell at column `x`, row `y` lies inside this rectangle.
    pub fn contains(&self, x: u16, y: u16) -> (r: bool)
        ensures
            r == self.spec_contains(x, y),
    {
        x >= self.x && (x as u32) < (self.x as u32) + (self.width as u32) && y >= self.y && (
        y as u32) < (self.y as u32) + (self.height as u32)
    }
}

/// True when the cell at column `x`, row `y` lies inside `rect`.
pub fn is_in_rect(x: u16, y: u16, rect: Rect) -> (r: bool)
    ensures
        r == rect.spec_contains(x, y),
{
    rect.contains(x, y)
}

/// The rectangle of the given size centered inside `rect`.
pub open spec fn spec_centered_rect(width: u16, height: u16, rect: Rect) -> Rect {
    Rect {
        x: (rect.x + (rect.width - width) / 2) as u16,
        y: (rect.y + (rect.height - height) / 2) as u16,
        width,
        height,
    }
}

/// Centers a `width` by `height` rectangle inside `rect`.
pub fn centered_rect(width: u16, height: u16, rect: Rect) -> (r: Rect)
    requires
        width <= rect.width,
        height <= rect.height,
        rect.x + rect.width <= u16::MAX,
        rect.y + rect.height <= u16::MAX,
    ensures
        r == spec_centered_rect(width, height, rect),
{
    Rect {
        x: rect.x + (rect.width - width) / 2,
        y: rect.y + (rect.height - height) / 2,
        width,
        height,
    }
}

/// The four regions of the main screen.
#[derive(Clone, Copy, Debug, PartialEq, Eq, Structural)]
pub struct FrameSet {
    pub available: Rect,
    pub selected: Rect,
    pub task_bar: Rect,
    pub filter: Rect,
}

impl FrameSet {
    pub fn zero() -> (r: FrameSet)
        ensures
            r == spec_zero_frame_set(),
    {
        FrameSet {
            available: Rect::zero(),
            selected: Rect::zero(),
            task_bar: Rect::zero(),
            filter: Rect::zero(),
        }
    }
}

pub open spec fn spec_zero_frame_set() -> FrameSet {
    FrameSet {
        available: Rect { x: 0u16, y: 0u16, width: 0u16, height: 0u16 },
        selected: Rect { x: 0u16, y: 0u16, width: 0u16, height: 0u16 },
        task_bar: Rect { x: 0u16, y: 0u16, width: 0u16, height: 0u16 },
        filter: Rect { x: 0u16, y: 0u16, width: 0u16, height: 0u16 },
    }
}

/// The screen layout, recomputed from scratch on every resize: a one-row
/// filter bar on top, a one-row task bar at the bottom (once there is room
/// for it), and the middle split in half for the two panes, the right pane
/// taking the odd column.
pub open spec fn spec_calculate_frames(area: Rect) -> FrameSet {
    let filter_h: u16 = if area.height >= 1 {
        1u16
    } else {
        0u16
    };
    let task_h: u16 = if area.height >= 3 {
        1u16
    } else {
        0u16
    };
    let middle_h = (area.height - filter_h - task_h) as u16;
    let left_w = (area.width / 2) as u16;
    let right_w = (area.width - left_w) as u16;
    FrameSet {
        filter: Rect { x: area.x, y: area.y, width: area.width, height: filter_h },
        available: Rect {
            x: area.x,
            y: (area.y + filter_h) as u16,
            width: left_w,
            height: middle_h,
        },
        selected: Rect {
            x: (area.x + left_w) as u16,
            y: (area.y + filter_h) as u16,
            width: right_w,
            height: middle_h,
        },
        task_bar: Rect {
            x: area.x,
            y: (area.y + area.height - task_h) as u16,
            width: area.width,
            height: task_h,
        },
    }
}

/// Splits the screen into the filter row, the two pane halves and the
/// task-bar row.
pub fn calculate_frames(area: Rect) -> (r: FrameSet)
    requires
        area.x + area.width <= u16::MAX,
        area.y + area.height <= u16::MAX,
    ensures
        r == spec_calculate_frames(area),
{
    let filter_h: u16 = if area.height >= 1 {
        1
    } else {
        0
    };
    let task_h: u16 = if area.height >= 3 {
        1
    } else {
        0
    };
    let middle_h = area.height - filter_h - task_h;
    let left_w = area.width / 2;
    let right_w = area.width - left_w;
    FrameSet {
        filter: Rect { x: area.x, y: area.y, width: area.width, height: filter_h },
        available: Rect { x: area.x, y: area.y + filter_h, width: left_w, height: middle_h },
        selected: Rect {
            x: area.x + left_w,
            y: area.y + filter_h,
            width: right_w,
            height: middle_h,
        },
        task_bar: Rect {
            x: area.x,
            y: area.y + area.height - task_h,
            width: area.width,
            height: task_h,
        },
    }
}

} // verus!

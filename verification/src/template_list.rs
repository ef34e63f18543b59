//! A template pane: a titled, focusable, scrollable list of template names
//! over a screen region, with mouse hit-testing. Confirming the highlighted
//! name (Enter, Space, or a click on the already-selected row) yields a
//! "template chosen" signal carrying that name.

use vstd::prelude::*;
use crate::catalog::MAX_ITEMS;
use crate::geom::Rect;
use crate::input::{KeyCode, KeyEvent, MouseButton, MouseEvent, MouseKind};
use crate::list_state_wrapper::{
    spec_advance,
    spec_recede,
    spec_new_cursor,
    spec_resize,
    ListStateWrapper,
};
use crate::text::strict_sorted;

verus! {

/// A pane as the specifications see it.
#[verifier::ext_equal]
pub ghost struct PaneView {
    pub has_focus: bool,
    pub area: Rect,
    pub title: Seq<char>,
    pub templates: Seq<Seq<char>>,
    pub cursor: ListStateWrapper,
}

impl PaneView {
    /// Well-formedness: the cursor ranges over exactly the backing list,
    /// which is sorted and bounded.
    pub open spec fn wf(self) -> bool {
        &&& self.cursor.wf()
        &&& self.cursor.size == self.templates.len()
        &&& self.templates.len() <= MAX_ITEMS
        &&& strict_sorted(self.templates)
    }

    /// The name the cursor rests on, if any.
    pub open spec fn spec_chosen(self) -> Option<Seq<char>> {
        match self.cursor.spec_current() {
            Some(i) => if i < self.templates.len() {
                Some(self.templates[i as int])
            } else {
                None
            },
            None => None,
        }
    }
}

/// What replacing the backing list does: the cursor is resized to it.
pub open spec fn spec_set_templates(p: PaneView, items: Seq<Seq<char>>) -> PaneView {
    PaneView { templates: items, cursor: spec_resize(p.cursor, items.len() as int), ..p }
}

/// The rows a pane can page over: its height minus the two border rows.
pub open spec fn spec_page_size(p: PaneView) -> int {
    if p.area.height >= 2 {
        p.area.height - 2
    } else {
        0
    }
}

/// The list index shown at screen row `row`: the pane's top border sits on
/// `area.y`, the first visible item right under it, shifted by the viewport
/// offset.
pub open spec fn spec_index_from_row(p: PaneView, row: u16) -> Option<usize> {
    let idx = row - p.area.y + p.cursor.offset - 1;
    if p.cursor.size > 0 && p.cursor.lower_bound <= idx && idx <= p.cursor.upper_bound {
        Some(idx as usize)
    } else {
        None
    }
}

/// What a key press does to a pane: Enter or Space choose the highlighted
/// name; Home, End, PageUp, PageDown, Up and Down move the cursor; other
/// keys do nothing.
pub open spec fn spec_pane_key(p: PaneView, key: KeyEvent) -> (PaneView, Option<Seq<char>>) {
    match key.code {
        KeyCode::Enter => (p, p.spec_chosen()),
        KeyCode::Home => (
            PaneView {
                cursor: ListStateWrapper { selected: Some(p.cursor.lower_bound), ..p.cursor },
                ..p
            },
            None,
        ),
        KeyCode::PageUp => (
            PaneView { cursor: spec_recede(p.cursor, spec_page_size(p)), ..p },
            None,
        ),
        KeyCode::Up => (PaneView { cursor: spec_recede(p.cursor, 1), ..p }, None),
        KeyCode::End => (
            PaneView {
                cursor: ListStateWrapper { selected: Some(p.cursor.upper_bound), ..p.cursor },
                ..p
            },
            None,
        ),
        KeyCode::PageDown => (
            PaneView { cursor: spec_advance(p.cursor, spec_page_size(p)), ..p },
            None,
        ),
        KeyCode::Down => (PaneView { cursor: spec_advance(p.cursor, 1), ..p }, None),
        KeyCode::Char(ch) => if ch == ' ' {
            (p, p.spec_chosen())
        } else {
            (p, None)
        },
        _ => (p, None),
    }
}

/// What a mouse event does to a pane: a left click on the selected row
/// confirms it, on another row moves the cursor there; scrolling moves by
/// one.
pub open spec fn spec_pane_mouse(p: PaneView, m: MouseEvent) -> (PaneView, Option<Seq<char>>) {
    match m.kind {
        MouseKind::Up(button) => if button == MouseButton::Left {
            match spec_index_from_row(p, m.row) {
                Some(idx) => if p.cursor.spec_current() == Some(idx) {
                    (p, p.spec_chosen())
                } else {
                    (PaneView { cursor: ListStateWrapper { selected: Some(idx), ..p.cursor }, ..p }, None)
                },
                None => (p, None),
            }
        } else {
            (p, None)
        },
        MouseKind::ScrollUp => spec_pane_key(p, KeyEvent { code: KeyCode::Up, ctrl: false }),
        MouseKind::ScrollDown => spec_pane_key(p, KeyEvent { code: KeyCode::Down, ctrl: false }),
        MouseKind::Other => (p, None),
    }
}

/// A template pane.
#[derive(Debug)]
pub struct TemplateList {
    has_focus: bool,
    area: Rect,
    title: String,
    templates: Vec<String>,
    list_state: ListStateWrapper,
}

impl View for TemplateList {
    type V = PaneView;

    closed spec fn view(&self) -> PaneView {
        PaneView {
            has_focus: self.has_focus,
            area: self.area,
            title: self.title@,
            templates: self.templates.deep_view(),
            cursor: self.list_state,
        }
    }
}

impl TemplateList {
    pub fn new() -> (r: TemplateList)
        ensures
            r@ == (PaneView {
                has_focus: false,
                area: Rect { x: 0u16, y: 0u16, width: 0u16, height: 0u16 },
                title: Seq::<char>::empty(),
                templates: Seq::<Seq<char>>::empty(),
                cursor: spec_new_cursor(),
            }),
            r@.wf(),
    {
        let r = TemplateList {
            has_focus: false,
            area: Rect::zero(),
            title: String::new(),
            templates: Vec::new(),
            list_state: ListStateWrapper::new(),
        };
        proof {
            assert(r.templates.deep_view() =~= Seq::<Seq<char>>::empty());
            assert(r@ =~= (PaneView {
                has_focus: false,
                area: Rect { x: 0u16, y: 0u16, width: 0u16, height: 0u16 },
                title: Seq::<char>::empty(),
                templates: Seq::<Seq<char>>::empty(),
                cursor: spec_new_cursor(),
            }));
        }
        r
    }

    pub fn title(&self) -> (r: String)
        ensures
            r@ == self@.title,
    {
        self.title.clone()
    }

    pub fn set_title(&mut self, title: &str)
        ensures
            final(self)@ == (PaneView { title: title@, ..old(self)@ }),
    {
        self.title = String::from_str(title);
    }

    pub fn has_focus(&self) -> (r: bool)
        ensures
            r == self@.has_focus,
    {
        self.has_focus
    }

    pub fn set_focus(&mut self, focus: bool)
        ensures
            final(self)@ == (PaneView { has_focus: focus, ..old(self)@ }),
    {
        self.has_focus = focus;
    }

    /// True when the cell at column `x`, row `y` lies inside the pane's
    /// last-known screen region.
    pub fn hit_test(&self, x: u16, y: u16) -> (r: bool)
        ensures
            r == self@.area.spec_contains(x, y),
    {
        self.area.contains(x, y)
    }

    /// Replaces the backing list with a sorted list of names and resizes the
    /// cursor to it.
    pub fn set_templates(&mut self, templates: Vec<String>)
        requires
            strict_sorted(templates.deep_view()),
            templates@.len() <= MAX_ITEMS,
        ensures
            final(self)@ == spec_set_templates(old(self)@, templates.deep_view()),
            final(self)@.wf(),
    {
        let n = templates.len();
        self.templates = templates;
        self.list_state.set_size(n);
    }

    /// The backing list of names, for painting the pane.
    pub fn templates(&self) -> (r: &Vec<String>)
        ensures
            r.deep_view() == self@.templates,
    {
        &self.templates
    }

    /// The cursor, for painting the pane.
    pub fn list_state(&self) -> (r: &ListStateWrapper)
        ensures
            *r == self@.cursor,
    {
        &self.list_state
    }

    /// True when `index` is the highlighted row.
    pub fn is_selected(&self, index: usize) -> (r: bool)
        ensures
            r == (self@.cursor.spec_current() == Some(index)),
    {
        match self.list_state.selected() {
            Some(selected) => selected == index,
            None => false,
        }
    }

    /// Maps a screen row to the list index shown there, if any.
    pub fn index_from_row(&self, row: u16) -> (r: Option<usize>)
        requires
            self@.wf(),
        ensures
            r == spec_index_from_row(self@, row),
    {
        let sum: u64 = row as u64 + self.list_state.offset() as u64;
        let base: u64 = self.area.y as u64 + 1;
        if sum < base {
            None
        } else {
            let idx = sum - base;
            if self.list_state.size() > 0 && idx <= self.list_state.upper_bound as u64 {
                Some(idx as usize)
            } else {
                None
            }
        }
    }

    /// The name the cursor rests on, if any: what a confirmation would
    /// choose.
    pub fn chosen_template(&self) -> (r: Option<String>)
        requires
            self@.wf(),
        ensures
            r.deep_view() == self@.spec_chosen(),
    {
        match self.list_state.selected() {
            Some(selected) => Some(self.templates[selected].clone()),
            None => None,
        }
    }

    /// Handles a key press, returning the chosen name when the key confirms
    /// the highlighted row.
    pub fn handle_key_event(&mut self, key_event: KeyEvent) -> (r: Option<String>)
        requires
            old(self)@.wf(),
        ensures
            final(self)@ == spec_pane_key(old(self)@, key_event).0,
            r.deep_view() == spec_pane_key(old(self)@, key_event).1,
            final(self)@.wf(),
    {
        match key_event.code {
            KeyCode::Enter => self.chosen_template(),
            KeyCode::Home => {
                self.list_state.select_first();
                None
            },
            KeyCode::PageUp => {
                let page = self.page_size();
                self.list_state.recede_selected(page);
                None
            },
            KeyCode::Up => {
                self.list_state.recede_selected(1);
                None
            },
            KeyCode::End => {
                self.list_state.select_last();
                None
            },
            KeyCode::PageDown => {
                let page = self.page_size();
                self.list_state.advance_selected(page);
                None
            },
            KeyCode::Down => {
                self.list_state.advance_selected(1);
                None
            },
            KeyCode::Char(ch) => {
                if ch == ' ' {
                    self.chosen_template()
                } else {
                    None
                }
            },
            _ => None,
        }
    }

    /// Handles a mouse event, returning the chosen name when a click
    /// confirms the highlighted row.
    pub fn handle_mouse_event(&mut self, mouse_event: MouseEvent) -> (r: Option<String>)
        requires
            old(self)@.wf(),
        ensures
            final(self)@ == spec_pane_mouse(old(self)@, mouse_event).0,
            r.deep_view() == spec_pane_mouse(old(self)@, mouse_event).1,
            final(self)@.wf(),
    {
        match mouse_event.kind {
            MouseKind::Up(button) => {
                if matches!(button, MouseButton::Left) {
                    match self.index_from_row(mouse_event.row) {
                        Some(index) => {
                            if self.is_selected(index) {
                                self.handle_key_event(
                                    KeyEvent { code: KeyCode::Enter, ctrl: false },
                                )
                            } else {
                                self.list_state.set_selected(Some(index));
                                None
                            }
                        },
                        None => None,
                    }
                } else {
                    None
                }
            },
            MouseKind::ScrollUp => {
                self.handle_key_event(KeyEvent { code: KeyCode::Up, ctrl: false })
            },
            MouseKind::ScrollDown => {
                self.handle_key_event(KeyEvent { code: KeyCode::Down, ctrl: false })
            },
            MouseKind::Other => None,
        }
    }

    /// Remembers the pane's screen region for later hit-testing.
    pub fn handle_resize_event(&mut self, area: Rect)
        ensures
            final(self)@ == (PaneView { area, ..old(self)@ }),
    {
        self.area = area;
    }

    /// How many rows one page spans: the pane's height minus its two border
    /// rows; zero when the pane is too small to show items.
    pub fn page_size(&self) -> (r: usize)
        ensures
            r == spec_page_size(self@),
    {
        if self.area.height >= 2 {
            (self.area.height - 2) as usize
        } else {
            0
        }
    }
}

} // verus!

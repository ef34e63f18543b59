//! The task bar: an ordered row of clickable buttons, each pairing a key
//! shortcut with a label. Buttons are laid out left to right starting at
//! column 1, each rendered as `[label]` and separated by one column, so a
//! click column can be mapped back to the shortcut it covers.

use vstd::prelude::*;
use crate::input::KeyEvent;

verus! {

/// What a button means: its shortcut and its label.
#[verifier::ext_equal]
pub ghost struct TaskActionView {
    pub key: KeyEvent,
    pub label: Seq<char>,
}

/// A key shortcut together with the label shown for it.
#[derive(Debug)]
pub struct TaskAction {
    key_event: KeyEvent,
    text: String,
}

impl View for TaskAction {
    type V = TaskActionView;

    closed spec fn view(&self) -> TaskActionView {
        TaskActionView { key: self.key_event, label: self.text@ }
    }
}

impl TaskAction {
    pub fn new(key_event: KeyEvent, text: String) -> (r: TaskAction)
        ensures
            r@ == (TaskActionView { key: key_event, label: text@ }),
    {
        TaskAction { key_event, text }
    }

    pub fn text(&self) -> (r: &str)
        ensures
            r@ == self@.label,
    {
        self.text.as_str()
    }

    pub fn key_event(&self) -> (r: KeyEvent)
        ensures
            r == self@.key,
    {
        self.key_event
    }
}

/// One button of the task bar.
#[derive(Debug)]
pub struct TaskButton {
    action: TaskAction,
}

impl View for TaskButton {
    type V = TaskActionView;

    closed spec fn view(&self) -> TaskActionView {
        self.action@
    }
}

/// A button is rendered as `[label]`: its width is the label plus the two
/// brackets.
pub open spec fn spec_button_width(b: TaskActionView) -> int {
    b.label.len() as int + 2
}

/// The column where button `i` starts: the bar begins at column 1, and each
/// earlier button takes its width plus a one-column gap.
pub open spec fn spec_start(buttons: Seq<TaskActionView>, i: int) -> int
    decreases i,
{
    if i <= 0 {
        1
    } else {
        spec_start(buttons, i - 1) + spec_button_width(buttons[i - 1]) + 1
    }
}

/// The shortcut of the first button from `i` on whose span contains `col`.
pub open spec fn spec_hit_rec(buttons: Seq<TaskActionView>, i: int, col: int) -> Option<KeyEvent>
    decreases buttons.len() - i,
{
    if i < 0 || i >= buttons.len() {
        None
    } else if spec_start(buttons, i) <= col < spec_start(buttons, i) + spec_button_width(
        buttons[i],
    ) {
        Some(buttons[i].key)
    } else {
        spec_hit_rec(buttons, i + 1, col)
    }
}

/// The shortcut whose button covers `col`, if any.
pub open spec fn spec_hit_test(buttons: Seq<TaskActionView>, col: int) -> Option<KeyEvent> {
    spec_hit_rec(buttons, 0, col)
}

/// `spec_start` only looks at the buttons before `i`.
pub proof fn lemma_start_prefix(b1: Seq<TaskActionView>, b2: Seq<TaskActionView>, i: int)
    requires
        forall|j: int| 0 <= j < i ==> b1[j] == b2[j],
    ensures
        spec_start(b1, i) == spec_start(b2, i),
    decreases i,
{
    if i > 0 {
        lemma_start_prefix(b1, b2, i - 1);
    }
}

pub proof fn lemma_start_mono(buttons: Seq<TaskActionView>, i: int, j: int)
    requires
        0 <= i <= j,
    ensures
        spec_start(buttons, i) <= spec_start(buttons, j),
    decreases j - i,
{
    if i < j {
        lemma_start_mono(buttons, i, j - 1);
    }
}

impl TaskButton {
    pub fn new(key_event: KeyEvent, text: &str) -> (r: TaskButton)
        ensures
            r@ == (TaskActionView { key: key_event, label: text@ }),
    {
        TaskButton { action: TaskAction::new(key_event, String::from_str(text)) }
    }

    /// The rendered width of the button.
    pub fn len(&self) -> (r: usize)
        requires
            self@.label.len() + 2 <= usize::MAX,
        ensures
            r == spec_button_width(self@),
    {
        self.action.text().unicode_len() + 2
    }

    pub fn key_event(&self) -> (r: KeyEvent)
        ensures
            r == self@.key,
    {
        self.action.key_event()
    }

    pub fn text(&self) -> (r: &str)
        ensures
            r@ == self@.label,
    {
        self.action.text()
    }
}

/// The ordered row of buttons.
#[derive(Debug)]
pub struct TaskBar {
    buttons: Vec<TaskButton>,
}

impl View for TaskBar {
    type V = Seq<TaskActionView>;

    closed spec fn view(&self) -> Seq<TaskActionView> {
        Seq::new(self.buttons@.len(), |i: int| self.buttons@[i]@)
    }
}

impl TaskBar {
    /// All buttons fit on a row of terminal columns.
    pub open spec fn wf(self) -> bool {
        spec_start(self@, self@.len() as int) <= u16::MAX
    }

    pub fn new() -> (r: TaskBar)
        ensures
            r@ == Seq::<TaskActionView>::empty(),
            r.wf(),
    {
        let r = TaskBar { buttons: Vec::new() };
        proof {
            assert(r@ =~= Seq::<TaskActionView>::empty());
        }
        r
    }

    /// Appends a button for `key_event` labelled `text`.
    pub fn add_task(&mut self, key_event: KeyEvent, text: &str)
        requires
            old(self).wf(),
            spec_start(old(self)@, old(self)@.len() as int) + text@.len() + 3 <= u16::MAX,
        ensures
            final(self)@ == old(self)@.push(TaskActionView { key: key_event, label: text@ }),
            final(self).wf(),
    {
        self.buttons.push(TaskButton::new(key_event, text));
        proof {
            assert(self@ =~= old(self)@.push(TaskActionView { key: key_event, label: text@ }));
            lemma_start_prefix(self@, old(self)@, old(self)@.len() as int);
        }
    }

    /// The buttons in order, for painting the bar.
    pub fn buttons(&self) -> (r: &Vec<TaskButton>)
        ensures
            r@.len() == self@.len(),
            forall|i: int| 0 <= i < r@.len() ==> (#[trigger] r@[i])@ == self@[i],
    {
        &self.buttons
    }

    /// Maps a click column back to the shortcut of the button that covers
    /// it, walking the buttons left to right.
    pub fn hit_test(&self, column: u16) -> (r: Option<KeyEvent>)
        requires
            self.wf(),
        ensures
            r == spec_hit_test(self@, column as int),
    {
        let ghost bv = self@;
        let mut start: u16 = 1;
        let mut i: usize = 0;
        while i < self.buttons.len()
            invariant
                self.wf(),
                bv == self@,
                bv.len() == self.buttons@.len(),
                i <= bv.len(),
                start as int == spec_start(bv, i as int),
                spec_hit_test(bv, column as int) == spec_hit_rec(bv, i as int, column as int),
            decreases bv.len() - i,
        {
            proof {
                lemma_start_mono(bv, i + 1, bv.len() as int);
                assert(spec_start(bv, i + 1) == spec_start(bv, i as int) + spec_button_width(
                    bv[i as int],
                ) + 1);
            }
            let w = self.buttons[i].len();
            let end = start + (w as u16);
            if column >= start && column < end {
                return Some(self.buttons[i].key_event());
            }
            start = end + 1;
            i = i + 1;
        }
        None
    }
}

} // verus!

//! The cursor of a scrollable selection list: a selected index and a
//! viewport offset over a sequence whose length can change, with clamp-or-
//! wrap navigation at the ends.

use vstd::prelude::*;

verus! {

/// Cursor state over a list of `size` items: the selected index, the
/// viewport offset, the inclusive bounds of valid indices, and whether
/// navigation wraps around at the ends.
#[derive(Clone, Copy, Debug, PartialEq, Eq, Structural)]
pub struct ListStateWrapper {
    pub selected: Option<usize>,
    pub offset: usize,
    pub lower_bound: usize,
    pub upper_bound: usize,
    pub wrap: bool,
    pub size: usize,
}

impl ListStateWrapper {
    /// Well-formedness: the bounds follow the size, and the selection and
    /// offset stay inside them.
    pub open spec fn wf(self) -> bool {
        &&& self.lower_bound == 0
        &&& self.upper_bound == if self.size > 0 {
            (self.size - 1) as usize
        } else {
            0usize
        }
        &&& match self.selected {
            Some(i) => i <= self.upper_bound,
            None => true,
        }
        &&& self.offset <= self.upper_bound
    }

    /// The selection as seen from outside: an empty list has none.
    pub open spec fn spec_current(self) -> Option<usize> {
        if self.size > 0 {
            self.selected
        } else {
            None
        }
    }

    pub fn new() -> (r: ListStateWrapper)
        ensures
            r == spec_new_cursor(),
            r.wf(),
    {
        ListStateWrapper {
            selected: None,
            offset: 0,
            lower_bound: 0,
            upper_bound: 0,
            wrap: false,
            size: 0,
        }
    }

    pub fn size(&self) -> (r: usize)
        ensures
            r == self.size,
    {
        self.size
    }

    /// Resizes the underlying list: recomputes the bounds, clamps the offset,
    /// and clamps or initializes the selection. An empty list loses its
    /// selection; a nonempty list always ends up with one.
    pub fn set_size(&mut self, length: usize)
        ensures
            *final(self) == spec_resize(*old(self), length as int),
            final(self).wf(),
    {
        self.size = length;
        self.lower_bound = 0;
        self.upper_bound = if length > 0 {
            length - 1
        } else {
            0
        };
        if self.offset > self.upper_bound {
            self.offset = self.upper_bound;
        }
        if length == 0 {
            self.selected = None;
        } else {
            match self.selected {
                Some(selected) => {
                    if selected > self.upper_bound {
                        self.selected = Some(self.upper_bound);
                    }
                },
                None => {
                    self.selected = Some(self.lower_bound);
                },
            }
        }
    }

    pub fn wrap(&self) -> (r: bool)
        ensures
            r == self.wrap,
    {
        self.wrap
    }

    pub fn set_wrap(&mut self, wrap: bool)
        ensures
            *final(self) == (ListStateWrapper { wrap, ..*old(self) }),
    {
        self.wrap = wrap;
    }

    pub fn selected(&self) -> (r: Option<usize>)
        ensures
            r == self.spec_current(),
    {
        if self.size > 0 {
            self.selected
        } else {
            None
        }
    }

    /// True when `index` is a valid position of the current list.
    pub fn is_in_bounds(&self, index: isize) -> (r: bool)
        ensures
            r == (self.size > 0 && self.lower_bound <= index as int
                && index as int <= self.upper_bound as int),
    {
        if index < 0 {
            self.size > 0 && self.lower_bound == 0 && 0 <= index
        } else {
            let i = index as usize;
            self.size > 0 && i >= self.lower_bound && i <= self.upper_bound
        }
    }

    pub fn set_selected(&mut self, index: Option<usize>)
        requires
            match index {
                Some(i) => i <= old(self).upper_bound,
                None => true,
            },
        ensures
            *final(self) == (ListStateWrapper { selected: index, ..*old(self) }),
    {
        self.selected = index;
    }

    pub fn is_first_selected(&self) -> (r: bool)
        ensures
            r == (self.selected == Some(self.lower_bound)),
    {
        match self.selected {
            Some(selected) => selected == self.lower_bound,
            None => false,
        }
    }

    pub fn select_first(&mut self)
        ensures
            *final(self) == (ListStateWrapper { selected: Some(old(self).lower_bound), ..*old(self) }),
    {
        if !self.is_first_selected() {
            let lower = self.lower_bound;
            self.selected = Some(lower);
        }
    }

    pub fn is_last_selected(&self) -> (r: bool)
        ensures
            r == (self.selected == Some(self.upper_bound)),
    {
        match self.selected {
            Some(selected) => selected == self.upper_bound,
            None => false,
        }
    }

    pub fn select_last(&mut self)
        ensures
            *final(self) == (ListStateWrapper { selected: Some(old(self).upper_bound), ..*old(self) }),
    {
        if !self.is_last_selected() {
            let upper = self.upper_bound;
            self.selected = Some(upper);
        }
    }

    /// Moves the selection `distance` items forward: clamps at the last
    /// item, or jumps to the first when wrapping is on and the last item was
    /// already selected.
    pub fn advance_selected(&mut self, distance: usize)
        requires
            old(self).wf(),
        ensures
            *final(self) == spec_advance(*old(self), distance as int),
            final(self).wf(),
    {
        let cur = match self.selected {
            Some(s) => s,
            None => self.upper_bound,
        };
        if cur < self.upper_bound && distance < self.upper_bound - cur {
            self.selected = Some(cur + distance);
        } else if self.wrap && self.is_last_selected() {
            self.select_first();
        } else {
            self.select_last();
        }
    }

    /// Moves the selection `distance` items backward: clamps at the first
    /// item, or jumps to the last when wrapping is on and the first item was
    /// already selected.
    pub fn recede_selected(&mut self, distance: usize)
        requires
            old(self).wf(),
        ensures
            *final(self) == spec_recede(*old(self), distance as int),
            final(self).wf(),
    {
        let sel = match self.selected {
            Some(s) => s,
            None => self.lower_bound,
        };
        if sel < distance {
            if self.wrap && self.is_first_selected() {
                self.select_last();
            } else {
                self.select_first();
            }
        } else {
            let target = sel - distance;
            proof {
                assert(target <= self.upper_bound);
            }
            self.selected = Some(target);
        }
    }

    pub fn offset(&self) -> (r: usize)
        ensures
            r == self.offset,
    {
        self.offset
    }

    pub fn set_offset(&mut self, offset: usize)
        requires
            offset <= old(self).upper_bound,
        ensures
            *final(self) == (ListStateWrapper { offset, ..*old(self) }),
    {
        self.offset = offset;
    }

    pub fn at_offset_first(&self) -> (r: bool)
        ensures
            r == (self.offset == self.lower_bound),
    {
        self.offset == self.lower_bound
    }

    pub fn set_offset_first(&mut self)
        requires
            old(self).wf(),
        ensures
            *final(self) == (ListStateWrapper { offset: old(self).lower_bound, ..*old(self) }),
    {
        self.offset = self.lower_bound;
    }

    pub fn at_offset_last(&self) -> (r: bool)
        ensures
            r == (self.offset == self.upper_bound),
    {
        self.offset == self.upper_bound
    }

    pub fn set_offset_last(&mut self)
        ensures
            *final(self) == (ListStateWrapper { offset: old(self).upper_bound, ..*old(self) }),
    {
        self.offset = self.upper_bound;
    }

    /// Moves the viewport forward, clamping at the last index; the viewport
    /// never wraps.
    pub fn advance_offset(&mut self, distance: usize)
        requires
            old(self).wf(),
        ensures
            *final(self) == spec_advance_offset(*old(self), distance as int),
            final(self).wf(),
    {
        if self.offset < self.upper_bound && distance < self.upper_bound - self.offset {
            self.offset = self.offset + distance;
        } else {
            self.set_offset_last();
        }
    }

    /// Moves the viewport backward, clamping at the first index.
    pub fn recede_offset(&mut self, distance: usize)
        requires
            old(self).wf(),
        ensures
            *final(self) == spec_recede_offset(*old(self), distance as int),
            final(self).wf(),
    {
        if self.offset < distance {
            self.set_offset_first();
        } else {
            self.offset = self.offset - distance;
        }
    }
}

pub open spec fn spec_new_cursor() -> ListStateWrapper {
    ListStateWrapper {
        selected: None,
        offset: 0usize,
        lower_bound: 0usize,
        upper_bound: 0usize,
        wrap: false,
        size: 0usize,
    }
}

/// What `set_size` does: new bounds from the new length, offset clamped,
/// selection cleared on an empty list, clamped to the last item when it fell
/// off the end, and defaulted to the first item when there was none.
pub open spec fn spec_resize(c: ListStateWrapper, length: int) -> ListStateWrapper {
    let upper: usize = if length > 0 {
        (length - 1) as usize
    } else {
        0usize
    };
    let offset: usize = if c.offset > upper {
        upper
    } else {
        c.offset
    };
    let selected: Option<usize> = if length == 0 {
        None
    } else {
        match c.selected {
            Some(s) => if s > upper {
                Some(upper)
            } else {
                Some(s)
            },
            None => Some(0usize),
        }
    };
    ListStateWrapper {
        selected,
        offset,
        lower_bound: 0usize,
        upper_bound: upper,
        wrap: c.wrap,
        size: length as usize,
    }
}

/// What `advance_selected` does.
pub open spec fn spec_advance(c: ListStateWrapper, distance: int) -> ListStateWrapper {
    let cur: int = match c.selected {
        Some(s) => s as int,
        None => c.upper_bound as int,
    };
    let selected: Option<usize> = if cur + distance < c.upper_bound {
        Some((cur + distance) as usize)
    } else if c.wrap && c.selected == Some(c.upper_bound) {
        Some(c.lower_bound)
    } else {
        Some(c.upper_bound)
    };
    ListStateWrapper { selected, ..c }
}

/// What `recede_selected` does.
pub open spec fn spec_recede(c: ListStateWrapper, distance: int) -> ListStateWrapper {
    let sel: int = match c.selected {
        Some(s) => s as int,
        None => c.lower_bound as int,
    };
    let selected: Option<usize> = if sel < distance {
        if c.wrap && c.selected == Some(c.lower_bound) {
            Some(c.upper_bound)
        } else {
            Some(c.lower_bound)
        }
    } else {
        Some((sel - distance) as usize)
    };
    ListStateWrapper { selected, ..c }
}

/// What `advance_offset` does.
pub open spec fn spec_advance_offset(c: ListStateWrapper, distance: int) -> ListStateWrapper {
    let offset: usize = if c.offset + distance < c.upper_bound {
        (c.offset + distance) as usize
    } else {
        c.upper_bound
    };
    ListStateWrapper { offset, ..c }
}

/// What `recede_offset` does.
pub open spec fn spec_recede_offset(c: ListStateWrapper, distance: int) -> ListStateWrapper {
    let offset: usize = if c.offset < distance {
        c.lower_bound
    } else {
        (c.offset - distance) as usize
    };
    ListStateWrapper { offset, ..c }
}

/// Law: moving the selection forward by `k` and then back by `k` returns to
/// the starting index, as long as the forward move stays inside the list
/// (no clamping at the last item is needed beyond landing exactly on it) and
/// does not wrap.
pub proof fn lemma_advance_then_recede(c: ListStateWrapper, k: usize)
    requires
        c.wf(),
        c.selected is Some,
        c.selected->0 + k <= c.upper_bound,
        !(c.wrap && c.selected == Some(c.upper_bound)),
    ensures
        spec_recede(spec_advance(c, k as int), k as int).selected == c.selected,
{
}

/// Law: with wrapping off, moving forward from the last item stays on the
/// last item.
pub proof fn lemma_advance_clamps_at_end(c: ListStateWrapper, k: usize)
    requires
        c.wf(),
        !c.wrap,
        c.selected == Some(c.upper_bound),
    ensures
        spec_advance(c, k as int).selected == Some(c.upper_bound),
{
}

/// Law: resizing to an empty list leaves no selection; resizing a list that
/// has no selection to a nonzero length selects the first item.
pub proof fn lemma_resize_empty_then_refill(c: ListStateWrapper, n: usize)
    requires
        n > 0,
    ensures
        spec_resize(c, 0).spec_current() is None,
        spec_resize(spec_resize(c, 0), n as int).spec_current() == Some(0usize),
{
}

} // verus!

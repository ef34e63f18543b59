//! The filter box: an editable line of text used as a live literal filter
//! over the template names.

use vstd::prelude::*;
use crate::text::str_to_chars;

verus! {

/// The filter text, kept as a sequence of characters.
#[derive(Debug)]
pub struct Filter {
    text: Vec<char>,
}

impl View for Filter {
    type V = Seq<char>;

    closed spec fn view(&self) -> Seq<char> {
        self.text@
    }
}

impl Filter {
    pub fn new() -> (r: Filter)
        ensures
            r@ == Seq::<char>::empty(),
    {
        Filter { text: Vec::new() }
    }

    /// The current filter text.
    pub fn text(&self) -> (r: &Vec<char>)
        ensures
            r@ == self@,
    {
        &self.text
    }

    pub fn set_text(&mut self, text: &str)
        ensures
            final(self)@ == text@,
    {
        self.text = str_to_chars(text);
    }

    pub fn clear(&mut self)
        ensures
            final(self)@ == Seq::<char>::empty(),
    {
        self.text = Vec::new();
    }

    /// Appends one character to the filter text.
    pub fn append(&mut self, ch: char)
        ensures
            final(self)@ == old(self)@.push(ch),
    {
        self.text.push(ch);
    }

    /// Removes the last character; does nothing when the text is empty.
    pub fn delete_last(&mut self)
        ensures
            final(self)@ == if old(self)@.len() == 0 {
                old(self)@
            } else {
                old(self)@.drop_last()
            },
    {
        if self.text.len() > 0 {
            self.text.pop();
        }
    }
}

} // verus!

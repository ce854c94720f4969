use vstd::prelude::*;

verus! {

/// Which table of key bindings interprets the input.
///
/// Only `Normal` has bindings; the other modes swallow every event.
#[derive(Debug, Clone, Copy, PartialEq, Eq, Structural)]
pub enum TypeMode {
    Normal,
    Insert,
    Select,
    Command,
}

/// Horizontal placement of the title inside the top border.
#[derive(Debug, Clone, Copy, PartialEq, Eq, Structural)]
pub enum Align {
    Left,
    Middle,
    Right,
}

/// The text shown in the top border, and where it is placed.
#[derive(Debug, Clone)]
pub struct Title {
    pub text: String,
    pub align: Align,
}

impl Title {
    /// An empty, left-aligned title.
    pub fn new() -> (r: Title)
        ensures
            r.text@ == Seq::<char>::empty(),
            r.align == Align::Left,
    {
        Title { text: String::new(), align: Align::Left }
    }

    /// Replaces the text and keeps the alignment.
    pub fn set_title(&mut self, title: String)
        ensures
            final(self).text@ == title@,
            final(self).align == old(self).align,
    {
        self.text = title;
    }

    /// Replaces the alignment and keeps the text.
    pub fn set_align(&mut self, align: Align)
        ensures
            final(self).align == align,
            final(self).text == old(self).text,
    {
        self.align = align;
    }
}

} // verus!

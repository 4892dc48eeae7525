//! The data of a text-area widget: the text it displays, if any.  Layout
//! and drawing belong to the presentation layer; this type only carries
//! the content it is created with.

use std::rc::Rc;

use vstd::prelude::*;

verus! {

/// A block of display text, possibly empty.
#[derive(Clone, Debug)]
pub struct TextArea {
    pub text: Option<String>,
}

impl TextArea {
    /// A text area with nothing to display yet.
    pub fn empty() -> (r: Rc<TextArea>)
        ensures
            r.text is None,
    {
        Rc::new(TextArea { text: None })
    }

    /// A text area displaying the given text.
    pub fn new(text: &str) -> (r: Rc<TextArea>)
        ensures
            r.text is Some,
            r.text.unwrap()@ == text@,
    {
        let owned = text.to_string();
        proof {
            broadcast use vstd::string::to_string_from_display_ensures_for_str;

        }
        Rc::new(TextArea { text: Some(owned) })
    }
}

} // verus!

//! A label: a source that always shows the same text.

use crate::status_bar::{Component, ComponentError};
use vstd::prelude::*;

verus! {

/// A source with a fixed text.
pub struct Label {
    text: String,
}

impl Label {
    /// The text that the label shows.
    pub closed spec fn text(&self) -> Seq<char> {
        self.text@
    }

    /// A label that shows `text`.
    pub fn new(text: String) -> (label: Self)
        ensures
            label.text() == text@,
    {
        Label { text }
    }
}

impl Component for Label {
    /// A refresh succeeds and leaves the label as it is.
    open spec fn refreshes(&self, after: &Self, failure: Option<ComponentError>) -> bool {
        failure is None && after == self
    }

    /// A render gives the label's text and nothing else.
    open spec fn renders(&self, text: Option<Seq<char>>) -> bool {
        text == Some(self.text())
    }

    fn tick(&mut self) -> (outcome: Result<(), ComponentError>) {
        Ok(())
    }

    fn output(&self) -> (text: Result<String, ComponentError>) {
        Ok(self.text.clone())
    }
}

} // verus!

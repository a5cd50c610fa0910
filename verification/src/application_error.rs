//! The error of the windowed application.

use vstd::prelude::*;
use crate::error_text::labelled;

verus! {

/// What can stop the application: a failure of the display library,
/// reported as text.
#[derive(Debug)]
pub enum ApplicationError {
    Allegro(String),
}

impl ApplicationError {
    /// The short name of the error's kind.
    pub open spec fn label(&self) -> Seq<char> {
        match self {
            ApplicationError::Allegro(_) => "allegro"@,
        }
    }

    /// The text of the error: `allegro: ` and the text it carries.
    pub open spec fn text(&self) -> Seq<char> {
        match self {
            ApplicationError::Allegro(own) => "allegro"@ + ": "@ + own@,
        }
    }

    /// Returns the short name of the error's kind.
    pub fn description(&self) -> (name: &'static str)
        ensures
            name@ == self.label(),
    {
        match self {
            ApplicationError::Allegro(_) => "allegro",
        }
    }

    /// Tells whether the error carries another error as its cause: it never
    /// does.
    pub fn has_cause(&self) -> (caused: bool)
        ensures
            !caused,
    {
        match self {
            ApplicationError::Allegro(_) => false,
        }
    }

    /// Returns the text of the error.
    pub fn message(&self) -> (text: String)
        ensures
            text@ == self.text(),
    {
        match self {
            ApplicationError::Allegro(own) => labelled(self.description(), ": ", own.as_str()),
        }
    }
}

} // verus!

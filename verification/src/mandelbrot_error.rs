//! The error of the rendering core.

use vstd::prelude::*;
use vstd::std_specs::convert::FromSpecImpl;
use crate::error_text::{io_error_text, labelled};

verus! {

/// What can go wrong in the core: writing a snapshot can fail, and the
/// failure carries its cause.
#[derive(Debug)]
pub enum MandelbrotError {
    Io(std::io::Error),
}

impl From<std::io::Error> for MandelbrotError {
    fn from(err: std::io::Error) -> (error: MandelbrotError) {
        MandelbrotError::Io(err)
    }
}

impl FromSpecImpl<std::io::Error> for MandelbrotError {
    open spec fn obeys_from_spec() -> bool {
        true
    }

    open spec fn from_spec(err: std::io::Error) -> MandelbrotError {
        MandelbrotError::Io(err)
    }
}

impl MandelbrotError {
    /// The short name of the error's kind.
    pub open spec fn label(&self) -> Seq<char> {
        match self {
            MandelbrotError::Io(_) => "io"@,
        }
    }

    /// Returns the short name of the error's kind.
    pub fn description(&self) -> (name: &'static str)
        ensures
            name@ == self.label(),
    {
        match self {
            MandelbrotError::Io(_) => "io",
        }
    }

    /// Returns the I/O error that caused this error.
    pub fn cause(&self) -> (cause: Option<&std::io::Error>)
        ensures
            cause == Some(&self->Io_0),
    {
        match self {
            MandelbrotError::Io(err) => Some(err),
        }
    }

    /// The text of the error around the text of its cause: the kind, a
    /// slash, the cause.
    pub open spec fn text_around(&self, cause_text: Seq<char>) -> Seq<char> {
        self.label() + "/"@ + cause_text
    }

    /// Returns the text of the error: its kind, a slash, and what the cause
    /// displays.
    pub fn message(&self) -> (text: String)
        ensures
            exists|cause_text: Seq<char>| text@ == self.text_around(cause_text),
    {
        match self {
            MandelbrotError::Io(err) => {
                let cause_text = io_error_text(err);
                let text = labelled(self.description(), "/", cause_text.as_str());
                assert(text@ == self.text_around(cause_text@));
                text
            },
        }
    }
}

} // verus!

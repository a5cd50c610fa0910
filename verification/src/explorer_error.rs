//! The error of the interactive explorer.

use vstd::prelude::*;
use vstd::std_specs::convert::FromSpecImpl;
use crate::error_text::{io_error_text, labelled};

verus! {

/// What can stop the explorer: a failure of the display library, reported
/// as text, or an I/O failure.
#[derive(Debug)]
pub enum ExplorerError {
    Allegro(String),
    Io(std::io::Error),
}

impl From<std::io::Error> for ExplorerError {
    fn from(err: std::io::Error) -> (error: ExplorerError) {
        ExplorerError::Io(err)
    }
}

impl FromSpecImpl<std::io::Error> for ExplorerError {
    open spec fn obeys_from_spec() -> bool {
        true
    }

    open spec fn from_spec(err: std::io::Error) -> ExplorerError {
        ExplorerError::Io(err)
    }
}

impl ExplorerError {
    /// The short name of the error's kind.
    pub open spec fn label(&self) -> Seq<char> {
        match self {
            ExplorerError::Allegro(_) => "allegro"@,
            ExplorerError::Io(_) => "io"@,
        }
    }

    /// Returns the short name of the error's kind.
    pub fn description(&self) -> (name: &'static str)
        ensures
            name@ == self.label(),
    {
        match self {
            ExplorerError::Allegro(_) => "allegro",
            ExplorerError::Io(_) => "io",
        }
    }

    /// Tells whether the error carries another error as its cause.
    pub fn has_cause(&self) -> (caused: bool)
        ensures
            caused == (self is Io),
    {
        match self {
            ExplorerError::Allegro(_) => false,
            ExplorerError::Io(_) => true,
        }
    }

    /// The text of the error around the text of its I/O cause. A failure of
    /// the display library reads `allegro: ` and its own text; an I/O
    /// failure reads `io/` and the text of the cause.
    pub open spec fn text_around(&self, cause_text: Seq<char>) -> Seq<char> {
        match self {
            ExplorerError::Allegro(text) => "allegro"@ + ": "@ + text@,
            ExplorerError::Io(_) => "io"@ + "/"@ + cause_text,
        }
    }

    /// Returns the text of the error.
    pub fn message(&self) -> (text: String)
        ensures
            exists|cause_text: Seq<char>| text@ == self.text_around(cause_text),
            self matches ExplorerError::Allegro(own) ==> text@ == "allegro"@ + ": "@ + own@,
    {
        match self {
            ExplorerError::Allegro(own) => {
                let text = labelled(self.description(), ": ", own.as_str());
                assert(text@ == self.text_around(Seq::empty()));
                text
            },
            ExplorerError::Io(err) => {
                let cause_text = io_error_text(err);
                let text = labelled(self.description(), "/", cause_text.as_str());
                assert(text@ == self.text_around(cause_text@));
                text
            },
        }
    }
}

} // verus!

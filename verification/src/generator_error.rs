//! The error of the autonomous generator.

use vstd::prelude::*;
use vstd::std_specs::convert::FromSpecImpl;
use crate::error_text::{io_error_text, labelled};
use crate::mandelbrot_error::MandelbrotError;

verus! {

/// What can stop the generator: an I/O failure of its own, or a failure of
/// the rendering core.
#[derive(Debug)]
pub enum GeneratorError {
    Io(std::io::Error),
    Mandelbrot(MandelbrotError),
}

impl From<std::io::Error> for GeneratorError {
    fn from(err: std::io::Error) -> (error: GeneratorError) {
        GeneratorError::Io(err)
    }
}

impl FromSpecImpl<std::io::Error> for GeneratorError {
    open spec fn obeys_from_spec() -> bool {
        true
    }

    open spec fn from_spec(err: std::io::Error) -> GeneratorError {
        GeneratorError::Io(err)
    }
}

impl From<MandelbrotError> for GeneratorError {
    fn from(err: MandelbrotError) -> (error: GeneratorError) {
        GeneratorError::Mandelbrot(err)
    }
}

impl FromSpecImpl<MandelbrotError> for GeneratorError {
    open spec fn obeys_from_spec() -> bool {
        true
    }

    open spec fn from_spec(err: MandelbrotError) -> GeneratorError {
        GeneratorError::Mandelbrot(err)
    }
}

impl GeneratorError {
    /// The short name of the error's kind.
    pub open spec fn label(&self) -> Seq<char> {
        match self {
            GeneratorError::Io(_) => "io"@,
            GeneratorError::Mandelbrot(_) => "mandelbrot"@,
        }
    }

    /// Returns the short name of the error's kind.
    pub fn description(&self) -> (name: &'static str)
        ensures
            name@ == self.label(),
    {
        match self {
            GeneratorError::Io(_) => "io",
            GeneratorError::Mandelbrot(_) => "mandelbrot",
        }
    }

    /// The text of the error around the text of its cause: the kind, a
    /// slash, the cause.
    pub open spec fn text_around(&self, cause_text: Seq<char>) -> Seq<char> {
        self.label() + "/"@ + cause_text
    }

    /// Returns the text of the error: its kind, a slash, and the text of
    /// the cause.
    pub fn message(&self) -> (text: String)
        ensures
            exists|cause_text: Seq<char>| text@ == self.text_around(cause_text),
    {
        let cause_text = match self {
            GeneratorError::Io(err) => io_error_text(err),
            GeneratorError::Mandelbrot(err) => err.message(),
        };
        let text = labelled(self.description(), "/", cause_text.as_str());
        assert(text@ == self.text_around(cause_text@));
        text
    }
}

} // verus!

//! Text of error values.

use vstd::prelude::*;

verus! {

#[verifier::external_type_specification]
#[verifier::external_body]
pub struct ExIoError(std::io::Error);

/// Returns the text that an I/O error displays.
///
/// Trusted: the `Display` impl of `std::io::Error`. The text depends on the
/// error and on the platform, so the contract claims nothing of it.
#[verifier::external_body]
pub(crate) fn io_error_text(err: &std::io::Error) -> (text: String) {
    format!("{}", err)
}

/// Makes an I/O error of kind `InvalidInput` that carries `message`.
///
/// Trusted: `std::io::Error::new`. An I/O error is opaque, so the contract
/// claims nothing of it.
#[verifier::external_body]
pub(crate) fn invalid_input(message: &str) -> (err: std::io::Error) {
    std::io::Error::new(std::io::ErrorKind::InvalidInput, message)
}

/// Joins a label, a separator and a detail into one text.
pub fn labelled(label: &str, separator: &str, detail: &str) -> (text: String)
    ensures
        text@ == label@ + separator@ + detail@,
{
    let mut text = String::from_str(label);
    text.append(separator);
    text.append(detail);
    text
}

} // verus!

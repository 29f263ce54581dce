use vstd::prelude::*;

verus! {

#[verifier::external_type_specification]
#[verifier::external_body]
pub struct ExIoError(std::io::Error);

/// Relies on std::io::Write::write_all: hands the UTF-8 bytes of `text` to
/// `sink` and reports the sink's outcome. Nothing is known of the sink.
#[verifier::external_body]
pub(crate) fn write_text<W: std::io::Write>(sink: &mut W, text: &str) -> (r: Result<
    (),
    std::io::Error,
>) {
    sink.write_all(text.as_bytes())
}

} // verus!

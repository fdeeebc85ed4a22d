use vstd::prelude::*;

verus! {

/// The bytes that remain after ANSI escape sequences are stripped from a
/// byte stream. Names the result of `strip_ansi_escapes::strip`, which is a
/// function of its input alone.
pub uninterp spec fn ansi_stripped(bytes: Seq<u8>) -> Seq<u8>;

/// The characters that lossy UTF-8 decoding yields for a byte stream,
/// invalid sequences replaced by the replacement character. Names the result
/// of `String::from_utf8_lossy`, which is a function of its input alone.
pub uninterp spec fn lossy_utf8(bytes: Seq<u8>) -> Seq<char>;

/// Relies on strip_ansi_escapes::strip: it runs the bytes through a terminal
/// escape parser and writes back only printed characters and line feeds; the
/// result depends on the bytes alone, and no input makes it fail.
#[verifier::external_body]
fn strip_ansi(bytes: &[u8]) -> (r: Vec<u8>)
    ensures
        r@ == ansi_stripped(bytes@),
        bytes@.len() == 0 ==> r@.len() == 0,
{
    strip_ansi_escapes::strip(bytes)
}

/// Relies on String::from_utf8_lossy: it decodes the bytes as UTF-8 and
/// replaces invalid sequences with the replacement character; the result
/// depends on the bytes alone.
#[verifier::external_body]
fn utf8_lossy(bytes: &[u8]) -> (r: String)
    ensures
        r@ == lossy_utf8(bytes@),
        bytes@.len() == 0 ==> r@.len() == 0,
{
    String::from_utf8_lossy(bytes).into_owned()
}

/// Clean raw log-file bytes for display: strip the console control sequences
/// the backend's loggers leave in the file, then decode what remains as
/// UTF-8, lossily, so that arbitrary file contents always yield displayable
/// text.
pub fn clean_log_bytes(buf: Vec<u8>) -> (r: String)
    ensures
        r@ == lossy_utf8(ansi_stripped(buf@)),
{
    let stripped = strip_ansi(buf.as_slice());
    utf8_lossy(stripped.as_slice())
}

} // verus!

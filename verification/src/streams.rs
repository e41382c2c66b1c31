//! The reduction rule: which of the compiler's two streams is shown.

use vstd::prelude::*;
use vstd::utf8::*;

verus! {

/// One of the two streams of a process.
#[derive(Clone, Copy, Debug, PartialEq, Eq, Structural)]
pub enum Stream {
    Stdout,
    Stderr,
}

/// The stream that is shown: standard error exactly when standard output is
/// empty.
pub open spec fn shown_stream(stdout: Seq<u8>) -> Stream {
    if stdout.len() == 0 {
        Stream::Stderr
    } else {
        Stream::Stdout
    }
}

/// The bytes of the stream that is shown.
pub open spec fn shown_bytes(stdout: Seq<u8>, stderr: Seq<u8>) -> Seq<u8> {
    if stdout.len() == 0 {
        stderr
    } else {
        stdout
    }
}

/// Whether both streams hold text.
pub open spec fn streams_decode(stdout: Seq<u8>, stderr: Seq<u8>) -> bool {
    valid_utf8(stdout) && valid_utf8(stderr)
}

/// The text that is shown, when both streams hold text.
pub open spec fn shown_text(stdout: Seq<u8>, stderr: Seq<u8>) -> Seq<char> {
    decode_utf8(shown_bytes(stdout, stderr))
}

/// Decodes `bytes` by `std::str::from_utf8`: the text that they encode, or
/// `None` exactly when they are not valid UTF-8.
#[verifier::external_body]
fn decode_text<'a>(bytes: &'a [u8]) -> (text: Option<&'a str>)
    ensures
        text is Some <==> valid_utf8(bytes@),
        text matches Some(s) ==> s@ == decode_utf8(bytes@),
{
    std::str::from_utf8(bytes).ok()
}

/// Reduces the two captured streams to the one that is shown. Both are
/// decoded first, so bytes that are not text in either of them give `None`.
pub fn reduce_output(stdout: &[u8], stderr: &[u8]) -> (shown: Option<(Stream, String)>)
    ensures
        shown is Some <==> streams_decode(stdout@, stderr@),
        shown matches Some((stream, text)) ==> stream == shown_stream(stdout@) && text@
            == shown_text(stdout@, stderr@),
{
    let out = decode_text(stdout);
    let err = decode_text(stderr);
    match (out, err) {
        (Some(out), Some(err)) => {
            if stdout.len() == 0 {
                Some((Stream::Stderr, err.to_owned()))
            } else {
                Some((Stream::Stdout, out.to_owned()))
            }
        },
        _ => None,
    }
}

/// With empty standard output the shown text is that of standard error,
/// empty when both are empty; otherwise it is that of standard output.
pub proof fn law_reduction_by_emptiness(stdout: Seq<u8>, stderr: Seq<u8>)
    ensures
        stdout.len() == 0 ==> shown_text(stdout, stderr) == decode_utf8(stderr),
        stdout.len() != 0 ==> shown_text(stdout, stderr) == decode_utf8(stdout),
        stdout.len() == 0 && stderr.len() == 0 ==> streams_decode(stdout, stderr) && shown_text(
            stdout,
            stderr,
        ) == Seq::<char>::empty(),
{
    if stdout.len() == 0 && stderr.len() == 0 {
        assert(valid_utf8(stdout));
        assert(valid_utf8(stderr));
        assert(decode_utf8(stderr) =~= Seq::<char>::empty());
    }
}

/// What is mirrored is the chosen stream as it came: the shown text encodes
/// to exactly the bytes of that stream.
pub proof fn law_mirror_is_verbatim(stdout: Seq<u8>, stderr: Seq<u8>)
    requires
        streams_decode(stdout, stderr),
    ensures
        encode_utf8(shown_text(stdout, stderr)) == shown_bytes(stdout, stderr),
{
    decode_utf8_encode_utf8(shown_bytes(stdout, stderr));
}

} // verus!

//! Event bodies and the two conversions between their external tagged
//! form and the internal byte form.
//!
//! An external body is absent, UTF-8 text, or raw binary. Internally a
//! body is a plain byte sequence. The conversion out of the internal
//! form is deliberately lossy for genuine binary payloads: bytes that
//! are not valid UTF-8 come back as text with replacement characters,
//! never as binary again. That policy is fixed and stated in the
//! contracts, not silently corrected.

use vstd::prelude::*;
use vstd::string::*;
use vstd::utf8::*;

verus! {

/// An external event body: absent, UTF-8 text, or raw binary.
///
/// A boundary that receives a body in some richer shape maps any
/// variant beyond these three to `Empty`; degrading an unknown variant
/// to an absent body is the fixed policy here, not a failure.
#[derive(Clone, Debug, PartialEq, Eq)]
pub enum Body {
    Empty,
    Text(String),
    Binary(Vec<u8>),
}

/// The mathematical shape of a [`Body`].
pub enum BodyView {
    Empty,
    Text(Seq<char>),
    Binary(Seq<u8>),
}

impl View for Body {
    type V = BodyView;

    open spec fn view(&self) -> BodyView {
        match self {
            Body::Empty => BodyView::Empty,
            Body::Text(s) => BodyView::Text(s@),
            Body::Binary(b) => BodyView::Binary(b@),
        }
    }
}

/// The internal bytes a body converts to: absent becomes empty, text
/// becomes its UTF-8 encoding, binary is copied unchanged.
pub open spec fn to_internal_spec(b: BodyView) -> Seq<u8> {
    match b {
        BodyView::Empty => Seq::empty(),
        BodyView::Text(s) => encode_utf8(s),
        BodyView::Binary(bytes) => bytes,
    }
}

/// What `String::from_utf8_lossy` returns on the given bytes. Stated
/// exactly only where the documentation pins it down: on valid UTF-8 it
/// is the decoded text (see [`from_utf8_lossy`]).
pub uninterp spec fn lossy_decode(bytes: Seq<u8>) -> Seq<char>;

/// The body that internal bytes convert back to: empty bytes become an
/// absent body, anything else becomes text, decoded with lossy
/// replacement of invalid sequences. Binary is never reconstructed.
pub open spec fn to_external_spec(bytes: Seq<u8>) -> BodyView {
    if bytes.len() == 0 {
        BodyView::Empty
    } else {
        BodyView::Text(lossy_decode(bytes))
    }
}

/// Relies on `String::from_utf8_lossy`: invalid UTF-8 sequences are
/// replaced with U+FFFD, so a valid input decodes exactly and a
/// nonempty input never decodes to an empty string.
#[verifier::external_body]
fn from_utf8_lossy(bytes: &Vec<u8>) -> (r: String)
    ensures
        r@ == lossy_decode(bytes@),
        valid_utf8(bytes@) ==> r@ == decode_utf8(bytes@),
        bytes@.len() > 0 ==> r@.len() > 0,
{
    String::from_utf8_lossy(bytes.as_slice()).into_owned()
}

/// Converts an external body to its internal bytes.
///
/// Total and deterministic: an absent body gives empty bytes, text
/// gives its UTF-8 encoding, binary gives an unchanged copy.
pub fn to_internal(b: &Body) -> (r: Vec<u8>)
    ensures
        r@ == to_internal_spec(b@),
{
    match b {
        Body::Empty => Vec::new(),
        Body::Text(s) => s.as_str().as_bytes_vec(),
        Body::Binary(bytes) => bytes.clone(),
    }
}

/// Converts internal bytes back to an external body.
///
/// Empty bytes give an absent body; nonempty bytes give text, decoded
/// with lossy replacement. Valid UTF-8 decodes exactly; a binary
/// payload that was not valid UTF-8 is therefore not recovered — a
/// documented limitation of this conversion, not an error.
pub fn to_external(bytes: Vec<u8>) -> (r: Body)
    ensures
        r@ == to_external_spec(bytes@),
        bytes@.len() == 0 ==> r@ == BodyView::Empty,
        valid_utf8(bytes@) && bytes@.len() > 0 ==> r@ == BodyView::Text(decode_utf8(bytes@)),
        bytes@.len() > 0 ==> (r@ matches BodyView::Text(t) && t.len() > 0),
{
    if bytes.len() == 0 {
        Body::Empty
    } else {
        Body::Text(from_utf8_lossy(&bytes))
    }
}

/// A UTF-8 encoding is empty exactly when the encoded text is empty:
/// every character encodes to at least one byte.
pub proof fn lemma_encode_utf8_len(chars: Seq<char>)
    ensures
        encode_utf8(chars).len() == 0 <==> chars.len() == 0,
{
    if chars.len() > 0 {
        assert(encode_scalar(chars[0] as u32).len() >= 1);
    }
}

/// Law: an absent body and empty bytes correspond under both
/// conversions — an absent body converts to empty internal bytes, and
/// empty internal bytes convert back to an absent body.
pub proof fn lemma_absent_empty_correspondence()
    ensures
        to_internal_spec(BodyView::Empty) == Seq::<u8>::empty(),
        to_external_spec(Seq::<u8>::empty()) == BodyView::Empty,
{
}

/// Law: round-trip stability. Converting any body to internal bytes
/// and back normalizes it; converting the normalized body the same way
/// again returns it unchanged. The first pass may alter a binary body
/// (its bytes come back as lossily decoded text), but every pass after
/// the first is the identity. The function performs both passes and
/// its contract records that the second returns what the first did.
pub fn normalized_round_trip(b: &Body) -> (r: (Body, Body))
    ensures
        r.0@ == to_external_spec(to_internal_spec(b@)),
        r.1@ == to_external_spec(to_internal_spec(r.0@)),
        r.1@ == r.0@,
{
    let first_bytes = to_internal(b);
    let normalized = to_external(first_bytes);
    let second_bytes = to_internal(&normalized);
    let stable = to_external(second_bytes);
    proof {
        if first_bytes@.len() > 0 {
            let c = lossy_decode(first_bytes@);
            lemma_encode_utf8_len(c);
            encode_utf8_valid_utf8(c);
            encode_utf8_decode_utf8(c);
        }
    }
    (normalized, stable)
}

} // verus!

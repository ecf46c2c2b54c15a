//! The three-way body union of the event contract, its byte meaning, and the
//! byte-level operations every adapter shares: encoding a body as a payload,
//! classifying a drained payload back into the union, and materializing a
//! streamed body into one buffer.

use vstd::prelude::*;
use vstd::string::StrSliceExecFns;

verus! {

/// A payload of the event contract is absent, textual, or binary.
#[derive(Debug, PartialEq, Eq, Clone)]
pub enum Body {
    Empty,
    Text(String),
    Binary(Vec<u8>),
}

/// The bytes a body stands for: a text body stands for the UTF-8 encoding of
/// its characters, a binary body for its own bytes, an absent body for no
/// bytes at all.
pub open spec fn body_bytes(b: Body) -> Seq<u8> {
    match b {
        Body::Empty => Seq::empty(),
        Body::Text(s) => vstd::utf8::encode_utf8(s@),
        Body::Binary(v) => v@,
    }
}

/// How a drained payload is classified back into the union: no bytes mean the
/// absent variant, anything else is kept byte for byte as binary. Nothing is
/// ever guessed back into the text variant, so a textual payload may come
/// back downgraded to binary, but never corrupted.
pub open spec fn classifies(bytes: Seq<u8>, b: Body) -> bool {
    &&& bytes.len() == 0 ==> b is Empty
    &&& bytes.len() > 0 ==> (b matches Body::Binary(v) && v@ == bytes)
}

/// Encode a body as the byte payload a framework-side message carries.
pub fn body_to_bytes(b: Body) -> (r: Vec<u8>)
    ensures
        r@ == body_bytes(b),
{
    match b {
        Body::Empty => Vec::new(),
        Body::Text(s) => s.as_str().as_bytes_vec(),
        Body::Binary(v) => v,
    }
}

/// Classify a fully drained payload into the body union.
pub fn classify_bytes(bytes: Vec<u8>) -> (b: Body)
    ensures
        classifies(bytes@, b),
        body_bytes(b) == bytes@,
{
    if bytes.len() == 0 {
        proof {
            assert(bytes@ =~= Seq::<u8>::empty());
        }
        Body::Empty
    } else {
        Body::Binary(bytes)
    }
}

/// A framework-side response body as the adapter receives it: reported
/// absent, already buffered in memory, a drained stream of chunks, or a
/// stream that cannot be buffered at all.
#[derive(Debug, PartialEq, Eq, Clone)]
pub enum FrameworkBody {
    NoBody,
    Buffered(Vec<u8>),
    Streamed(Vec<Vec<u8>>),
    Unbufferable,
}

/// The concatenation of a sequence of byte chunks.
pub open spec fn concat_bytes(chunks: Seq<Vec<u8>>) -> Seq<u8>
    decreases chunks.len(),
{
    if chunks.len() == 0 {
        Seq::empty()
    } else {
        chunks.first()@ + concat_bytes(chunks.drop_first())
    }
}

/// The bytes a framework body stands for, once drained. An unbufferable body
/// stands for no bytes; conversions reject it instead of reading this.
pub open spec fn framework_body_bytes(b: FrameworkBody) -> Seq<u8>
    recommends
        !(b is Unbufferable),
{
    match b {
        FrameworkBody::NoBody => Seq::empty(),
        FrameworkBody::Buffered(v) => v@,
        FrameworkBody::Streamed(chunks) => concat_bytes(chunks@),
        FrameworkBody::Unbufferable => Seq::empty(),
    }
}

/// Materialize a streamed body: drain its chunks, in order, into one buffer.
pub fn materialize(chunks: Vec<Vec<u8>>) -> (r: Vec<u8>)
    ensures
        r@ == concat_bytes(chunks@),
{
    let mut rest = chunks;
    let mut out: Vec<u8> = Vec::new();
    while rest.len() > 0
        invariant
            out@ + concat_bytes(rest@) == concat_bytes(chunks@),
        decreases rest.len(),
    {
        let ghost prev_rest = rest@;
        let ghost prev_out = out@;
        let mut chunk = rest.remove(0);
        let ghost taken = chunk@;
        proof {
            assert(rest@ =~= prev_rest.drop_first());
        }
        out.append(&mut chunk);
        proof {
            assert((prev_out + taken) + concat_bytes(rest@) =~= prev_out + (taken
                + concat_bytes(rest@)));
        }
    }
    proof {
        assert(out@ + concat_bytes(rest@) =~= out@);
    }
    out
}

/// Law: encoding a body as a payload and classifying that payload back
/// reconstructs the exact original bytes, and absence survives the round
/// trip.
pub proof fn lemma_body_round_trip(b: Body, back: Body)
    requires
        classifies(body_bytes(b), back),
    ensures
        body_bytes(back) == body_bytes(b),
        b is Empty ==> back is Empty,
{
    if body_bytes(b).len() == 0 {
        assert(body_bytes(back) =~= body_bytes(b));
    }
}

/// Law: a framework body that drained to nothing classifies as the absent
/// variant, never as a zero-length binary payload.
pub proof fn lemma_empty_classifies_absent(bytes: Seq<u8>, b: Body)
    requires
        bytes.len() == 0,
        classifies(bytes, b),
    ensures
        b is Empty,
        !(b is Binary),
{
}

} // verus!

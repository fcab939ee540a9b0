//! The queue envelope: a `LightTask` as a deterministic, length-prefixed
//! binary record. An `i32` uid in four little-endian bytes, the path as its
//! UTF-8 byte count in eight little-endian bytes followed by the bytes, and
//! the optional failure hook as a tag byte (0 absent, 1 present) followed,
//! when present, by a string laid out as the path is. Bytes after the record
//! are ignored on reading.
use vstd::bytes::*;
use vstd::prelude::*;
use vstd::utf8::*;

use crate::model::{opt_text, LightTask};

verus! {

/// A string field: byte count, then the UTF-8 bytes.
pub open spec fn text_bytes(s: Seq<char>) -> Seq<u8> {
    spec_u64_to_le_bytes(encode_utf8(s).len() as u64) + encode_utf8(s)
}

/// The optional-string field.
pub open spec fn opt_text_bytes(o: Option<Seq<char>>) -> Seq<u8> {
    match o {
        None => seq![0u8],
        Some(s) => seq![1u8] + text_bytes(s),
    }
}

/// The record for the given fields.
pub open spec fn envelope_bytes(uid: i32, path: Seq<char>, on_failure: Option<Seq<char>>) -> Seq<u8> {
    spec_u32_to_le_bytes(#[verifier::truncate] (uid as u32)) + text_bytes(path) + opt_text_bytes(on_failure)
}

/// Reads a string field at `at`: the text and the index just past it.
pub open spec fn parse_text(b: Seq<u8>, at: int) -> Option<(Seq<char>, int)> {
    if 0 <= at && at + 8 <= b.len() {
        let n = spec_u64_from_le_bytes(b.subrange(at, at + 8)) as int;
        let end = at + 8 + n;
        if end <= b.len() && valid_utf8(b.subrange(at + 8, end)) {
            Some((decode_utf8(b.subrange(at + 8, end)), end))
        } else {
            None
        }
    } else {
        None
    }
}

/// Reads a record from the front of `b`; `None` when `b` starts with none.
pub open spec fn parse_envelope(b: Seq<u8>) -> Option<(i32, Seq<char>, Option<Seq<char>>)> {
    if b.len() < 4 {
        None
    } else {
        let uid = #[verifier::truncate] (spec_u32_from_le_bytes(b.subrange(0, 4)) as i32);
        match parse_text(b, 4) {
            None => None,
            Some((path, k)) => if k < b.len() && b[k] == 0u8 {
                Some((uid, path, None))
            } else if k < b.len() && b[k] == 1u8 {
                match parse_text(b, k + 1) {
                    Some((f, _)) => Some((uid, path, Some(f))),
                    None => None,
                }
            } else {
                None
            },
        }
    }
}

/// Why a queue message could not be read.
#[derive(Clone, Copy, Debug, PartialEq, Eq, Structural)]
pub enum EnvelopeError {
    Corrupted,
}

#[verifier::external_type_specification]
#[verifier::external_body]
pub struct ExBincodeErrorKind(bincode::ErrorKind);

/// Relies on `bincode::serialize` with its default options: tuple fields in
/// order, an `i32` as four little-endian bytes, a string as its byte count in
/// eight little-endian bytes and then its UTF-8 bytes, an `Option` as a tag
/// byte 0 or 1 and then the value. With no size limit and a `Vec` as the sink
/// it returns `Ok`.
#[verifier::external_body]
fn bincode_serialize(uid: i32, path: &String, on_failure: &Option<String>) -> (r: Result<Vec<u8>, Box<bincode::ErrorKind>>)
    ensures
        r is Ok,
        r matches Ok(bytes) ==> bytes@ == envelope_bytes(uid, path@, opt_text(*on_failure)),
{
    bincode::serialize(&(uid, path, on_failure))
}

/// Relies on `bincode::deserialize` with its default options, which read the
/// layout `bincode::serialize` writes: it fails on a short input, a string
/// whose byte count runs past the end or whose bytes are not UTF-8, and an
/// option tag other than 0 or 1; trailing bytes are allowed.
#[verifier::external_body]
fn bincode_deserialize(b: &[u8]) -> (r: Result<(i32, String, Option<String>), Box<bincode::ErrorKind>>)
    ensures
        r matches Ok(v) ==> parse_envelope(b@) == Some((v.0, v.1@, opt_text(v.2))),
        r is Err ==> parse_envelope(b@) is None,
{
    bincode::deserialize::<(i32, String, Option<String>)>(b)
}

/// Writes the envelope of `task`.
pub fn encode_light_task(task: &LightTask) -> (r: Vec<u8>)
    ensures
        r@ == envelope_bytes(task.uid, task.path@, opt_text(task.on_failure)),
{
    match bincode_serialize(task.uid, &task.path, &task.on_failure) {
        Ok(b) => b,
        Err(_) => Vec::new(),
    }
}

/// Reads the envelope at the front of `b`.
pub fn decode_light_task(b: &[u8]) -> (r: Result<LightTask, EnvelopeError>)
    ensures
        match r {
            Ok(t) => parse_envelope(b@) == Some((t.uid, t.path@, opt_text(t.on_failure))),
            Err(e) => e == EnvelopeError::Corrupted && parse_envelope(b@) is None,
        },
{
    match bincode_deserialize(b) {
        Ok((uid, path, on_failure)) => Ok(LightTask { uid, path, on_failure }),
        Err(_) => Err(EnvelopeError::Corrupted),
    }
}

proof fn lemma_parse_text_at(b: Seq<u8>, at: int, s: Seq<char>)
    requires
        0 <= at,
        at + text_bytes(s).len() <= b.len(),
        b.subrange(at, at + text_bytes(s).len()) == text_bytes(s),
        encode_utf8(s).len() <= usize::MAX,
    ensures
        text_bytes(s).len() == 8 + encode_utf8(s).len(),
        parse_text(b, at) == Some((s, at + text_bytes(s).len())),
{
    broadcast use encode_utf8_valid_utf8, encode_utf8_decode_utf8;

    lemma_auto_spec_u64_to_from_le_bytes();
    let bytes = encode_utf8(s);
    let n = bytes.len() as u64;
    let t = text_bytes(s);
    assert(spec_u64_to_le_bytes(n).len() == 8);
    assert(t.len() == 8 + bytes.len());
    assert(b.subrange(at, at + 8) =~= t.subrange(0, 8));
    assert(t.subrange(0, 8) =~= spec_u64_to_le_bytes(n));
    assert(b.subrange(at + 8, at + t.len()) =~= t.subrange(8, t.len() as int));
    assert(t.subrange(8, t.len() as int) =~= bytes);
}

/// A record read back gives the fields it was written from, whatever bytes
/// follow it.
pub proof fn lemma_envelope_round_trip(
    uid: i32,
    path: Seq<char>,
    on_failure: Option<Seq<char>>,
    rest: Seq<u8>,
)
    requires
        encode_utf8(path).len() <= usize::MAX,
        on_failure matches Some(f) ==> encode_utf8(f).len() <= usize::MAX,
    ensures
        parse_envelope(envelope_bytes(uid, path, on_failure) + rest) == Some(
            (uid, path, on_failure),
        ),
{
    lemma_auto_spec_u32_to_from_le_bytes();
    let head = spec_u32_to_le_bytes(#[verifier::truncate] (uid as u32));
    let pt = text_bytes(path);
    let ot = opt_text_bytes(on_failure);
    let b = envelope_bytes(uid, path, on_failure) + rest;
    assert(head.len() == 4);
    assert(b =~= head + pt + ot + rest);
    assert(b.subrange(0, 4) =~= head);
    assert(#[verifier::truncate] ((#[verifier::truncate] (uid as u32)) as i32) == uid) by (bit_vector);
    assert(b.subrange(4, 4 + pt.len() as int) =~= pt);
    lemma_parse_text_at(b, 4, path);
    let k: int = 4 + pt.len() as int;
    assert(b[k] == ot[0]);
    match on_failure {
        None => {},
        Some(f) => {
            let ft = text_bytes(f);
            assert(b.subrange(k + 1, k + 1 + ft.len() as int) =~= ft);
            lemma_parse_text_at(b, k + 1, f);
        },
    }
}

} // verus!

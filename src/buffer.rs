//! Decoding a name that the OS wrote into a fixed-size, NUL-terminated buffer.

use vstd::prelude::*;
use vstd::utf8::{decode_utf8, valid_utf8};

use crate::error::{HostError, NameKind};
use crate::text::{index_of, lemma_index_of};

verus! {

/// Why a buffer holds no name.
#[derive(Clone, Copy, Debug, PartialEq, Eq, Structural)]
pub enum BufferError {
    /// No NUL byte ends the name within the buffer.
    Unterminated,
    /// The bytes before the NUL are not UTF-8.
    NotUtf8,
}

/// The text held by a buffer: the bytes before its first NUL, decoded as UTF-8.
pub open spec fn terminated_text(b: Seq<u8>) -> Result<Seq<char>, BufferError> {
    let k = index_of(b, 0u8);
    if k == b.len() {
        Err(BufferError::Unterminated)
    } else if !valid_utf8(b.take(k)) {
        Err(BufferError::NotUtf8)
    } else {
        Ok(decode_utf8(b.take(k)))
    }
}

/// The outcome of reading a name: `status` is what the OS call returned and
/// `b` the buffer it filled.
pub open spec fn read_name(status: i32, b: Seq<u8>, kind: NameKind) -> Result<Seq<char>, HostError> {
    if status != 0 {
        Err(HostError::OsError)
    } else {
        match terminated_text(b) {
            Ok(s) => Ok(s),
            Err(BufferError::Unterminated) => Err(HostError::BufferTooSmall(kind)),
            Err(BufferError::NotUtf8) => Err(HostError::NotText(kind)),
        }
    }
}

/// Relies on String::from_utf8: it accepts exactly the well-formed UTF-8
/// byte sequences and keeps the text they encode.
#[verifier::external_body]
fn string_from_utf8(v: Vec<u8>) -> (r: Option<String>)
    ensures
        r is Some <==> valid_utf8(v@),
        r matches Some(s) ==> s@ == decode_utf8(v@),
{
    String::from_utf8(v).ok()
}

/// The text before the first NUL of `v`.
pub fn u8_to_string(v: Vec<u8>) -> (r: Result<String, BufferError>)
    ensures
        r matches Ok(s) ==> terminated_text(v@) == Ok::<Seq<char>, BufferError>(s@),
        r matches Err(e) ==> terminated_text(v@) == Err::<Seq<char>, BufferError>(e),
{
    let mut v = v;
    let ghost b = v@;
    let mut i: usize = 0;
    while i < v.len()
        invariant
            v@ == b,
            i <= v.len(),
            forall|j: int| 0 <= j < i ==> b[j] != 0u8,
        ensures
            i <= v.len(),
            forall|j: int| 0 <= j < i ==> b[j] != 0u8,
            i < v.len() ==> b[i as int] == 0u8,
        decreases v.len() - i,
    {
        if v[i] == 0 {
            break;
        }
        i = i + 1;
    }
    proof {
        lemma_index_of(b, 0u8, i as int);
    }
    if i == v.len() {
        return Err(BufferError::Unterminated);
    }
    v.truncate(i);
    assert(v@ == b.take(i as int));
    match string_from_utf8(v) {
        Some(s) => Ok(s),
        None => Err(BufferError::NotUtf8),
    }
}

/// The name that an OS call wrote into `buf`, or why there is none.
pub fn name_from_buffer(status: i32, buf: Vec<u8>, kind: NameKind) -> (r: Result<String, HostError>)
    ensures
        r matches Ok(s) ==> read_name(status, buf@, kind) == Ok::<Seq<char>, HostError>(s@),
        r matches Err(e) ==> read_name(status, buf@, kind) == Err::<Seq<char>, HostError>(e),
{
    if status != 0 {
        return Err(HostError::OsError);
    }
    match u8_to_string(buf) {
        Ok(s) => Ok(s),
        Err(BufferError::Unterminated) => Err(HostError::BufferTooSmall(kind)),
        Err(BufferError::NotUtf8) => Err(HostError::NotText(kind)),
    }
}

} // verus!

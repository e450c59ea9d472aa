use vstd::prelude::*;
use vstd::string::StringSliceAdditionalSpecFns;

verus! {

/// The length of the header that a length-prefixed encoding puts before the
/// elements of a sequence.
pub const HEADER_LEN: usize = 8;

/// The error that the binary encoder reports.
#[verifier::external_type_specification]
#[verifier::external_body]
pub struct ExErrorKind(bincode::ErrorKind);

/// Why a value could not be isolated.
#[derive(Clone, Copy, PartialEq, Eq, Debug)]
pub enum IsolationError {
    /// The encoder refused the value.
    NotSerializable,
}

/// The `count` low bytes of `n`, least significant first.
pub open spec fn le_bytes(n: nat, count: nat) -> Seq<u8>
    decreases count,
{
    if count == 0 {
        Seq::empty()
    } else {
        seq![(n % 256) as u8] + le_bytes(n / 256, (count - 1) as nat)
    }
}

/// The encoding of a byte sequence: its length in eight little-endian bytes,
/// then the bytes.
pub open spec fn encoded_bytes(bytes: Seq<u8>) -> Seq<u8> {
    le_bytes(bytes.len(), 8) + bytes
}

/// What is shown of an encoding of a value whose in-memory size is `size`:
/// where the encoding holds at least a header's worth of bytes and its length
/// differs from `size`, the header is taken to be there and left out.
pub open spec fn strip_header(encoded: Seq<u8>, size: nat) -> Seq<u8> {
    if encoded.len() >= HEADER_LEN && encoded.len() != size {
        encoded.subrange(HEADER_LEN as int, encoded.len() as int)
    } else {
        encoded
    }
}

proof fn lemma_le_bytes_len(n: nat, count: nat)
    ensures
        le_bytes(n, count).len() == count,
    decreases count,
{
    if count > 0 {
        lemma_le_bytes_len(n / 256, (count - 1) as nat);
    }
}

/// The header rule: an encoding whose length equals the value's in-memory
/// size is shown whole; one at least a header long whose length differs from
/// that size loses exactly its first eight bytes, and keeps the rest in order.
pub proof fn lemma_header_rule(encoded: Seq<u8>, size: nat)
    ensures
        encoded.len() == size ==> strip_header(encoded, size) == encoded,
        encoded.len() >= HEADER_LEN && encoded.len() != size ==> {
            &&& strip_header(encoded, size).len() == encoded.len() - HEADER_LEN
            &&& forall|i: int|
                0 <= i < encoded.len() - HEADER_LEN ==> #[trigger] strip_header(encoded, size)[i]
                    == encoded[i + HEADER_LEN]
        },
{
}

/// A fixed-width integer encoded at its own size keeps every byte of its
/// encoding: no header is taken off.
pub proof fn lemma_fixed_width_kept(value: nat, width: nat)
    ensures
        strip_header(le_bytes(value, width), width) == le_bytes(value, width),
{
    lemma_le_bytes_len(value, width);
}

/// Relies on bincode::serialize at `u16`: with its default options an
/// integer is written in fixed width, little-endian, and with no size limit
/// and a `Vec` to write into the encoding cannot fail.
#[verifier::external_body]
fn encode_u16(value: u16) -> (r: Result<Vec<u8>, Box<bincode::ErrorKind>>)
    ensures
        r is Ok,
        r matches Ok(b) ==> b@ == le_bytes(value as nat, 2),
{
    bincode::serialize(&value)
}

/// Relies on bincode::serialize at `u64`: with its default options an
/// integer is written in fixed width, little-endian, and with no size limit
/// and a `Vec` to write into the encoding cannot fail.
#[verifier::external_body]
fn encode_u64(value: u64) -> (r: Result<Vec<u8>, Box<bincode::ErrorKind>>)
    ensures
        r is Ok,
        r matches Ok(b) ==> b@ == le_bytes(value as nat, 8),
{
    bincode::serialize(&value)
}

/// Relies on bincode::serialize at `[u8]`: with its default options a
/// sequence is written as its length, a fixed-width little-endian `u64`,
/// followed by its elements, one byte each; a slice always gives its length,
/// and with no size limit and a `Vec` to write into the encoding cannot fail.
#[verifier::external_body]
fn encode_bytes(bytes: &[u8]) -> (r: Result<Vec<u8>, Box<bincode::ErrorKind>>)
    ensures
        r is Ok,
        r matches Ok(b) ==> b@ == encoded_bytes(bytes@),
{
    bincode::serialize(bytes)
}

/// Builds the isolation buffer from the encoding of a value whose in-memory
/// size is `size`.
pub fn isolation_buffer(encoded: Vec<u8>, size: usize) -> (r: Vec<u8>)
    ensures
        r@ == strip_header(encoded@, size as nat),
{
    if encoded.len() >= HEADER_LEN && encoded.len() != size {
        let mut r: Vec<u8> = Vec::new();
        let mut i: usize = HEADER_LEN;
        while i < encoded.len()
            invariant
                HEADER_LEN <= i <= encoded@.len(),
                r@ == encoded@.subrange(HEADER_LEN as int, i as int),
            decreases encoded@.len() - i,
        {
            r.push(encoded[i]);
            assert(r@ =~= encoded@.subrange(HEADER_LEN as int, i + 1));
            i = i + 1;
        }
        r
    } else {
        encoded
    }
}

/// Encodes `value` and builds its isolation buffer for an in-memory size of
/// `size`.
pub fn isolate_u16(value: u16, size: usize) -> (r: Result<Vec<u8>, IsolationError>)
    ensures
        r is Ok,
        match r {
            Ok(b) => b@ == strip_header(le_bytes(value as nat, 2), size as nat),
            Err(e) => e == IsolationError::NotSerializable,
        },
{
    match encode_u16(value) {
        Ok(encoded) => Ok(isolation_buffer(encoded, size)),
        Err(_) => Err(IsolationError::NotSerializable),
    }
}

/// Encodes `value` and builds its isolation buffer for an in-memory size of
/// `size`.
pub fn isolate_u64(value: u64, size: usize) -> (r: Result<Vec<u8>, IsolationError>)
    ensures
        r is Ok,
        match r {
            Ok(b) => b@ == strip_header(le_bytes(value as nat, 8), size as nat),
            Err(e) => e == IsolationError::NotSerializable,
        },
{
    match encode_u64(value) {
        Ok(encoded) => Ok(isolation_buffer(encoded, size)),
        Err(_) => Err(IsolationError::NotSerializable),
    }
}

/// Encodes the byte sequence `bytes` and builds its isolation buffer for an
/// in-memory size of `size`.
pub fn isolate_bytes(bytes: &[u8], size: usize) -> (r: Result<Vec<u8>, IsolationError>)
    ensures
        r is Ok,
        match r {
            Ok(b) => b@ == strip_header(encoded_bytes(bytes@), size as nat),
            Err(e) => e == IsolationError::NotSerializable,
        },
{
    match encode_bytes(bytes) {
        Ok(encoded) => Ok(isolation_buffer(encoded, size)),
        Err(_) => Err(IsolationError::NotSerializable),
    }
}

/// Encodes the text `text`, written as its UTF-8 bytes, and builds its
/// isolation buffer for an in-memory size of `size`.
pub fn isolate_str(text: &str, size: usize) -> (r: Result<Vec<u8>, IsolationError>)
    ensures
        r is Ok,
        match r {
            Ok(b) => b@ == strip_header(encoded_bytes(text.spec_bytes()), size as nat),
            Err(e) => e == IsolationError::NotSerializable,
        },
{
    isolate_bytes(text.as_bytes(), size)
}

} // verus!

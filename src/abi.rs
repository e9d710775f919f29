use vstd::prelude::*;
use vstd::utf8::{decode_utf8, valid_utf8};

verus! {

/// The little-endian unsigned integer held in the four bytes of `b` from `at`.
pub open spec fn le_u32_at(b: Seq<u8>, at: int) -> int {
    b[at] as int + 256 * (b[at + 1] as int) + 65536 * (b[at + 2] as int) + 16777216 * (b[at + 3] as int)
}

/// The result record at `ptr` lies inside the memory.
pub open spec fn record_fits(mem: Seq<u8>, ptr: int) -> bool {
    ptr + 8 <= mem.len()
}

/// Where the result text starts, as the record at `ptr` says.
pub open spec fn text_start(mem: Seq<u8>, ptr: int) -> int {
    le_u32_at(mem, ptr)
}

/// How long the result text is, as the record at `ptr` says.
pub open spec fn text_len(mem: Seq<u8>, ptr: int) -> int {
    le_u32_at(mem, ptr + 4)
}

/// The text that the record at `ptr` addresses lies inside the memory.
pub open spec fn text_fits(mem: Seq<u8>, ptr: int) -> bool {
    text_start(mem, ptr) + text_len(mem, ptr) <= mem.len()
}

/// The bytes of the result text addressed by the record at `ptr`.
pub open spec fn text_bytes(mem: Seq<u8>, ptr: int) -> Seq<u8> {
    mem.subrange(text_start(mem, ptr), text_start(mem, ptr) + text_len(mem, ptr))
}

/// Why the guest's result could not be read out of its memory.
#[derive(Clone, Copy, Debug, PartialEq, Eq, Structural)]
pub enum DecodeError {
    /// The eight-byte record lies (partly) outside the memory.
    RecordOutOfBounds,
    /// The text that the record addresses lies (partly) outside the memory.
    TextOutOfBounds,
    /// The text is not valid UTF-8.
    InvalidUtf8,
}

impl DecodeError {
    /// A short description of the failure.
    pub fn message(&self) -> (r: String)
        ensures
            r@ == decode_error_text(*self),
    {
        match self {
            DecodeError::RecordOutOfBounds => String::from_str("result record out of memory bounds"),
            DecodeError::TextOutOfBounds => String::from_str("result text out of memory bounds"),
            DecodeError::InvalidUtf8 => String::from_str("result text is not valid UTF-8"),
        }
    }
}

/// The description of a decoding failure.
pub open spec fn decode_error_text(e: DecodeError) -> Seq<char> {
    match e {
        DecodeError::RecordOutOfBounds => "result record out of memory bounds"@,
        DecodeError::TextOutOfBounds => "result text out of memory bounds"@,
        DecodeError::InvalidUtf8 => "result text is not valid UTF-8"@,
    }
}

/// Reads the little-endian unsigned 32-bit integer stored at `at`.
pub fn read_u32_le(memory: &[u8], at: usize) -> (r: u32)
    requires
        at + 4 <= memory@.len(),
    ensures
        r as int == le_u32_at(memory@, at as int),
{
    let b0 = memory[at] as u32;
    let b1 = memory[at + 1] as u32;
    let b2 = memory[at + 2] as u32;
    let b3 = memory[at + 3] as u32;
    b0 + 256 * b1 + 65536 * b2 + 16777216 * b3
}

/// Relies on `String::from_utf8`: it accepts exactly the valid UTF-8 byte sequences,
/// and the string it returns holds the characters those bytes encode.
#[verifier::external_body]
fn utf8_to_string(bytes: Vec<u8>) -> (r: Option<String>)
    ensures
        r is Some <==> valid_utf8(bytes@),
        r matches Some(s) ==> s@ == decode_utf8(bytes@),
{
    String::from_utf8(bytes).ok()
}

/// Decodes the guest's result: `ptr` points at a record of two little-endian 32-bit
/// integers, the address and the length of a UTF-8 text elsewhere in the memory.
pub fn resolve_string(memory: &[u8], ptr: usize) -> (r: Result<String, DecodeError>)
    ensures
        !record_fits(memory@, ptr as int) ==> r == Err::<String, DecodeError>(
            DecodeError::RecordOutOfBounds,
        ),
        record_fits(memory@, ptr as int) && !text_fits(memory@, ptr as int) ==> r == Err::<
            String,
            DecodeError,
        >(DecodeError::TextOutOfBounds),
        record_fits(memory@, ptr as int) && text_fits(memory@, ptr as int) && !valid_utf8(
            text_bytes(memory@, ptr as int),
        ) ==> r == Err::<String, DecodeError>(DecodeError::InvalidUtf8),
        record_fits(memory@, ptr as int) && text_fits(memory@, ptr as int) && valid_utf8(
            text_bytes(memory@, ptr as int),
        ) ==> (r matches Ok(s) && s@ == decode_utf8(text_bytes(memory@, ptr as int))),
{
    if ptr > memory.len() || memory.len() - ptr < 8 {
        return Err(DecodeError::RecordOutOfBounds);
    }
    let start = read_u32_le(memory, ptr) as usize;
    let length = read_u32_le(memory, ptr + 4) as usize;
    if start > memory.len() || memory.len() - start < length {
        return Err(DecodeError::TextOutOfBounds);
    }
    let mut bytes: Vec<u8> = Vec::with_capacity(length);
    let mut i: usize = 0;
    while i < length
        invariant
            i <= length,
            start + length <= memory.len(),
            memory.len() == memory@.len(),
            bytes@ == memory@.subrange(start as int, start + i),
        decreases length - i,
    {
        bytes.push(memory[start + i]);
        i += 1;
        proof {
            assert(bytes@ =~= memory@.subrange(start as int, start + i));
        }
    }
    match utf8_to_string(bytes) {
        Some(s) => Ok(s),
        None => Err(DecodeError::InvalidUtf8),
    }
}

} // verus!

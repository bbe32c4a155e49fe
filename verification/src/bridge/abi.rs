//! Result words and the bytes that go with them.
//!
//! Every call of the host returns one 64-bit word: a signed code in the upper half and a length in
//! the lower half. Output bytes or an error text go to a buffer that the host provides.

use crate::text::{decimal, decimal_string, join4, join5};
use vstd::prelude::*;
use vstd::utf8::encode_utf8;

verus! {

/// The call failed; the length counts the bytes of the error text.
pub const BRIDGE_ERROR: i32 = -1;

/// The result is not there yet.
pub const BRIDGE_PENDING: i32 = 1;

/// The buffer of the host is too small; the length says how large it has to be.
pub const BRIDGE_BUFFER_TOO_SMALL: i32 = 2;

/// The largest length that a result word can carry.
pub const BRIDGE_ABI_U32_LIMIT: usize = 0xffff_ffff;

/// What a call hands back: the result word, and the bytes that go to the start of the buffer.
#[derive(Debug)]
pub struct BridgeOutput {
    pub word: i64,
    pub bytes: Vec<u8>,
}

/// Mathematical counterpart of [`BridgeOutput`].
pub struct Output {
    pub word: i64,
    pub bytes: Seq<u8>,
}

impl View for BridgeOutput {
    type V = Output;

    open spec fn view(&self) -> Output {
        Output { word: self.word, bytes: self.bytes@ }
    }
}

/// The word of `code` and `len`.
pub open spec fn packed(code: i32, len: u32) -> i64 {
    (((code as u32 as u64) << 32u64) | len as u64) as i64
}

/// The code that a word carries.
pub open spec fn code_of(word: i64) -> i32 {
    ((word as u64) >> 32u64) as u32 as i32
}

/// The length that a word carries.
pub open spec fn len_of(word: i64) -> u32 {
    (word as u64) as u32
}

/// The word of `code` and `len`.
pub fn pack_result(code: i32, len: u32) -> (res: i64)
    ensures
        res == packed(code, len),
{
    (((code as u32 as u64) << 32) | len as u64) as i64
}

/// The code and the length that a word carries.
pub fn unpack_result(result: i64) -> (res: (i32, usize))
    ensures
        res == (code_of(result), len_of(result) as usize),
{
    (unpack_result_code(result), (result as u64) as u32 as usize)
}

/// The code that a word carries.
pub fn unpack_result_code(result: i64) -> (res: i32)
    ensures
        res == code_of(result),
{
    ((result as u64) >> 32) as u32 as i32
}

/// A word carries the code and the length that it was packed from.
pub proof fn law_unpack_undoes_pack(code: i32, len: u32)
    ensures
        code_of(packed(code, len)) == code,
        len_of(packed(code, len)) == len,
{
    let word = packed(code, len);
    assert(((word as u64) >> 32u64) as u32 as i32 == code && (word as u64) as u32 == len)
        by (bit_vector)
        requires
            word == (((code as u32 as u64) << 32u64) | len as u64) as i64,
    ;
}

/// A word is the one of the code and the length that it carries.
pub proof fn law_pack_undoes_unpack(word: i64)
    ensures
        packed(code_of(word), len_of(word)) == word,
{
    let code = code_of(word);
    let len = len_of(word);
    assert((((code as u32 as u64) << 32u64) | len as u64) as i64 == word) by (bit_vector)
        requires
            code == ((word as u64) >> 32u64) as u32 as i32,
            len == (word as u64) as u32,
    ;
}

/// The error text for something of `len` bytes that no result word can carry the length of.
pub open spec fn over_abi_limit(context: Seq<char>, len: nat) -> Seq<char> {
    context + " is "@ + decimal(len) + " bytes, exceeds the bridge ABI u32 length limit"@
}

/// `len` as the length of a result word.
pub fn checked_result_len(len: usize, context: &str) -> (res: Result<u32, String>)
    ensures
        match res {
            Ok(n) => n == len,
            Err(error) => len > u32::MAX && error@ == over_abi_limit(context@, len as nat),
        },
{
    if len > BRIDGE_ABI_U32_LIMIT {
        Err(
            join4(
                context,
                " is ",
                decimal_string(len as u64).as_str(),
                " bytes, exceeds the bridge ABI u32 length limit",
            ),
        )
    } else {
        Ok(len as u32)
    }
}

/// The bytes of a result: its output, or the text of its error.
pub open spec fn result_bytes(result: Result<Vec<u8>, String>) -> Seq<u8> {
    match result {
        Ok(output) => output@,
        Err(error) => encode_utf8(error@),
    }
}

/// How many bytes a result takes.
pub fn ready_result_len(result: &Result<Vec<u8>, String>) -> (res: usize)
    ensures
        res == result_bytes(*result).len(),
{
    match result {
        Ok(output) => output.len(),
        Err(error) => error.as_str().as_bytes().len(),
    }
}

/// The word for a buffer that is too small, or `None` if it is large enough.
pub fn buffer_too_small_result(required_len: usize, output_capacity: usize, context: &str) -> (res:
    Result<Option<i64>, String>)
    ensures
        match res {
            Ok(None) => required_len <= output_capacity,
            Ok(Some(word)) => output_capacity < required_len <= u32::MAX && word == packed(
                BRIDGE_BUFFER_TOO_SMALL,
                required_len as u32,
            ),
            Err(error) => output_capacity < required_len && required_len > u32::MAX && error@
                == over_abi_limit(context@, required_len as nat),
        },
{
    if required_len <= output_capacity {
        return Ok(None);
    }
    match checked_result_len(required_len, context) {
        Ok(len) => Ok(Some(pack_result(BRIDGE_BUFFER_TOO_SMALL, len))),
        Err(error) => Err(error),
    }
}

/// An answer without bytes.
pub open spec fn bare_output(word: i64) -> Output {
    Output { word, bytes: Seq::empty() }
}

/// How many of `len` bytes of an error text are reported to a buffer of `capacity` bytes.
pub open spec fn error_len(len: int, capacity: int) -> int {
    let fitting = if len <= capacity {
        len
    } else {
        capacity
    };
    if fitting <= u32::MAX {
        fitting
    } else {
        u32::MAX as int
    }
}

/// The answer for an error: as much of its text as fits.
pub open spec fn error_output(capacity: int, error: Seq<char>) -> Output {
    let bytes = encode_utf8(error);
    let n = error_len(bytes.len() as int, capacity);
    Output { word: packed(BRIDGE_ERROR, n as u32), bytes: bytes.take(n) }
}

/// `front` written over the start of `back`.
pub open spec fn overlaid(front: Seq<u8>, back: Seq<u8>) -> Seq<u8> {
    if front.len() >= back.len() {
        front
    } else {
        front + back.skip(front.len() as int)
    }
}

/// The error text for an output that the buffer does not hold.
pub open spec fn output_too_large(len: nat, capacity: nat) -> Seq<char> {
    "bridge output is "@ + decimal(len) + " bytes but the host provided "@ + decimal(capacity)
        + " bytes"@
}

/// The answer for a result, in a buffer of `capacity` bytes.
pub open spec fn result_output(capacity: int, result: Result<Seq<u8>, Seq<char>>) -> Output {
    match result {
        Ok(output) => if output.len() > capacity {
            error_output(capacity, output_too_large(output.len(), capacity as nat))
        } else if output.len() <= u32::MAX {
            Output { word: packed(0, output.len() as u32), bytes: output }
        } else {
            let error = error_output(capacity, over_abi_limit("bridge output"@, output.len()));
            Output { word: error.word, bytes: overlaid(error.bytes, output) }
        },
        Err(error) => error_output(capacity, error),
    }
}

/// A result with its bytes and its text as sequences.
pub open spec fn result_view(result: Result<Vec<u8>, String>) -> Result<Seq<u8>, Seq<char>> {
    match result {
        Ok(output) => Ok(output@),
        Err(error) => Err(error@),
    }
}

/// The answer for an error: as much of its text as fits.
pub fn write_error(output_capacity: usize, error: String) -> (res: BridgeOutput)
    ensures
        res@ == error_output(output_capacity as int, error@),
{
    let bytes = error.as_str().as_bytes();
    let mut len: usize = bytes.len();
    if len > output_capacity {
        len = output_capacity;
    }
    if len > BRIDGE_ABI_U32_LIMIT {
        len = BRIDGE_ABI_U32_LIMIT;
    }
    let reported = vstd::slice::slice_subrange(bytes, 0, len);
    BridgeOutput {
        word: pack_result(BRIDGE_ERROR, len as u32),
        bytes: vstd::slice::slice_to_vec(reported),
    }
}

/// The answer for a result.
pub fn write_result(output_capacity: usize, result: Result<Vec<u8>, String>) -> (res: BridgeOutput)
    ensures
        res@ == result_output(output_capacity as int, result_view(result)),
{
    match result {
        Ok(output) => {
            if output.len() <= output_capacity {
                match checked_result_len(output.len(), "bridge output") {
                    Ok(len) => BridgeOutput { word: pack_result(0, len), bytes: output },
                    Err(error) => {
                        let answer = write_error(output_capacity, error);
                        let n: usize = answer.bytes.len();
                        let mut bytes = answer.bytes;
                        if n < output.len() {
                            let mut output = output;
                            let mut rest = output.split_off(n);
                            bytes.append(&mut rest);
                        }
                        BridgeOutput { word: answer.word, bytes }
                    },
                }
            } else {
                write_error(
                    output_capacity,
                    join5(
                        "bridge output is ",
                        decimal_string(output.len() as u64).as_str(),
                        " bytes but the host provided ",
                        decimal_string(output_capacity as u64).as_str(),
                        " bytes",
                    ),
                )
            }
        },
        Err(error) => write_error(output_capacity, error),
    }
}

/// No answer is longer than the buffer that it goes to.
pub proof fn law_output_fits(capacity: int, result: Result<Seq<u8>, Seq<char>>)
    requires
        capacity >= 0,
    ensures
        result_output(capacity, result).bytes.len() <= capacity,
{
}

/// The length in a result word is the number of bytes that go with it, unless those bytes are an
/// error text written over an output that was too long to report.
pub proof fn law_word_counts_bytes(capacity: int, result: Result<Seq<u8>, Seq<char>>)
    requires
        capacity >= 0,
        result matches Ok(output) ==> output.len() <= u32::MAX,
    ensures
        len_of(result_output(capacity, result).word) == result_output(capacity, result).bytes.len(),
        code_of(result_output(capacity, result).word) == 0 <==> (result matches Ok(output)
            && output.len() <= capacity),
        code_of(result_output(capacity, result).word) == 0 || code_of(
            result_output(capacity, result).word,
        ) == BRIDGE_ERROR,
{
    match result {
        Ok(output) => {
            law_unpack_undoes_pack(0, output.len() as u32);
            let bytes = encode_utf8(output_too_large(output.len(), capacity as nat));
            law_unpack_undoes_pack(
                BRIDGE_ERROR,
                error_len(bytes.len() as int, capacity) as u32,
            );
        },
        Err(error) => {
            law_unpack_undoes_pack(
                BRIDGE_ERROR,
                error_len(encode_utf8(error).len() as int, capacity) as u32,
            );
        },
    }
}

} // verus!

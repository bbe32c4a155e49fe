//! What a host reads from result words and buffers.

use super::abi::{
    buffer_too_small_result, checked_result_len, law_pack_undoes_unpack, pack_result, packed,
    ready_result_len, unpack_result, unpack_result_code, write_error, write_result, BridgeOutput,
};
use crate::text::decimal;
use vstd::prelude::*;
use vstd::utf8::encode_utf8;

verus! {

pub(crate) proof fn lemma_word(code: i32, len: u32)
    ensures
        packed(code, len) == code * 0x1_0000_0000 + len,
{
    let word = packed(code, len);
    assert(word == code * 0x1_0000_0000 + len) by (bit_vector)
        requires
            word == (((code as u32 as u64) << 32u64) | len as u64) as i64,
    ;
}

/// A result word is its code times two to the thirty-second power, plus its length.
pub proof fn law_words_are_code_and_length(code: i32, len: u32, word: i64)
    requires
        call_ensures(pack_result, (code, len), word),
    ensures
        word == code * 0x1_0000_0000 + len,
{
    lemma_word(code, len);
}

/// The code and the length read from a word are the ones that make it up.
pub proof fn law_words_are_read_back(word: i64, read: (i32, usize), code: i32)
    requires
        call_ensures(unpack_result, (word,), read),
        call_ensures(unpack_result_code, (word,), code),
    ensures
        word == read.0 * 0x1_0000_0000 + read.1,
        0 <= read.1 < 0x1_0000_0000,
        code == read.0,
{
    law_pack_undoes_unpack(word);
    lemma_word(super::abi::code_of(word), super::abi::len_of(word));
}

/// The error text is told to a buffer of this capacity: the word carries the code of an error and the
/// number of bytes, which are as many of the text as the buffer and a word can hold.
pub open spec fn tells_error(word: i64, bytes: Seq<u8>, capacity: int, text: Seq<char>) -> bool {
    let all = encode_utf8(text);
    &&& word == -0x1_0000_0000 + bytes.len()
    &&& bytes.len() <= all.len()
    &&& bytes == all.subrange(0, bytes.len() as int)
    &&& bytes.len() <= capacity && bytes.len() <= 0xffff_ffff
    &&& bytes.len() == all.len() || bytes.len() == capacity || bytes.len() == 0xffff_ffff
}

/// Success without output is told.
pub open spec fn tells_success(word: i64, bytes: Seq<u8>) -> bool {
    word == 0 && bytes.len() == 0
}

pub(crate) proof fn lemma_tells_error(capacity: int, text: Seq<char>)
    requires
        capacity >= 0,
    ensures
        tells_error(
            super::abi::error_output(capacity, text).word,
            super::abi::error_output(capacity, text).bytes,
            capacity,
            text,
        ),
{
    let all = encode_utf8(text);
    let n = super::abi::error_len(all.len() as int, capacity);
    lemma_word(-1i32, n as u32);
    assert(all.take(n) =~= all.subrange(0, n));
}

/// How a failed or a bare successful call is told, in terms of the host's buffer.
pub(crate) proof fn lemma_tells(capacity: usize, text: Seq<char>)
    ensures
        tells_error(
            super::state::failed(capacity, text).word,
            super::state::failed(capacity, text).bytes,
            capacity as int,
            text,
        ),
        tells_success(super::state::succeeded(capacity).word, super::state::succeeded(capacity).bytes),
{
    lemma_tells_error(capacity as int, text);
    lemma_word(0, 0);
}

/// An error is told by as much of its text as fits.
pub proof fn law_errors_are_told(capacity: usize, error: String, res: BridgeOutput)
    requires
        call_ensures(write_error, (capacity, error), res),
    ensures
        tells_error(res.word, res.bytes@, capacity as int, error@),
{
    lemma_tells_error(capacity as int, error@);
    assert(res@.word == res.word && res@.bytes == res.bytes@);
}

/// An output whose length no word can carry is in the buffer, but for its start, over which an error
/// that says so is told.
pub open spec fn tells_error_over_output(
    word: i64,
    bytes: Seq<u8>,
    capacity: int,
    output: Seq<u8>,
) -> bool {
    exists|n: int|
        #![trigger bytes.subrange(0, n)]
        0 <= n <= output.len() && bytes.len() == output.len() && tells_error(
            word,
            bytes.subrange(0, n),
            capacity,
            "bridge output"@ + " is "@ + decimal(output.len())
                + " bytes, exceeds the bridge ABI u32 length limit"@,
        ) && bytes.subrange(n, bytes.len() as int) == output.subrange(n, output.len() as int)
}

/// A result is told whole: an output that fits goes to the buffer as it is, and the word is its
/// length; one that does not fit, and an error, are told as errors.
pub proof fn law_results_are_told(
    capacity: usize,
    result: Result<Vec<u8>, String>,
    res: BridgeOutput,
)
    requires
        call_ensures(write_result, (capacity, result), res),
    ensures
        result matches Err(error) ==> tells_error(res.word, res.bytes@, capacity as int, error@),
        result matches Ok(output) ==> output@.len() <= capacity && output@.len() <= 0xffff_ffff ==> {
            &&& res.word == output@.len()
            &&& res.bytes@ == output@
        },
        result matches Ok(output) ==> output@.len() > capacity ==> tells_error(
            res.word,
            res.bytes@,
            capacity as int,
            "bridge output is "@ + decimal(output@.len()) + " bytes but the host provided "@
                + decimal(capacity as nat) + " bytes"@,
        ),
        result matches Ok(output) ==> 0xffff_ffff < output@.len() <= capacity
            ==> tells_error_over_output(res.word, res.bytes@, capacity as int, output@),
        res.bytes@.len() <= capacity,
{
    assert(res@.word == res.word && res@.bytes == res.bytes@);
    match result {
        Ok(output) => {
            if output@.len() <= 0xffff_ffff {
                lemma_word(0, output@.len() as u32);
            }
            lemma_tells_error(
                capacity as int,
                "bridge output is "@ + decimal(output@.len()) + " bytes but the host provided "@
                    + decimal(capacity as nat) + " bytes"@,
            );
            super::abi::law_output_fits(capacity as int, Ok(output@));
            if 0xffff_ffff < output@.len() <= capacity {
                let text = "bridge output"@ + " is "@ + decimal(output@.len())
                    + " bytes, exceeds the bridge ABI u32 length limit"@;
                lemma_tells_error(capacity as int, text);
                let told = super::abi::error_output(capacity as int, text).bytes;
                let n = told.len() as int;
                assert(res.bytes@.subrange(0, n) =~= told);
                assert(res.bytes@.subrange(n, res.bytes@.len() as int) =~= output@.subrange(
                    n,
                    output@.len() as int,
                ));
            }
        },
        Err(error) => {
            lemma_tells_error(capacity as int, error@);
        },
    }
}

/// A length is carried if a word can carry it, and refused with a text that tells it otherwise.
pub proof fn law_lengths_are_checked(len: usize, context: &str, res: Result<u32, String>)
    requires
        call_ensures(checked_result_len, (len, context), res),
    ensures
        res is Ok <==> len <= 0xffff_ffff,
        res matches Ok(n) ==> n == len,
        res matches Err(error) ==> error@ == context@ + " is "@ + decimal(len as nat)
            + " bytes, exceeds the bridge ABI u32 length limit"@,
{
}

/// A result takes the bytes of its output, or of the text of its error.
pub proof fn law_results_take_their_bytes(result: Result<Vec<u8>, String>, len: usize)
    requires
        call_ensures(ready_result_len, (&result,), len),
    ensures
        result matches Ok(output) ==> len == output@.len(),
        result matches Err(error) ==> len == encode_utf8(error@).len(),
{
}

/// A buffer is too small exactly if it holds less than is required, and the word for that carries its
/// own code and what is required.
pub proof fn law_small_buffers_are_told(
    required: usize,
    capacity: usize,
    context: &str,
    res: Result<Option<i64>, String>,
)
    requires
        call_ensures(buffer_too_small_result, (required, capacity, context), res),
    ensures
        res matches Ok(None) <==> required <= capacity,
        required > capacity && required <= 0xffff_ffff ==> (res matches Ok(Some(word)) && word == 2
            * 0x1_0000_0000 + required),
        required > capacity && required > 0xffff_ffff ==> res is Err,
{
    if required <= 0xffff_ffff {
        lemma_word(2, required as u32);
    }
}

} // verus!

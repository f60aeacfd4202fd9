//! Recovering the reason text of a destination-chain revert.

use crate::word::{be_value, pow256};
use vstd::prelude::*;
use vstd::slice::slice_subrange;

verus! {

/// The text that `String::from_utf8_lossy` makes of a byte string: invalid
/// UTF-8 sequences become U+FFFD.
pub uninterp spec fn utf8_lossy(b: Seq<u8>) -> Seq<char>;

/// The value of the word at byte `at` when it is below 2^32, as an ABI
/// offset or length must be.
pub open spec fn small_word_at(data: Seq<u8>, at: int) -> Option<nat> {
    if 0 <= at && at + 32 <= data.len() && be_value(data.subrange(at, at + 32)) < pow256(4) {
        Some(be_value(data.subrange(at, at + 32)))
    } else {
        None
    }
}

/// The bytes of an ABI-encoded `string` at the head of `data`: an offset
/// word, a length word at that offset, then that many bytes.
pub open spec fn abi_string_bytes(data: Seq<u8>) -> Option<Seq<u8>> {
    match small_word_at(data, 0) {
        None => None,
        Some(offset) => match small_word_at(data, offset as int) {
            None => None,
            Some(len) => if offset + 32 + len <= data.len() {
                Some(data.subrange(offset + 32 as int, offset + 32 + len as int))
            } else {
                None
            },
        },
    }
}

/// Relies on `ethabi::decode` (ethabi 18) with the single parameter type
/// `string`: it reads the offset and length words (each must have its high
/// 28 bytes zero), takes that many bytes, and converts them with
/// `String::from_utf8_lossy`; it fails when a read runs past the data.
#[verifier::external_body]
fn abi_decode_string(data: &[u8]) -> (r: Option<String>)
    ensures
        match r {
            Some(s) => abi_string_bytes(data@) matches Some(b) && s@ == utf8_lossy(b),
            None => abi_string_bytes(data@) is None,
        },
{
    ethabi::decode(&[ethabi::ParamType::String], data).ok()?.pop()?.into_string()
}

/// Whether revert data starts with the selector of `Error(string)`,
/// 0x08c379a0.
pub open spec fn has_error_selector(data: Seq<u8>) -> bool {
    &&& data.len() >= 4
    &&& data[0] == 0x08u8
    &&& data[1] == 0xc3u8
    &&& data[2] == 0x79u8
    &&& data[3] == 0xa0u8
}

/// The reason of a revert: the decoded `Error(string)` message when the
/// revert data holds one, else the raw error text.
pub open spec fn revert_text(revert_data: Seq<u8>, error_text: Seq<char>) -> Seq<char> {
    if has_error_selector(revert_data) {
        match abi_string_bytes(revert_data.skip(4)) {
            Some(b) => utf8_lossy(b),
            None => error_text,
        }
    } else {
        error_text
    }
}

/// Recovers the reason of a destination-chain revert.
pub fn revert_reason(revert_data: &[u8], error_text: String) -> (r: String)
    ensures
        r@ == revert_text(revert_data@, error_text@),
{
    let n = revert_data.len();
    if n >= 4 && revert_data[0] == 0x08u8 && revert_data[1] == 0xc3u8 && revert_data[2] == 0x79u8
        && revert_data[3] == 0xa0u8 {
        let body = slice_subrange(revert_data, 4, n);
        assert(body@ =~= revert_data@.skip(4));
        match abi_decode_string(body) {
            Some(s) => s,
            None => error_text,
        }
    } else {
        error_text
    }
}

} // verus!

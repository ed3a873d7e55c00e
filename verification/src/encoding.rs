//! The legacy text encoding of the printer's double-byte mode: Shift-JIS,
//! taken from the `encoding_rs` tables.

use vstd::prelude::*;

verus! {

/// Longest text, in characters, that is handed to the encoder. A text of
/// that length has at most four times as many bytes and encodes to at most
/// ten times as many, so the sizes that the encoder adds up and rounds to
/// a power of two stay far below 2^32.
pub const MAX_TEXT_CHARS: usize = 0x10_0000;

/// The Shift-JIS bytes of a text as `encoding_rs::SHIFT_JIS` produces them,
/// unmappable characters replaced by decimal numeric character references.
pub uninterp spec fn shift_jis_bytes(text: Seq<char>) -> Seq<u8>;

/// Calls `encoding_rs::Encoding::encode` on `encoding_rs::SHIFT_JIS`. The
/// result depends on the text alone and is named `shift_jis_bytes`; the call
/// never fails, and its only panic, an overflow of the buffer size, is out
/// of reach under the length bound.
#[verifier::external_body]
pub(crate) fn encode_shift_jis(text: &str) -> (bytes: Vec<u8>)
    requires
        text@.len() <= MAX_TEXT_CHARS,
    ensures
        bytes@ == shift_jis_bytes(text@),
{
    let (encoded, _, _) = encoding_rs::SHIFT_JIS.encode(text);
    encoded.into_owned()
}

} // verus!

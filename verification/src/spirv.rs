//! Shader binary validation.
//!
//! A shader binary is a word-aligned instruction stream. Validation checks
//! that the total byte length is a multiple of four, assembles the words in
//! little-endian order, byte-swaps the whole stream if the leading magic word
//! arrives byte-reversed, and rejects the stream if the magic number still
//! does not match after the swap attempt.

use vstd::prelude::*;

use crate::error::Error;

verus! {

/// The magic number opening every valid shader binary.
pub const SPIRV_MAGIC: u32 = 0x0723_0203;

/// The little-endian word assembled from four bytes.
pub open spec fn spec_le_word(b0: u8, b1: u8, b2: u8, b3: u8) -> u32 {
    (b0 + b1 * 0x100 + b2 * 0x10000 + b3 * 0x1000000) as u32
}

/// Byte `k` (0 = least significant) of a word.
pub open spec fn spec_word_byte(w: u32, k: int) -> u8 {
    if k == 0 {
        (w % 0x100) as u8
    } else if k == 1 {
        ((w / 0x100) % 0x100) as u8
    } else if k == 2 {
        ((w / 0x10000) % 0x100) as u8
    } else {
        (w / 0x1000000) as u8
    }
}

/// The word with its four bytes in reversed order.
pub open spec fn spec_swap_bytes(w: u32) -> u32 {
    spec_le_word(spec_word_byte(w, 3), spec_word_byte(w, 2), spec_word_byte(w, 1), spec_word_byte(w, 0))
}

/// The words of a byte stream, assembled in little-endian order.
pub open spec fn spec_words(bytes: Seq<u8>) -> Seq<u32>
    recommends
        bytes.len() % 4 == 0,
{
    Seq::new(
        bytes.len() / 4,
        |k: int| spec_le_word(bytes[4 * k], bytes[4 * k + 1], bytes[4 * k + 2], bytes[4 * k + 3]),
    )
}

/// The little-endian byte stream of a word sequence.
pub open spec fn spec_le_bytes(words: Seq<u32>) -> Seq<u8> {
    Seq::new(words.len() * 4, |i: int| spec_word_byte(words[i / 4], i % 4))
}

/// What shader-binary validation accepts: `None` for a rejected stream,
/// `Some` with the corrected word stream otherwise.
pub open spec fn spec_decode(bytes: Seq<u8>) -> Option<Seq<u32>> {
    if bytes.len() % 4 != 0 {
        None
    } else {
        let ws = spec_words(bytes);
        let fixed = if ws.len() > 0 && ws[0] == spec_swap_bytes(SPIRV_MAGIC) {
            ws.map_values(|w: u32| spec_swap_bytes(w))
        } else {
            ws
        };
        if fixed.len() > 0 && fixed[0] == SPIRV_MAGIC {
            Some(fixed)
        } else {
            None
        }
    }
}

/// The four bytes of an assembled word are the four bytes it was assembled
/// from.
pub proof fn lemma_le_word_bytes(b0: u8, b1: u8, b2: u8, b3: u8)
    ensures
        spec_word_byte(spec_le_word(b0, b1, b2, b3), 0) == b0,
        spec_word_byte(spec_le_word(b0, b1, b2, b3), 1) == b1,
        spec_word_byte(spec_le_word(b0, b1, b2, b3), 2) == b2,
        spec_word_byte(spec_le_word(b0, b1, b2, b3), 3) == b3,
{
    let w = b0 + b1 * 0x100 + b2 * 0x10000 + b3 * 0x1000000;
    assert(w == spec_le_word(b0, b1, b2, b3));
    assert(w % 0x100 == b0) by (nonlinear_arith)
        requires
            w == b0 + b1 * 0x100 + b2 * 0x10000 + b3 * 0x1000000,
            b0 < 0x100,
            b1 < 0x100,
            b2 < 0x100,
            b3 < 0x100,
    ;
    assert((w / 0x100) % 0x100 == b1) by (nonlinear_arith)
        requires
            w == b0 + b1 * 0x100 + b2 * 0x10000 + b3 * 0x1000000,
            b0 < 0x100,
            b1 < 0x100,
            b2 < 0x100,
            b3 < 0x100,
    ;
    assert((w / 0x10000) % 0x100 == b2) by (nonlinear_arith)
        requires
            w == b0 + b1 * 0x100 + b2 * 0x10000 + b3 * 0x1000000,
            b0 < 0x100,
            b1 < 0x100,
            b2 < 0x100,
            b3 < 0x100,
    ;
    assert(w / 0x1000000 == b3) by (nonlinear_arith)
        requires
            w == b0 + b1 * 0x100 + b2 * 0x10000 + b3 * 0x1000000,
            b0 < 0x100,
            b1 < 0x100,
            b2 < 0x100,
            b3 < 0x100,
    ;
}

/// A word is the assembly of its own four bytes.
pub proof fn lemma_word_of_bytes(w: u32)
    ensures
        spec_le_word(
            spec_word_byte(w, 0),
            spec_word_byte(w, 1),
            spec_word_byte(w, 2),
            spec_word_byte(w, 3),
        ) == w,
{
    assert(w == (w % 0x100) + ((w / 0x100) % 0x100) * 0x100 + ((w / 0x10000) % 0x100) * 0x10000 + (
    w / 0x1000000) * 0x1000000) by (nonlinear_arith);
}

/// Swapping a word's bytes twice gives the word back.
pub proof fn lemma_swap_bytes_involution(w: u32)
    ensures
        spec_swap_bytes(spec_swap_bytes(w)) == w,
{
    lemma_le_word_bytes(
        spec_word_byte(w, 3),
        spec_word_byte(w, 2),
        spec_word_byte(w, 1),
        spec_word_byte(w, 0),
    );
    lemma_word_of_bytes(w);
}

/// Reverse the byte order of a word.
pub fn swap_word_bytes(w: u32) -> (r: u32)
    ensures
        r == spec_swap_bytes(w),
{
    let b0 = w % 0x100;
    let b1 = (w / 0x100) % 0x100;
    let b2 = (w / 0x10000) % 0x100;
    let b3 = w / 0x1000000;
    b3 + b2 * 0x100 + b1 * 0x10000 + b0 * 0x1000000
}

/// Validate a shader binary and return its corrected word stream.
///
/// Accepts exactly the streams whose byte length is a positive multiple of
/// four and whose leading word is the magic number, in either byte order; the
/// returned words are byte-swapped back to the expected order when the stream
/// arrived reversed. Everything else is rejected with
/// [`Error::InvalidSpirv`].
pub fn decode_spirv(source: &[u8]) -> (r: Result<Vec<u32>, Error>)
    ensures
        match r {
            Ok(words) => spec_decode(source@) == Some(words@),
            Err(e) => e == Error::InvalidSpirv && spec_decode(source@) is None,
        },
{
    if source.len() % 4 != 0 {
        return Err(Error::InvalidSpirv);
    }
    let count = source.len() / 4;
    let mut words: Vec<u32> = Vec::new();
    let mut k: usize = 0;
    let mut off: usize = 0;
    while k < count
        invariant
            count == source@.len() / 4,
            source@.len() % 4 == 0,
            source@.len() <= usize::MAX,
            k <= count,
            off == 4 * k,
            words@.len() == k,
            forall|j: int| 0 <= j < k ==> words@[j] == spec_words(source@)[j],
        decreases count - k,
    {
        assert(source@.len() == 4 * count);
        assert(off + 3 < source@.len());
        let b0 = source[off] as u32;
        let b1 = source[off + 1] as u32;
        let b2 = source[off + 2] as u32;
        let b3 = source[off + 3] as u32;
        words.push(b0 + b1 * 0x100 + b2 * 0x10000 + b3 * 0x1000000);
        k = k + 1;
        off = off + 4;
    }
    assert(words@ =~= spec_words(source@));

    // correct a byte-reversed stream
    if words.len() > 0 && words[0] == swap_word_bytes(SPIRV_MAGIC) {
        let ghost unswapped = words@;
        let mut i: usize = 0;
        while i < words.len()
            invariant
                words@.len() == unswapped.len(),
                i <= words@.len(),
                forall|j: int| 0 <= j < i ==> words@[j] == spec_swap_bytes(unswapped[j]),
                forall|j: int| i <= j < words@.len() ==> words@[j] == unswapped[j],
            decreases words@.len() - i,
        {
            let w = words[i];
            words.set(i, swap_word_bytes(w));
            i = i + 1;
        }
        assert(words@ =~= unswapped.map_values(|w: u32| spec_swap_bytes(w)));
    }

    if words.len() > 0 && words[0] == SPIRV_MAGIC {
        Ok(words)
    } else {
        Err(Error::InvalidSpirv)
    }
}

/// Law: round trip of shader-binary validation. A word stream opening with
/// the magic number is accepted from its little-endian bytes unchanged, and
/// from the byte-swapped form of those bytes after internal correction, both
/// times with identical words (and so identical word counts); a stream whose
/// byte length is not a multiple of four, or whose leading word is not the
/// magic number in either byte order, is rejected.
pub proof fn lemma_spirv_round_trip(words: Seq<u32>)
    requires
        words.len() > 0,
        words[0] == SPIRV_MAGIC,
    ensures
        spec_decode(spec_le_bytes(words)) == Some(words),
        spec_decode(spec_le_bytes(words.map_values(|w: u32| spec_swap_bytes(w)))) == Some(words),
{
    let bytes = spec_le_bytes(words);
    lemma_words_of_le_bytes(words);
    assert(spec_swap_bytes(SPIRV_MAGIC) != SPIRV_MAGIC);
    assert(spec_decode(bytes) == Some(words));

    let swapped = words.map_values(|w: u32| spec_swap_bytes(w));
    let sbytes = spec_le_bytes(swapped);
    lemma_words_of_le_bytes(swapped);
    assert(spec_words(sbytes) == swapped);
    assert(swapped[0] == spec_swap_bytes(SPIRV_MAGIC));
    let fixed = swapped.map_values(|w: u32| spec_swap_bytes(w));
    assert forall|j: int| 0 <= j < fixed.len() implies fixed[j] == words[j] by {
        lemma_swap_bytes_involution(words[j]);
    }
    assert(fixed =~= words);
    assert(spec_decode(sbytes) == Some(words));
}

/// Law: a stream whose byte length is not a multiple of four is rejected.
pub proof fn lemma_spirv_rejects_misaligned(bytes: Seq<u8>)
    requires
        bytes.len() % 4 != 0,
    ensures
        spec_decode(bytes) is None,
{
}

/// Law: an empty stream, or one whose leading word is not the magic number in
/// either byte order, is rejected.
pub proof fn lemma_spirv_rejects_bad_magic(bytes: Seq<u8>)
    requires
        bytes.len() % 4 == 0,
        bytes.len() == 0 || (spec_words(bytes)[0] != SPIRV_MAGIC && spec_words(bytes)[0]
            != spec_swap_bytes(SPIRV_MAGIC)),
    ensures
        spec_decode(bytes) is None,
{
}

/// Disassembling the little-endian bytes of a word stream gives the words
/// back.
pub proof fn lemma_words_of_le_bytes(words: Seq<u32>)
    ensures
        spec_le_bytes(words).len() == words.len() * 4,
        spec_le_bytes(words).len() % 4 == 0,
        spec_words(spec_le_bytes(words)) == words,
{
    let bytes = spec_le_bytes(words);
    assert(bytes.len() == words.len() * 4);
    assert(words.len() * 4 % 4 == 0) by (nonlinear_arith);
    assert(bytes.len() / 4 == words.len()) by (nonlinear_arith)
        requires
            bytes.len() == words.len() * 4,
    ;
    assert forall|k: int| 0 <= k < words.len() implies spec_words(bytes)[k] == words[k] by {
        assert(4 * k / 4 == k && 4 * k % 4 == 0) by (nonlinear_arith);
        assert((4 * k + 1) / 4 == k && (4 * k + 1) % 4 == 1) by (nonlinear_arith);
        assert((4 * k + 2) / 4 == k && (4 * k + 2) % 4 == 2) by (nonlinear_arith);
        assert((4 * k + 3) / 4 == k && (4 * k + 3) % 4 == 3) by (nonlinear_arith);
        assert(bytes[4 * k] == spec_word_byte(words[k], 0));
        assert(bytes[4 * k + 1] == spec_word_byte(words[k], 1));
        assert(bytes[4 * k + 2] == spec_word_byte(words[k], 2));
        assert(bytes[4 * k + 3] == spec_word_byte(words[k], 3));
        lemma_word_of_bytes(words[k]);
    }
    assert(spec_words(bytes) =~= words);
}

} // verus!

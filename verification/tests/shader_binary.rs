//! Shader binary validation: the round trip and the rejections.

use duku::error::Error;
use duku::spirv::SPIRV_MAGIC;
use duku::spirv::decode_spirv;
use duku::spirv::swap_word_bytes;

fn le_bytes(words: &[u32]) -> Vec<u8> {
    let mut out = Vec::new();
    for w in words {
        out.extend_from_slice(&w.to_le_bytes());
    }
    out
}

#[test]
fn valid_stream_is_accepted() {
    let words = [SPIRV_MAGIC, 0x0001_0000, 42, 7];
    let decoded = decode_spirv(&le_bytes(&words)).unwrap();
    assert_eq!(decoded, words.to_vec());
}

#[test]
fn byte_swapped_stream_is_corrected() {
    let words = [SPIRV_MAGIC, 0x0001_0000, 42, 7];
    let straight = decode_spirv(&le_bytes(&words)).unwrap();

    let swapped: Vec<u32> = words.iter().map(|w| w.swap_bytes()).collect();
    let corrected = decode_spirv(&le_bytes(&swapped)).unwrap();

    // accepted after internal correction, with identical word count and words
    assert_eq!(corrected.len(), straight.len());
    assert_eq!(corrected, straight);
}

#[test]
fn length_not_divisible_by_four_is_rejected() {
    let mut bytes = le_bytes(&[SPIRV_MAGIC, 1]);
    bytes.push(0);
    assert_eq!(decode_spirv(&bytes), Err(Error::InvalidSpirv));
}

#[test]
fn unrecognized_magic_is_rejected_after_swap_attempt() {
    let bytes = le_bytes(&[0xdead_beef, 1, 2]);
    assert_eq!(decode_spirv(&bytes), Err(Error::InvalidSpirv));
}

#[test]
fn empty_stream_is_rejected() {
    assert_eq!(decode_spirv(&[]), Err(Error::InvalidSpirv));
}

#[test]
fn swap_word_bytes_matches_std() {
    for w in [0u32, 1, SPIRV_MAGIC, 0xdead_beef, u32::MAX, 0x0102_0304] {
        assert_eq!(swap_word_bytes(w), w.swap_bytes());
    }
}

//! Channel order: RGBA pose pixels and the ARGB8888 words the compositor reads.
//!
//! An ARGB8888 pixel is one 32-bit word, alpha in the top byte and blue in the
//! bottom one, stored little-endian: in memory its bytes run B, G, R, A.

use vstd::prelude::*;

verus! {

/// The length of the whole pixels in `len` bytes.
pub open spec fn whole_pixel_bytes(len: nat) -> nat {
    ((len / 4) * 4) as nat
}

/// The index that trades places with `i` when red and blue are swapped.
pub open spec fn swap_red_blue(i: int) -> int {
    if i % 4 == 0 {
        i + 2
    } else if i % 4 == 2 {
        i - 2
    } else {
        i
    }
}

/// The memory bytes of the ARGB8888 pixels that show the given RGBA pixels.
/// A trailing partial pixel is left out.
pub open spec fn argb8888_bytes(rgba: Seq<u8>) -> Seq<u8> {
    Seq::new(whole_pixel_bytes(rgba.len()), |i: int| rgba[swap_red_blue(i)])
}

/// The 32-bit word stored little-endian in four bytes.
pub open spec fn le_word(b0: u8, b1: u8, b2: u8, b3: u8) -> u32 {
    (b0 as u32) | ((b1 as u32) << 8) | ((b2 as u32) << 16) | ((b3 as u32) << 24)
}

/// The word of pixel `p` in a buffer of ARGB8888 pixels.
pub open spec fn word_at(bytes: Seq<u8>, p: int) -> u32 {
    le_word(bytes[4 * p], bytes[4 * p + 1], bytes[4 * p + 2], bytes[4 * p + 3])
}

/// The four channels of an ARGB8888 word, top byte to bottom byte.
pub open spec fn alpha_of(word: u32) -> u8 {
    (word >> 24) as u8
}

pub open spec fn red_of(word: u32) -> u8 {
    ((word >> 16) & 0xff) as u8
}

pub open spec fn green_of(word: u32) -> u8 {
    ((word >> 8) & 0xff) as u8
}

pub open spec fn blue_of(word: u32) -> u8 {
    (word & 0xff) as u8
}

/// Channel `c` (0 red, 1 green, 2 blue, 3 alpha) of an ARGB8888 word.
pub open spec fn channel_of(word: u32, c: int) -> u8 {
    if c == 0 {
        red_of(word)
    } else if c == 1 {
        green_of(word)
    } else if c == 2 {
        blue_of(word)
    } else {
        alpha_of(word)
    }
}

/// The RGBA pixels read out of a buffer of ARGB8888 words.
/// A trailing partial word is left out.
pub open spec fn rgba_bytes(argb: Seq<u8>) -> Seq<u8> {
    Seq::new(whole_pixel_bytes(argb.len()), |i: int| channel_of(word_at(argb, i / 4), i % 4))
}

/// A word put together from its bytes B, G, R, A holds each channel in its
/// place.
proof fn lemma_word_channels(b: u8, g: u8, r: u8, a: u8)
    ensures
        red_of(le_word(b, g, r, a)) == r,
        green_of(le_word(b, g, r, a)) == g,
        blue_of(le_word(b, g, r, a)) == b,
        alpha_of(le_word(b, g, r, a)) == a,
{
    assert((((b as u32) | ((g as u32) << 8) | ((r as u32) << 16) | ((a as u32) << 24)) >> 16)
        & 0xff == r as u32) by (bit_vector);
    assert((((b as u32) | ((g as u32) << 8) | ((r as u32) << 16) | ((a as u32) << 24)) >> 8)
        & 0xff == g as u32) by (bit_vector);
    assert(((b as u32) | ((g as u32) << 8) | ((r as u32) << 16) | ((a as u32) << 24)) & 0xff
        == b as u32) by (bit_vector);
    assert(((b as u32) | ((g as u32) << 8) | ((r as u32) << 16) | ((a as u32) << 24)) >> 24
        == a as u32) by (bit_vector);
}

/// Writing RGBA pixels as ARGB8888 and reading the words back gives, for
/// every whole pixel, the red, green, blue and alpha that went in.
pub proof fn lemma_argb8888_round_trip(rgba: Seq<u8>)
    ensures
        rgba_bytes(argb8888_bytes(rgba)) == rgba.take(whole_pixel_bytes(rgba.len()) as int),
{
    let whole = whole_pixel_bytes(rgba.len());
    let argb = argb8888_bytes(rgba);
    let back = rgba_bytes(argb);
    assert(whole_pixel_bytes(whole) == whole);
    assert forall|i: int| 0 <= i < whole implies back[i] == rgba[i] by {
        let p = i / 4;
        assert(4 * p + 3 < whole);
        lemma_word_channels(rgba[4 * p + 2], rgba[4 * p + 1], rgba[4 * p], rgba[4 * p + 3]);
        assert(argb[4 * p] == rgba[4 * p + 2]);
        assert(argb[4 * p + 1] == rgba[4 * p + 1]);
        assert(argb[4 * p + 2] == rgba[4 * p]);
        assert(argb[4 * p + 3] == rgba[4 * p + 3]);
    }
    assert(back =~= rgba.take(whole as int));
}

/// Reorders RGBA pixels into the bytes of ARGB8888 pixels.
pub fn encode_argb8888(rgba: &Vec<u8>) -> (argb: Vec<u8>)
    ensures
        argb@ == argb8888_bytes(rgba@),
{
    let pixels: usize = rgba.len() / 4;
    let mut argb: Vec<u8> = Vec::new();
    let mut p: usize = 0;
    while p < pixels
        invariant
            pixels == rgba.len() / 4,
            p <= pixels,
            argb.len() == 4 * p,
            forall|i: int| 0 <= i < 4 * p ==> argb[i] == rgba[swap_red_blue(i)],
        decreases pixels - p,
    {
        let base: usize = p * 4;
        argb.push(rgba[base + 2]);
        argb.push(rgba[base + 1]);
        argb.push(rgba[base]);
        argb.push(rgba[base + 3]);
        p = p + 1;
    }
    assert(argb@ =~= argb8888_bytes(rgba@));
    argb
}

/// Reads the RGBA pixels out of the bytes of ARGB8888 pixels.
pub fn decode_argb8888(argb: &Vec<u8>) -> (rgba: Vec<u8>)
    ensures
        rgba@ == rgba_bytes(argb@),
{
    let pixels: usize = argb.len() / 4;
    let mut rgba: Vec<u8> = Vec::new();
    let mut p: usize = 0;
    while p < pixels
        invariant
            pixels == argb.len() / 4,
            p <= pixels,
            rgba.len() == 4 * p,
            forall|i: int| 0 <= i < 4 * p ==> rgba[i] == channel_of(word_at(argb@, i / 4), i % 4),
        decreases pixels - p,
    {
        let base: usize = p * 4;
        let word: u32 = (argb[base] as u32) | ((argb[base + 1] as u32) << 8) | ((argb[base + 2] as u32)
            << 16) | ((argb[base + 3] as u32) << 24);
        assert(word == word_at(argb@, p as int));
        let red: u8 = ((word >> 16) & 0xff) as u8;
        let green: u8 = ((word >> 8) & 0xff) as u8;
        let blue: u8 = (word & 0xff) as u8;
        let alpha: u8 = (word >> 24) as u8;
        rgba.push(red);
        rgba.push(green);
        rgba.push(blue);
        rgba.push(alpha);
        p = p + 1;
    }
    assert(rgba@ =~= rgba_bytes(argb@));
    rgba
}

} // verus!

//! v210 layout helpers.
//!
//! v210 packs 6 pixels of 10-bit 4:2:2 YCbCr into 4 little-endian 32-bit words.
//! Each word holds three 10-bit fields plus 2 padding bits:
//!
//! ```text
//! word 0:  Cb0 | Y0 | Cr0
//! word 1:  Y1  | Cb2 | Y2
//! word 2:  Cr2 | Y3 | Cb4
//! word 3:  Y4  | Cr4 | Y5
//! ```
use vstd::prelude::*;
use vstd::arithmetic::div_mod::lemma_fundamental_div_mod_converse;

verus! {

/// Number of 48-pixel blocks needed to cover `width` pixels.
pub open spec fn blocks48(width: int) -> int {
    (width + 47) / 48
}

/// Bytes per v210 row as a mathematical integer.
pub open spec fn spec_stride(width: int) -> int {
    blocks48(width) * 128
}

/// Proxy texture width as a mathematical integer.
pub open spec fn spec_proxy_width(width: int) -> int {
    blocks48(width) * 32
}

fn div_ceil_48(width: u32) -> (r: u32)
    ensures
        r == blocks48(width as int),
{
    width / 48 + if width % 48 != 0 { 1 } else { 0 }
}

/// Bytes per v210 row. 48 pixels occupy 128 bytes (32 words).
pub fn stride(width: u32) -> (r: usize)
    requires
        spec_stride(width as int) <= u32::MAX,
    ensures
        r == spec_stride(width as int),
{
    let b = div_ceil_48(width);
    (b * 128) as usize
}

/// Proxy texture width when the same bytes are reinterpreted as `RGB10A2_LE`.
pub fn proxy_width(width: u32) -> (r: u32)
    ensures
        r == spec_proxy_width(width as int),
{
    div_ceil_48(width) * 32
}


/// A proxy texel is four bytes, so a proxy row covers exactly one v210 row.
pub proof fn lemma_proxy_bytes_match_stride(width: int)
    ensures
        spec_proxy_width(width) * 4 == spec_stride(width),
{
}

/// The 10-bit field of `word` that starts at bit `shift`.
pub open spec fn spec_field(word: u32, shift: u32) -> u16 {
    ((word >> shift) & 0x3ff) as u16
}

/// The word whose three 10-bit fields, from the low bits up, are the low ten
/// bits of `a`, `b` and `c`, and whose two top bits are zero.
pub open spec fn spec_pack_word(a: u16, b: u16, c: u16) -> u32 {
    (a as u32 & 0x3ff) | ((b as u32 & 0x3ff) << 10) | ((c as u32 & 0x3ff) << 20)
}

/// The low ten bits of a sample.
pub open spec fn ten_bits(v: u16) -> u16 {
    v & 0x3ff
}

/// Extract one 10-bit field from a packed word (`shift` is 0, 10, or 20).
pub fn field(word: u32, shift: u32) -> (r: u16)
    requires
        shift < 32,
    ensures
        r == spec_field(word, shift),
        r < 1024,
{
    assert(((word >> shift) & 0x3ff) < 1024) by (bit_vector);
    ((word >> shift) & 0x3ff) as u16
}

/// Pack three 10-bit fields into one word. Padding bits are written as zero.
pub fn pack_word(a: u16, b: u16, c: u16) -> (r: u32)
    ensures
        r == spec_pack_word(a, b, c),
        spec_field(r, 0) == ten_bits(a),
        spec_field(r, 10) == ten_bits(b),
        spec_field(r, 20) == ten_bits(c),
        r & 0xC000_0000 == 0,
{
    proof {
        lemma_fields_of_packed_word(a, b, c);
    }
    (a as u32 & 0x3ff) | ((b as u32 & 0x3ff) << 10) | ((c as u32 & 0x3ff) << 20)
}

/// Reading the three fields back out of a packed word gives the low ten bits
/// of what was packed, and the padding bits are zero.
pub proof fn lemma_fields_of_packed_word(a: u16, b: u16, c: u16)
    ensures
        spec_field(spec_pack_word(a, b, c), 0) == ten_bits(a),
        spec_field(spec_pack_word(a, b, c), 10) == ten_bits(b),
        spec_field(spec_pack_word(a, b, c), 20) == ten_bits(c),
        spec_pack_word(a, b, c) & 0xC000_0000 == 0,
{
    assert(((((a as u32 & 0x3ff) | ((b as u32 & 0x3ff) << 10) | ((c as u32 & 0x3ff) << 20)) >> 0u32)
        & 0x3ff) as u16 == a & 0x3ff) by (bit_vector);
    assert(((((a as u32 & 0x3ff) | ((b as u32 & 0x3ff) << 10) | ((c as u32 & 0x3ff) << 20)) >> 10u32)
        & 0x3ff) as u16 == b & 0x3ff) by (bit_vector);
    assert(((((a as u32 & 0x3ff) | ((b as u32 & 0x3ff) << 10) | ((c as u32 & 0x3ff) << 20)) >> 20u32)
        & 0x3ff) as u16 == c & 0x3ff) by (bit_vector);
    assert(((a as u32 & 0x3ff) | ((b as u32 & 0x3ff) << 10) | ((c as u32 & 0x3ff) << 20))
        & 0xC000_0000 == 0) by (bit_vector);
}

/// Packing the three fields of a word gives the word back with its two
/// padding bits cleared.
pub proof fn lemma_packed_word_of_fields(w: u32)
    ensures
        spec_pack_word(spec_field(w, 0), spec_field(w, 10), spec_field(w, 20)) == w & 0x3fff_ffff,
{
    assert((((((w >> 0u32) & 0x3ff) as u16) as u32 & 0x3ff) | (((((w >> 10u32) & 0x3ff) as u16)
        as u32 & 0x3ff) << 10) | (((((w >> 20u32) & 0x3ff) as u16) as u32 & 0x3ff) << 20))
        == w & 0x3fff_ffff) by (bit_vector);
}


/// One 4:2:2 pixel as 10-bit Y, Cb, Cr.
#[derive(Debug, Clone, Copy, PartialEq, Eq, Structural)]
pub struct Ycbcr {
    pub y: u16,
    pub cb: u16,
    pub cr: u16,
}

/// The six pixels that four v210 words describe, following the word layout
/// in the module documentation. Odd pixels share the chroma of the even pixel
/// before them.
pub open spec fn spec_unpack_group(w: Seq<u32>) -> Seq<Ycbcr> {
    seq![
        Ycbcr { y: spec_field(w[0], 10), cb: spec_field(w[0], 0), cr: spec_field(w[0], 20) },
        Ycbcr { y: spec_field(w[1], 0), cb: spec_field(w[0], 0), cr: spec_field(w[0], 20) },
        Ycbcr { y: spec_field(w[1], 20), cb: spec_field(w[1], 10), cr: spec_field(w[2], 0) },
        Ycbcr { y: spec_field(w[2], 10), cb: spec_field(w[1], 10), cr: spec_field(w[2], 0) },
        Ycbcr { y: spec_field(w[3], 0), cb: spec_field(w[2], 20), cr: spec_field(w[3], 10) },
        Ycbcr { y: spec_field(w[3], 20), cb: spec_field(w[2], 20), cr: spec_field(w[3], 10) },
    ]
}

/// The four v210 words for six pixels, following the word layout in the
/// module documentation. The chroma of odd pixels is not stored.
pub open spec fn spec_pack_group(p: Seq<Ycbcr>) -> Seq<u32> {
    seq![
        spec_pack_word(p[0].cb, p[0].y, p[0].cr),
        spec_pack_word(p[1].y, p[2].cb, p[2].y),
        spec_pack_word(p[2].cr, p[3].y, p[4].cb),
        spec_pack_word(p[4].y, p[4].cr, p[5].y),
    ]
}

/// Pixel `j` of a group after a 4:2:2 round trip: its own luma, the chroma of
/// the even pixel of its pair, each cut to ten bits.
pub open spec fn spec_shared_chroma(p: Seq<Ycbcr>, j: int) -> Ycbcr {
    Ycbcr {
        y: ten_bits(p[j].y),
        cb: ten_bits(p[j - j % 2].cb),
        cr: ten_bits(p[j - j % 2].cr),
    }
}

/// Unpack six pixels from four v210 words. Padding bits are ignored.
pub fn unpack_group(words: [u32; 4]) -> (r: [Ycbcr; 6])
    ensures
        r@ == spec_unpack_group(words@),
{
    let cb0 = field(words[0], 0);
    let y0 = field(words[0], 10);
    let cr0 = field(words[0], 20);

    let y1 = field(words[1], 0);
    let cb2 = field(words[1], 10);
    let y2 = field(words[1], 20);

    let cr2 = field(words[2], 0);
    let y3 = field(words[2], 10);
    let cb4 = field(words[2], 20);

    let y4 = field(words[3], 0);
    let cr4 = field(words[3], 10);
    let y5 = field(words[3], 20);

    let r = [
        Ycbcr { y: y0, cb: cb0, cr: cr0 },
        Ycbcr { y: y1, cb: cb0, cr: cr0 },
        Ycbcr { y: y2, cb: cb2, cr: cr2 },
        Ycbcr { y: y3, cb: cb2, cr: cr2 },
        Ycbcr { y: y4, cb: cb4, cr: cr4 },
        Ycbcr { y: y5, cb: cb4, cr: cr4 },
    ];
    assert(r@ =~= spec_unpack_group(words@));
    r
}

/// Pack six pixels into four v210 words. Padding bits are zero.
pub fn pack_group(pixels: [Ycbcr; 6]) -> (r: [u32; 4])
    ensures
        r@ == spec_pack_group(pixels@),
{
    let r = [
        pack_word(pixels[0].cb, pixels[0].y, pixels[0].cr),
        pack_word(pixels[1].y, pixels[2].cb, pixels[2].y),
        pack_word(pixels[2].cr, pixels[3].y, pixels[4].cb),
        pack_word(pixels[4].y, pixels[4].cr, pixels[5].y),
    ];
    assert(r@ =~= spec_pack_group(pixels@));
    r
}

/// Unpacking what was packed gives every pixel its own luma and the chroma of
/// the even pixel of its pair, cut to ten bits.
pub proof fn lemma_group_roundtrip(p: Seq<Ycbcr>)
    requires
        p.len() == 6,
    ensures
        spec_unpack_group(spec_pack_group(p)).len() == 6,
        forall|j: int| 0 <= j < 6 ==> #[trigger] spec_unpack_group(spec_pack_group(p))[j]
            == spec_shared_chroma(p, j),
{
    lemma_fields_of_packed_word(p[0].cb, p[0].y, p[0].cr);
    lemma_fields_of_packed_word(p[1].y, p[2].cb, p[2].y);
    lemma_fields_of_packed_word(p[2].cr, p[3].y, p[4].cb);
    lemma_fields_of_packed_word(p[4].y, p[4].cr, p[5].y);
}

/// Packing what was unpacked gives the words back with their padding bits
/// cleared.
pub proof fn lemma_group_repack(w: Seq<u32>)
    requires
        w.len() == 4,
    ensures
        spec_pack_group(spec_unpack_group(w)).len() == 4,
        forall|i: int| 0 <= i < 4 ==> #[trigger] spec_pack_group(spec_unpack_group(w))[i]
            == w[i] & 0x3fff_ffff,
{
    lemma_packed_word_of_fields(w[0]);
    lemma_packed_word_of_fields(w[1]);
    lemma_packed_word_of_fields(w[2]);
    lemma_packed_word_of_fields(w[3]);
}

/// The two padding bits of each word play no part in unpacking.
pub proof fn lemma_unpack_ignores_padding(w1: Seq<u32>, w2: Seq<u32>)
    requires
        w1.len() == 4,
        w2.len() == 4,
        forall|i: int| 0 <= i < 4 ==> #[trigger] (w1[i] & 0x3fff_ffff) == w2[i] & 0x3fff_ffff,
    ensures
        spec_unpack_group(w1) == spec_unpack_group(w2),
{
    assert forall|a: u32, b: u32, s: u32|
        (a & 0x3fff_ffff) == b & 0x3fff_ffff && (s == 0 || s == 10 || s == 20) implies
        #[trigger] spec_field(a, s) == #[trigger] spec_field(b, s) by {
        assert((a & 0x3fff_ffff) == b & 0x3fff_ffff && (s == 0 || s == 10 || s == 20) ==>
            ((a >> s) & 0x3ff) as u16 == ((b >> s) & 0x3ff) as u16) by (bit_vector);
    }
    assert(w1[0] & 0x3fff_ffff == w2[0] & 0x3fff_ffff);
    assert(w1[1] & 0x3fff_ffff == w2[1] & 0x3fff_ffff);
    assert(w1[2] & 0x3fff_ffff == w2[2] & 0x3fff_ffff);
    assert(w1[3] & 0x3fff_ffff == w2[3] & 0x3fff_ffff);
    assert(spec_unpack_group(w1) =~= spec_unpack_group(w2));
}

/// Every packed word has its two padding bits clear.
pub proof fn lemma_pack_group_zero_padding(p: Seq<Ycbcr>)
    requires
        p.len() == 6,
    ensures
        forall|i: int| 0 <= i < 4 ==> #[trigger] spec_pack_group(p)[i] & 0xC000_0000 == 0,
{
    lemma_fields_of_packed_word(p[0].cb, p[0].y, p[0].cr);
    lemma_fields_of_packed_word(p[1].y, p[2].cb, p[2].y);
    lemma_fields_of_packed_word(p[2].cr, p[3].y, p[4].cb);
    lemma_fields_of_packed_word(p[4].y, p[4].cr, p[5].y);
}

/// Unpacking reads each sample from the field the v210 word layout names for
/// it (bits 0-9, 10-19 and 20-29 of each word):
///
/// ```text
/// word 0:  Cb0 | Y0 | Cr0
/// word 1:  Y1  | Cb2 | Y2
/// word 2:  Cr2 | Y3 | Cb4
/// word 3:  Y4  | Cr4 | Y5
/// ```
///
/// and each odd pixel takes the chroma of the even pixel before it.
pub proof fn lemma_unpack_group_layout(w: Seq<u32>)
    requires
        w.len() == 4,
    ensures
        spec_unpack_group(w).len() == 6,
        spec_unpack_group(w)[0].cb == (w[0] & 0x3ff) as u16,
        spec_unpack_group(w)[0].y == ((w[0] >> 10u32) & 0x3ff) as u16,
        spec_unpack_group(w)[0].cr == ((w[0] >> 20u32) & 0x3ff) as u16,
        spec_unpack_group(w)[1].y == (w[1] & 0x3ff) as u16,
        spec_unpack_group(w)[2].cb == ((w[1] >> 10u32) & 0x3ff) as u16,
        spec_unpack_group(w)[2].y == ((w[1] >> 20u32) & 0x3ff) as u16,
        spec_unpack_group(w)[2].cr == (w[2] & 0x3ff) as u16,
        spec_unpack_group(w)[3].y == ((w[2] >> 10u32) & 0x3ff) as u16,
        spec_unpack_group(w)[4].cb == ((w[2] >> 20u32) & 0x3ff) as u16,
        spec_unpack_group(w)[4].y == (w[3] & 0x3ff) as u16,
        spec_unpack_group(w)[4].cr == ((w[3] >> 10u32) & 0x3ff) as u16,
        spec_unpack_group(w)[5].y == ((w[3] >> 20u32) & 0x3ff) as u16,
        forall|j: int|
            0 <= j < 3 ==> {
                &&& (#[trigger] spec_unpack_group(w)[2 * j + 1]).cb == spec_unpack_group(w)[2 * j].cb
                &&& spec_unpack_group(w)[2 * j + 1].cr == spec_unpack_group(w)[2 * j].cr
            },
{
    assert(forall|x: u32| #[trigger] (x >> 0u32) == x) by (bit_vector);
    let u = spec_unpack_group(w);
    assert(u[0].cb == spec_field(w[0], 0));
    assert(u[1].y == spec_field(w[1], 0));
    assert(u[2].cr == spec_field(w[2], 0));
    assert(u[4].y == spec_field(w[3], 0));
    assert forall|j: int| 0 <= j < 3 implies {
        &&& (#[trigger] u[2 * j + 1]).cb == u[2 * j].cb
        &&& u[2 * j + 1].cr == u[2 * j].cr
    } by {
        if j == 0 {
        } else if j == 1 {
        } else {
        }
    }
}

proof fn lemma_packed_word_bits(a: u16, b: u16, c: u16)
    ensures
        spec_pack_word(a, b, c) & 0x3ff == (a & 0x3ff) as u32,
        (spec_pack_word(a, b, c) >> 10u32) & 0x3ff == (b & 0x3ff) as u32,
        (spec_pack_word(a, b, c) >> 20u32) & 0x3ff == (c & 0x3ff) as u32,
        spec_pack_word(a, b, c) >> 30u32 == 0,
{
    assert(((a as u32 & 0x3ff) | ((b as u32 & 0x3ff) << 10) | ((c as u32 & 0x3ff) << 20)) & 0x3ff
        == (a & 0x3ff) as u32) by (bit_vector);
    assert((((a as u32 & 0x3ff) | ((b as u32 & 0x3ff) << 10) | ((c as u32 & 0x3ff) << 20)) >> 10u32)
        & 0x3ff == (b & 0x3ff) as u32) by (bit_vector);
    assert((((a as u32 & 0x3ff) | ((b as u32 & 0x3ff) << 10) | ((c as u32 & 0x3ff) << 20)) >> 20u32)
        & 0x3ff == (c & 0x3ff) as u32) by (bit_vector);
    assert(((a as u32 & 0x3ff) | ((b as u32 & 0x3ff) << 10) | ((c as u32 & 0x3ff) << 20)) >> 30u32
        == 0) by (bit_vector);
}

/// Packing writes each sample's low ten bits into the field the v210 word
/// layout names for it (see [`lemma_unpack_group_layout`]); the chroma of odd
/// pixels is not written, and the two top bits of every word are zero.
pub proof fn lemma_pack_group_layout(p: Seq<Ycbcr>)
    requires
        p.len() == 6,
    ensures
        spec_pack_group(p).len() == 4,
        spec_pack_group(p)[0] & 0x3ff == (p[0].cb & 0x3ff) as u32,
        (spec_pack_group(p)[0] >> 10u32) & 0x3ff == (p[0].y & 0x3ff) as u32,
        (spec_pack_group(p)[0] >> 20u32) & 0x3ff == (p[0].cr & 0x3ff) as u32,
        spec_pack_group(p)[1] & 0x3ff == (p[1].y & 0x3ff) as u32,
        (spec_pack_group(p)[1] >> 10u32) & 0x3ff == (p[2].cb & 0x3ff) as u32,
        (spec_pack_group(p)[1] >> 20u32) & 0x3ff == (p[2].y & 0x3ff) as u32,
        spec_pack_group(p)[2] & 0x3ff == (p[2].cr & 0x3ff) as u32,
        (spec_pack_group(p)[2] >> 10u32) & 0x3ff == (p[3].y & 0x3ff) as u32,
        (spec_pack_group(p)[2] >> 20u32) & 0x3ff == (p[4].cb & 0x3ff) as u32,
        spec_pack_group(p)[3] & 0x3ff == (p[4].y & 0x3ff) as u32,
        (spec_pack_group(p)[3] >> 10u32) & 0x3ff == (p[4].cr & 0x3ff) as u32,
        (spec_pack_group(p)[3] >> 20u32) & 0x3ff == (p[5].y & 0x3ff) as u32,
        forall|i: int| 0 <= i < 4 ==> #[trigger] spec_pack_group(p)[i] >> 30u32 == 0,
{
    lemma_packed_word_bits(p[0].cb, p[0].y, p[0].cr);
    lemma_packed_word_bits(p[1].y, p[2].cb, p[2].y);
    lemma_packed_word_bits(p[2].cr, p[3].y, p[4].cb);
    lemma_packed_word_bits(p[4].y, p[4].cr, p[5].y);
}


/// Frame size in bytes of a packed v210 image, as a mathematical integer.
pub open spec fn spec_frame_size(width: int, height: int) -> int {
    spec_stride(width) * height
}

/// Frame size in bytes for a packed v210 image.
pub fn frame_size(width: u32, height: u32) -> (r: usize)
    requires
        spec_stride(width as int) <= u32::MAX,
        spec_frame_size(width as int, height as int) <= usize::MAX,
    ensures
        r == spec_frame_size(width as int, height as int),
{
    stride(width) * height as usize
}

/// Number of six-pixel groups needed to cover `width` pixels.
pub open spec fn groups6(width: int) -> int {
    (width + 5) / 6
}

/// The little-endian 32-bit word stored in bytes `off .. off + 4` of `b`.
pub open spec fn le_word(b: Seq<u8>, off: int) -> u32 {
    (b[off] as u32) | ((b[off + 1] as u32) << 8) | ((b[off + 2] as u32) << 16) | ((b[off + 3]
        as u32) << 24)
}

/// Byte `k` (0 to 3) of the little-endian encoding of `w`.
pub open spec fn le_byte(w: u32, k: int) -> u8 {
    if k == 0 {
        (w & 0xff) as u8
    } else if k == 1 {
        ((w >> 8) & 0xff) as u8
    } else if k == 2 {
        ((w >> 16) & 0xff) as u8
    } else {
        ((w >> 24) & 0xff) as u8
    }
}

/// The four words of six-pixel group `g` on row `row` of a frame whose rows
/// are `stride` bytes apart.
pub open spec fn group_words(src: Seq<u8>, stride: int, row: int, g: int) -> Seq<u32> {
    Seq::new(4, |i: int| le_word(src, row * stride + 16 * g + 4 * i))
}

/// Pixel `x` of row `row` of a v210 frame of the given width.
pub open spec fn frame_pixel(src: Seq<u8>, width: int, row: int, x: int) -> Ycbcr {
    spec_unpack_group(group_words(src, spec_stride(width), row, x / 6))[x % 6]
}

/// The pixel at position `idx` of the planes of a frame of the given width,
/// counting row by row.
pub open spec fn plane_pixel(src: Seq<u8>, width: int, idx: int) -> Ycbcr {
    frame_pixel(src, width, idx / width, idx % width)
}

/// How many bytes unpacking a frame reads: every row up to the last, and of
/// the last row the groups that cover its pixels.
pub open spec fn unpack_bytes_needed(width: int, height: int) -> int {
    if width == 0 || height == 0 {
        0
    } else {
        (height - 1) * spec_stride(width) + 16 * groups6(width)
    }
}

fn read_le_word(src: &[u8], off: usize) -> (r: u32)
    requires
        off + 4 <= src@.len(),
    ensures
        r == le_word(src@, off as int),
{
    (src[off] as u32) | ((src[off + 1] as u32) << 8) | ((src[off + 2] as u32) << 16) | ((src[off
        + 3] as u32) << 24)
}

fn groups_for(width: u32) -> (r: u32)
    ensures
        r == groups6(width as int),
{
    width / 6 + if width % 6 != 0 { 1 } else { 0 }
}

proof fn lemma_row_index(row: int, width: int, x: int, height: int)
    requires
        0 <= row < height,
        0 <= x < width,
    ensures
        row * width + x < height * width,
        row * width + x < width * height,
        (row * width + x) / width == row,
        (row * width + x) % width == x,
        row * width + width == (row + 1) * width,
{
    assert(row * width + x < height * width) by (nonlinear_arith)
        requires
            0 <= row < height,
            0 <= x < width,
    ;
    assert(row * width + width == (row + 1) * width) by (nonlinear_arith);
    assert(height * width == width * height) by (nonlinear_arith);
    lemma_fundamental_div_mod_converse(row * width + x, width, row, x);
}

proof fn lemma_mul_le(a: int, b: int, c: int)
    requires
        0 <= a <= b,
        0 <= c,
    ensures
        a * c <= b * c,
{
    assert(a * c <= b * c) by (nonlinear_arith)
        requires
            0 <= a <= b,
            0 <= c,
    ;
}

/// Unpack a whole v210 frame into tightly packed Y, Cb, Cr planes (`width * height` each).
pub fn unpack_frame(src: &[u8], width: u32, height: u32) -> (r: (Vec<u16>, Vec<u16>, Vec<u16>))
    requires
        spec_stride(width as int) <= u32::MAX,
        width * height <= u32::MAX,
        src@.len() >= unpack_bytes_needed(width as int, height as int),
    ensures
        r.0@.len() == width * height,
        r.1@.len() == width * height,
        r.2@.len() == width * height,
        forall|idx: int|
            0 <= idx < width * height ==> #[trigger] r.0@[idx] == plane_pixel(
                src@,
                width as int,
                idx,
            ).y,
        forall|idx: int|
            0 <= idx < width * height ==> #[trigger] r.1@[idx] == plane_pixel(
                src@,
                width as int,
                idx,
            ).cb,
        forall|idx: int|
            0 <= idx < width * height ==> #[trigger] r.2@[idx] == plane_pixel(
                src@,
                width as int,
                idx,
            ).cr,
{
    let stride = stride(width);
    let n = (width * height) as usize;
    let mut y = vec![0u16; n];
    let mut cb = vec![0u16; n];
    let mut cr = vec![0u16; n];
    let w = width as usize;
    let h = height as usize;
    let groups = groups_for(width) as usize;
    let ghost s = src@;
    let len = src.len();

    let mut row: usize = 0;
    while row < h
        invariant
            0 <= row <= h,
            w == width,
            h == height,
            stride == spec_stride(w as int),
            groups == groups6(w as int),
            n == w * h,
            s == src@,
            len == src@.len(),
            src@.len() >= unpack_bytes_needed(w as int, h as int),
            y@.len() == n,
            cb@.len() == n,
            cr@.len() == n,
            forall|idx: int|
                0 <= idx < row * w ==> #[trigger] y@[idx] == plane_pixel(s, w as int, idx).y,
            forall|idx: int|
                0 <= idx < row * w ==> #[trigger] cb@[idx] == plane_pixel(s, w as int, idx).cb,
            forall|idx: int|
                0 <= idx < row * w ==> #[trigger] cr@[idx] == plane_pixel(s, w as int, idx).cr,
        decreases h - row,
    {
        if w == 0 {
            proof {
                assert((row + 1) * w == 0) by (nonlinear_arith)
                    requires
                        w == 0,
                ;
            }
            row += 1;
            continue;
        }
        proof {
            lemma_mul_le(row as int, (h - 1) as int, stride as int);
        }
        assert(row * stride + 16 * groups <= len);
        let row_off = row * stride;
        let mut g: usize = 0;
        while g < groups
            invariant
                0 <= row < h,
                0 < w,
                w == width,
                h == height,
                stride == spec_stride(w as int),
                groups == groups6(w as int),
                n == w * h,
                s == src@,
                row_off == row * stride,
                row_off + 16 * groups <= len,
                len == src@.len(),
                0 <= g <= groups,
                y@.len() == n,
                cb@.len() == n,
                cr@.len() == n,
                forall|idx: int|
                    0 <= idx < row * w + (if 6 * g < w { 6 * g } else { w as int }) ==> #[trigger] y@[idx]
                        == plane_pixel(s, w as int, idx).y,
                forall|idx: int|
                    0 <= idx < row * w + (if 6 * g < w { 6 * g } else { w as int }) ==> #[trigger] cb@[idx]
                        == plane_pixel(s, w as int, idx).cb,
                forall|idx: int|
                    0 <= idx < row * w + (if 6 * g < w { 6 * g } else { w as int }) ==> #[trigger] cr@[idx]
                        == plane_pixel(s, w as int, idx).cr,
            decreases groups - g,
        {
            let base = row_off + 16 * g;
            let words = [
                read_le_word(src, base),
                read_le_word(src, base + 4),
                read_le_word(src, base + 8),
                read_le_word(src, base + 12),
            ];
            assert(words@ =~= group_words(s, stride as int, row as int, g as int));
            let group = unpack_group(words);
            let mut j: usize = 0;
            while j < 6 && 6 * g + j < w
                invariant
                    0 <= row < h,
                    0 < w,
                    w == width,
                    h == height,
                    stride == spec_stride(w as int),
                    groups == groups6(w as int),
                    n == w * h,
                    s == src@,
                    0 <= g < groups,
                    0 <= j <= 6,
                    6 * g + j <= w,
                    group@ == spec_unpack_group(group_words(s, stride as int, row as int, g as int)),
                    y@.len() == n,
                    cb@.len() == n,
                    cr@.len() == n,
                    forall|idx: int|
                        0 <= idx < row * w + 6 * g + j ==> #[trigger] y@[idx] == plane_pixel(
                            s,
                            w as int,
                            idx,
                        ).y,
                    forall|idx: int|
                        0 <= idx < row * w + 6 * g + j ==> #[trigger] cb@[idx] == plane_pixel(
                            s,
                            w as int,
                            idx,
                        ).cb,
                    forall|idx: int|
                        0 <= idx < row * w + 6 * g + j ==> #[trigger] cr@[idx] == plane_pixel(
                            s,
                            w as int,
                            idx,
                        ).cr,
                decreases 6 - j,
            {
                let x = 6 * g + j;
                proof {
                    lemma_row_index(row as int, w as int, x as int, h as int);
                }
                let idx = row * w + x;
                let pix = group[j];
                assert(plane_pixel(s, w as int, idx as int) == pix);
                y.set(idx, pix.y);
                cb.set(idx, pix.cb);
                cr.set(idx, pix.cr);
                j += 1;
            }
            g += 1;
        }
        proof {
            lemma_row_index(row as int, w as int, 0, h as int);
        }
        row += 1;
    }
    assert(row * w == w * h) by (nonlinear_arith)
        requires
            row == h,
    ;
    (y, cb, cr)
}


/// The six pixels that packing takes for group `g` of row `row`: the samples
/// of the planes at those positions, and zero past the end of the row.
pub open spec fn pack_input(y: Seq<u16>, cb: Seq<u16>, cr: Seq<u16>, width: int, row: int, g: int) -> Seq<Ycbcr> {
    Seq::new(
        6,
        |j: int|
            if 6 * g + j < width {
                Ycbcr {
                    y: y[row * width + 6 * g + j],
                    cb: cb[row * width + 6 * g + j],
                    cr: cr[row * width + 6 * g + j],
                }
            } else {
                Ycbcr { y: 0, cb: 0, cr: 0 }
            },
    )
}

/// Byte `p` of the v210 frame packed from the planes: inside the groups that
/// cover a row, the little-endian bytes of their words; zero in the rest of
/// the row.
pub open spec fn packed_frame_byte(y: Seq<u16>, cb: Seq<u16>, cr: Seq<u16>, width: int, p: int) -> u8 {
    let stride = spec_stride(width);
    let row = p / stride;
    let q = p % stride;
    let k = q / 4;
    if k < 4 * groups6(width) {
        le_byte(spec_pack_group(pack_input(y, cb, cr, width, row, k / 4))[k % 4], q % 4)
    } else {
        0
    }
}

/// The v210 frame packed from tightly packed planes.
pub open spec fn spec_pack_frame(y: Seq<u16>, cb: Seq<u16>, cr: Seq<u16>, width: int, height: int) -> Seq<u8> {
    Seq::new(
        spec_frame_size(width, height) as nat,
        |p: int| packed_frame_byte(y, cb, cr, width, p),
    )
}

proof fn lemma_groups_fit_stride(width: int)
    requires
        0 <= width,
    ensures
        16 * groups6(width) <= spec_stride(width),
{
}

proof fn lemma_packed_byte_at(
    y: Seq<u16>,
    cb: Seq<u16>,
    cr: Seq<u16>,
    width: int,
    row: int,
    g: int,
    i: int,
    b: int,
)
    requires
        0 <= width,
        0 <= row,
        0 <= g < groups6(width),
        0 <= i < 4,
        0 <= b < 4,
    ensures
        packed_frame_byte(y, cb, cr, width, row * spec_stride(width) + 16 * g + 4 * i + b)
            == le_byte(spec_pack_group(pack_input(y, cb, cr, width, row, g))[i], b),
{
    let stride = spec_stride(width);
    lemma_groups_fit_stride(width);
    let q = 16 * g + 4 * i + b;
    lemma_fundamental_div_mod_converse(row * stride + q, stride, row, q);
}

proof fn lemma_packed_byte_gap(y: Seq<u16>, cb: Seq<u16>, cr: Seq<u16>, width: int, row: int, p: int)
    requires
        0 <= width,
        0 <= row,
        row * spec_stride(width) + 16 * groups6(width) <= p < row * spec_stride(width) + spec_stride(width),
    ensures
        packed_frame_byte(y, cb, cr, width, p) == 0,
{
    let stride = spec_stride(width);
    lemma_fundamental_div_mod_converse(p, stride, row, p - row * stride);
}

fn le_bytes_of(w: u32) -> (r: [u8; 4])
    ensures
        forall|k: int| 0 <= k < 4 ==> #[trigger] r@[k] == le_byte(w, k),
{
    [(w & 0xff) as u8, ((w >> 8) & 0xff) as u8, ((w >> 16) & 0xff) as u8, ((w >> 24) & 0xff) as u8]
}

/// Pack tightly packed Y/Cb/Cr planes into a v210 frame. Padding bits are zero.
pub fn pack_frame(y: &[u16], cb: &[u16], cr: &[u16], width: u32, height: u32) -> (r: Vec<u8>)
    requires
        spec_stride(width as int) <= u32::MAX,
        spec_frame_size(width as int, height as int) <= usize::MAX,
        y@.len() >= width * height,
        cb@.len() >= width * height,
        cr@.len() >= width * height,
    ensures
        r@ == spec_pack_frame(y@, cb@, cr@, width as int, height as int),
{
    let stride = stride(width);
    let len = stride * height as usize;
    let mut dst = vec![0u8; len];
    let w = width as usize;
    let h = height as usize;
    let groups = groups_for(width) as usize;
    let ghost ys = y@;
    let ghost cbs = cb@;
    let ghost crs = cr@;
    let ylen = y.len();
    proof {
        lemma_groups_fit_stride(w as int);
    }

    let mut row: usize = 0;
    while row < h
        invariant
            0 <= row <= h,
            w == width,
            h == height,
            stride == spec_stride(w as int),
            stride <= u32::MAX,
            16 * groups <= stride,
            groups == groups6(w as int),
            len == stride * h,
            ys == y@,
            cbs == cb@,
            crs == cr@,
            y@.len() >= w * h,
            ylen == y@.len(),
            cb@.len() >= w * h,
            cr@.len() >= w * h,
            dst@.len() == len,
            forall|p: int|
                0 <= p < len ==> #[trigger] dst@[p] == if p < row * stride {
                    packed_frame_byte(ys, cbs, crs, w as int, p)
                } else {
                    0u8
                },
        decreases h - row,
    {
        proof {
            lemma_mul_le((row + 1) as int, h as int, stride as int);
            assert((row + 1) * stride == row * stride + stride) by (nonlinear_arith);
        }
        let row_off = row * stride;
        let mut g: usize = 0;
        while g < groups
            invariant
                0 <= row < h,
                w == width,
                h == height,
                stride == spec_stride(w as int),
                stride <= u32::MAX,
                16 * groups <= stride,
                groups == groups6(w as int),
                len == stride * h,
                row_off == row * stride,
                row_off + stride <= len,
                ys == y@,
                cbs == cb@,
                crs == cr@,
                y@.len() >= w * h,
                ylen == y@.len(),
                cb@.len() >= w * h,
                cr@.len() >= w * h,
                0 <= g <= groups,
                dst@.len() == len,
                forall|p: int|
                    0 <= p < len ==> #[trigger] dst@[p] == if p < row_off + 16 * g {
                        packed_frame_byte(ys, cbs, crs, w as int, p)
                    } else {
                        0u8
                    },
            decreases groups - g,
        {
            let mut pixels = [Ycbcr { y: 0, cb: 0, cr: 0 }; 6];
            let mut j: usize = 0;
            while j < 6 && 6 * g + j < w
                invariant
                    0 <= row < h,
                    w == width,
                    h == height,
                    groups == groups6(w as int),
                    stride == spec_stride(w as int),
                    stride <= u32::MAX,
                    16 * groups <= stride,
                    0 <= g < groups,
                    0 <= j <= 6,
                    ys == y@,
                    cbs == cb@,
                    crs == cr@,
                    y@.len() >= w * h,
                    ylen == y@.len(),
                    cb@.len() >= w * h,
                    cr@.len() >= w * h,
                    forall|k: int|
                        0 <= k < j ==> #[trigger] pixels@[k] == pack_input(
                            ys,
                            cbs,
                            crs,
                            w as int,
                            row as int,
                            g as int,
                        )[k],
                    forall|k: int|
                        j <= k < 6 ==> #[trigger] pixels@[k] == (Ycbcr { y: 0, cb: 0, cr: 0 }),
                decreases 6 - j,
            {
                let x = 6 * g + j;
                proof {
                    lemma_row_index(row as int, w as int, x as int, h as int);
                }
                let idx = row * w + x;
                pixels[j] = Ycbcr { y: y[idx], cb: cb[idx], cr: cr[idx] };
                j += 1;
            }
            let ghost input = pack_input(ys, cbs, crs, w as int, row as int, g as int);
            assert(pixels@ =~= input);
            // 4:2:2: even-pixel chroma is authoritative for the pair.
            pixels[1].cb = pixels[0].cb;
            pixels[1].cr = pixels[0].cr;
            pixels[3].cb = pixels[2].cb;
            pixels[3].cr = pixels[2].cr;
            pixels[5].cb = pixels[4].cb;
            pixels[5].cr = pixels[4].cr;
            let words = pack_group(pixels);
            assert(words@ =~= spec_pack_group(input));
            let mut i: usize = 0;
            while i < 4
                invariant
                    0 <= row < h,
                    w == width,
                    stride == spec_stride(w as int),
                    16 * groups <= stride,
                    groups == groups6(w as int),
                    0 <= g < groups,
                    0 <= i <= 4,
                    row_off == row * stride,
                    row_off + stride <= len,
                    dst@.len() == len,
                    words@ == spec_pack_group(input),
                    input == pack_input(ys, cbs, crs, w as int, row as int, g as int),
                    forall|p: int|
                        0 <= p < len ==> #[trigger] dst@[p] == if p < row_off + 16 * g + 4 * i {
                            packed_frame_byte(ys, cbs, crs, w as int, p)
                        } else {
                            0u8
                        },
                decreases 4 - i,
            {
                let o = row_off + 16 * g + 4 * i;
                let bytes = le_bytes_of(words[i]);
                proof {
                    lemma_packed_byte_at(ys, cbs, crs, w as int, row as int, g as int, i as int, 0);
                    lemma_packed_byte_at(ys, cbs, crs, w as int, row as int, g as int, i as int, 1);
                    lemma_packed_byte_at(ys, cbs, crs, w as int, row as int, g as int, i as int, 2);
                    lemma_packed_byte_at(ys, cbs, crs, w as int, row as int, g as int, i as int, 3);
                }
                dst.set(o, bytes[0]);
                dst.set(o + 1, bytes[1]);
                dst.set(o + 2, bytes[2]);
                dst.set(o + 3, bytes[3]);
                i += 1;
            }
            g += 1;
        }
        proof {
            assert forall|p: int| 0 <= p < len implies #[trigger] dst@[p] == if p < (row + 1)
                * stride {
                packed_frame_byte(ys, cbs, crs, w as int, p)
            } else {
                0u8
            } by {
                if row_off + 16 * groups <= p < row_off + stride {
                    lemma_packed_byte_gap(ys, cbs, crs, w as int, row as int, p);
                }
            }
        }
        row += 1;
    }
    assert(row * stride == stride * h) by (nonlinear_arith)
        requires
            row == h,
    ;
    assert(dst@ =~= spec_pack_frame(ys, cbs, crs, w as int, h as int));
    dst
}


proof fn lemma_le_word_of_bytes(b: Seq<u8>, off: int, w: u32)
    requires
        0 <= off,
        off + 4 <= b.len(),
        b[off] == le_byte(w, 0),
        b[off + 1] == le_byte(w, 1),
        b[off + 2] == le_byte(w, 2),
        b[off + 3] == le_byte(w, 3),
    ensures
        le_word(b, off) == w,
{
    assert((((w & 0xff) as u8) as u32) | (((((w >> 8) & 0xff) as u8) as u32) << 8) | (((((w >> 16)
        & 0xff) as u8) as u32) << 16) | (((((w >> 24) & 0xff) as u8) as u32) << 24) == w)
        by (bit_vector);
}

proof fn lemma_packed_group_words(y: Seq<u16>, cb: Seq<u16>, cr: Seq<u16>, width: int, height: int, row: int, g: int)
    requires
        0 <= width,
        0 <= row < height,
        0 <= g < groups6(width),
    ensures
        group_words(spec_pack_frame(y, cb, cr, width, height), spec_stride(width), row, g)
            == spec_pack_group(pack_input(y, cb, cr, width, row, g)),
{
    let stride = spec_stride(width);
    let src = spec_pack_frame(y, cb, cr, width, height);
    let packed = spec_pack_group(pack_input(y, cb, cr, width, row, g));
    lemma_groups_fit_stride(width);
    lemma_mul_le(row + 1, height, stride);
    assert((row + 1) * stride == row * stride + stride) by (nonlinear_arith);
    assert(height * stride == stride * height) by (nonlinear_arith);
    assert forall|i: int| 0 <= i < 4 implies #[trigger] group_words(src, stride, row, g)[i]
        == packed[i] by {
        lemma_packed_byte_at(y, cb, cr, width, row, g, i, 0);
        lemma_packed_byte_at(y, cb, cr, width, row, g, i, 1);
        lemma_packed_byte_at(y, cb, cr, width, row, g, i, 2);
        lemma_packed_byte_at(y, cb, cr, width, row, g, i, 3);
        lemma_le_word_of_bytes(src, row * stride + 16 * g + 4 * i, packed[i]);
    }
    assert(group_words(src, stride, row, g) =~= packed);
}

proof fn lemma_roundtrip_at(y: Seq<u16>, cb: Seq<u16>, cr: Seq<u16>, width: int, height: int, row: int, x: int)
    requires
        0 <= row < height,
        0 <= x < width,
        y.len() >= width * height,
        cb.len() >= width * height,
        cr.len() >= width * height,
    ensures
        frame_pixel(spec_pack_frame(y, cb, cr, width, height), width, row, x) == (Ycbcr {
            y: ten_bits(y[row * width + x]),
            cb: ten_bits(cb[row * width + x - x % 2]),
            cr: ten_bits(cr[row * width + x - x % 2]),
        }),
{
    let g = x / 6;
    let j = x % 6;
    let input = pack_input(y, cb, cr, width, row, g);
    lemma_packed_group_words(y, cb, cr, width, height, row, g);
    lemma_group_roundtrip(input);
    assert(x % 2 == j % 2);
}

/// Unpacking a packed frame gives back every pixel's luma, and for chroma the
/// samples of the even column of its pair, each cut to ten bits. The packed
/// frame is long enough to be unpacked.
pub proof fn lemma_frame_roundtrip(y: Seq<u16>, cb: Seq<u16>, cr: Seq<u16>, width: int, height: int)
    requires
        0 <= width,
        0 <= height,
        y.len() >= width * height,
        cb.len() >= width * height,
        cr.len() >= width * height,
    ensures
        spec_pack_frame(y, cb, cr, width, height).len() == spec_frame_size(width, height),
        unpack_bytes_needed(width, height) <= spec_frame_size(width, height),
        forall|idx: int|
            0 <= idx < width * height ==> #[trigger] plane_pixel(
                spec_pack_frame(y, cb, cr, width, height),
                width,
                idx,
            ) == (Ycbcr {
                y: ten_bits(y[idx]),
                cb: ten_bits(cb[idx - (idx % width) % 2]),
                cr: ten_bits(cr[idx - (idx % width) % 2]),
            }),
{
    let stride = spec_stride(width);
    let src = spec_pack_frame(y, cb, cr, width, height);
    lemma_groups_fit_stride(width);
    if width > 0 && height > 0 {
        lemma_mul_le((height - 1) as int, height, stride);
        assert((height - 1) * stride + stride == height * stride) by (nonlinear_arith);
        assert(height * stride == stride * height) by (nonlinear_arith);
    }
    assert forall|idx: int| 0 <= idx < width * height implies #[trigger] plane_pixel(
        src,
        width,
        idx,
    ) == (Ycbcr {
        y: ten_bits(y[idx]),
        cb: ten_bits(cb[idx - (idx % width) % 2]),
        cr: ten_bits(cr[idx - (idx % width) % 2]),
    }) by {
        let row = idx / width;
        let x = idx % width;
        assert(width > 0) by (nonlinear_arith)
            requires
                0 <= idx < width * height,
                0 <= height,
        ;
        assert(idx == row * width + x && 0 <= x < width) by (nonlinear_arith)
            requires
                width > 0,
                row == idx / width,
                x == idx % width,
        ;
        assert(0 <= row < height) by (nonlinear_arith)
            requires
                width > 0,
                idx == row * width + x,
                0 <= x < width,
                0 <= idx < width * height,
        ;
        lemma_roundtrip_at(y, cb, cr, width, height, row, x);
    }
}

} // verus!

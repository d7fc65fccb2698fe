use v210gl::v210::{
    field, frame_size, pack_frame, pack_group, pack_word, proxy_width, stride, unpack_frame,
    unpack_group, Ycbcr,
};

#[test]
fn stride_and_proxy_match_byte_count() {
    for width in [50, 720, 1280, 1920] {
        assert_eq!(proxy_width(width) as usize * 4, stride(width));
    }
    assert_eq!(stride(1920), 5120);
    assert_eq!(proxy_width(1920), 1280);
    assert_eq!(stride(1280), 3456);
    assert_eq!(proxy_width(50), 64);
}

#[test]
fn padding_bits_ignored_on_unpack() {
    let mut words = pack_group([
        Ycbcr { y: 64, cb: 512, cr: 512 },
        Ycbcr { y: 940, cb: 512, cr: 512 },
        Ycbcr { y: 0, cb: 64, cr: 960 },
        Ycbcr { y: 1023, cb: 64, cr: 960 },
        Ycbcr { y: 512, cb: 1023, cr: 0 },
        Ycbcr { y: 1, cb: 1023, cr: 0 },
    ]);
    for w in &mut words {
        *w |= 0xC000_0000;
    }
    let pixels = unpack_group(words);
    assert_eq!(pixels[0].y, 64);
    assert_eq!(pixels[1].y, 940);
    assert_eq!(pixels[2].cb, 64);
    assert_eq!(pixels[2].cr, 960);
    assert_eq!(pixels[4].cb, 1023);
    assert_eq!(pixels[5].y, 1);
}

#[test]
fn pack_writes_zero_padding() {
    let words = pack_group([Ycbcr { y: 64, cb: 512, cr: 512 }; 6]);
    for w in words {
        assert_eq!(w & 0xC000_0000, 0);
    }
}

#[test]
fn roundtrip_awkward_widths() {
    for width in [50u32, 720, 1280, 1920] {
        let height = 2u32;
        let n = (width * height) as usize;
        let y: Vec<u16> = (0..n).map(|i| ((i * 17) % 1024) as u16).collect();
        let cb: Vec<u16> = (0..n).map(|i| (64 + (i * 3) % 897) as u16).collect();
        let cr: Vec<u16> = (0..n).map(|i| (64 + (i * 5) % 897) as u16).collect();
        let packed = pack_frame(&y, &cb, &cr, width, height);
        assert_eq!(packed.len(), frame_size(width, height));
        let (y2, cb2, cr2) = unpack_frame(&packed, width, height);
        assert_eq!(y2, y);
        // Chroma is 4:2:2: odd columns share the even-column sample.
        for row in 0..height as usize {
            for x in 0..width as usize {
                let idx = row * width as usize + x;
                let even = row * width as usize + (x & !1);
                assert_eq!(cb2[idx], cb[even]);
                assert_eq!(cr2[idx], cr[even]);
            }
        }
    }
}

#[test]
fn field_reads_each_ten_bit_slot() {
    let w = 0x3ff | (0x155 << 10) | (0x2aa << 20) | 0xC000_0000;
    assert_eq!(field(w, 0), 0x3ff);
    assert_eq!(field(w, 10), 0x155);
    assert_eq!(field(w, 20), 0x2aa);
}

#[test]
fn pack_word_masks_to_ten_bits() {
    assert_eq!(pack_word(0xffff, 0, 0), 0x3ff);
    assert_eq!(pack_word(1, 2, 3), 1 | (2 << 10) | (3 << 20));
    assert_eq!(pack_word(0x400, 0x401, 0x402), (1 << 10) | (2 << 20));
}

#[test]
fn group_roundtrip_shares_even_chroma() {
    let px = [
        Ycbcr { y: 1, cb: 2, cr: 3 },
        Ycbcr { y: 4, cb: 5, cr: 6 },
        Ycbcr { y: 7, cb: 8, cr: 9 },
        Ycbcr { y: 10, cb: 11, cr: 12 },
        Ycbcr { y: 13, cb: 14, cr: 15 },
        Ycbcr { y: 16, cb: 17, cr: 18 },
    ];
    let back = unpack_group(pack_group(px));
    assert_eq!(back[1], Ycbcr { y: 4, cb: 2, cr: 3 });
    assert_eq!(back[3], Ycbcr { y: 10, cb: 8, cr: 9 });
    assert_eq!(back[5], Ycbcr { y: 16, cb: 14, cr: 15 });
    assert_eq!(back[4], px[4]);
}

#[test]
fn repack_clears_padding_only() {
    let words = [0xffff_ffffu32, 0x1234_5678, 0x8000_0001, 0];
    let again = pack_group(unpack_group(words));
    assert_eq!(again, [0x3fff_ffff, 0x1234_5678 & 0x3fff_ffff, 1, 0]);
}

#[test]
fn frame_of_zero_size() {
    assert_eq!(frame_size(0, 10), 0);
    assert_eq!(stride(0), 0);
    let packed = pack_frame(&[], &[], &[], 0, 3);
    assert!(packed.is_empty());
    let (y, cb, cr) = unpack_frame(&[], 0, 3);
    assert!(y.is_empty() && cb.is_empty() && cr.is_empty());
}

#[test]
fn pack_frame_pads_row_to_stride() {
    // One pixel per row: one group of four words, then zeros up to 128 bytes.
    let packed = pack_frame(&[100, 200], &[300, 400], &[500, 600], 1, 2);
    assert_eq!(packed.len(), 256);
    let w0 = u32::from_le_bytes([packed[0], packed[1], packed[2], packed[3]]);
    assert_eq!(w0, 300 | (100 << 10) | (500 << 20));
    assert!(packed[16..128].iter().all(|b| *b == 0));
    let w1 = u32::from_le_bytes([packed[128], packed[129], packed[130], packed[131]]);
    assert_eq!(w1, 400 | (200 << 10) | (600 << 20));
    let (y, cb, cr) = unpack_frame(&packed, 1, 2);
    assert_eq!((y, cb, cr), (vec![100, 200], vec![300, 400], vec![500, 600]));
}

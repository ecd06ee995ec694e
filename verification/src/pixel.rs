//! Pixel formats of DirectDraw surfaces: reading packed pixels out of a byte
//! buffer, expanding them to blue/green/red channels and packing them back.
//!
//! Surfaces are little-endian: a 16-bit pixel is `lo + 256 * hi`, a 32-bit
//! pixel is stored `B, G, R, X`.

use vstd::prelude::*;

verus! {

/// `DDPF_RGB`.
pub const DDPF_RGB: u32 = 0x40;

/// `DDPF_PALETTEINDEXED8`.
pub const DDPF_PALETTEINDEXED8: u32 = 0x20;

/// Number of bytes one pixel of `bpp` bits occupies in a blit (`max(bpp, 8) / 8`).
pub open spec fn blit_bytes_pp(bpp: i32) -> int {
    if bpp < 8 { 1 } else { bpp / 8 }
}

/// The packed value of the pixel stored at `off`: the palette index for
/// 8-bit, the little-endian word for 16- and 32-bit, the first byte otherwise.
pub open spec fn packed_value(data: Seq<u8>, off: int, bpp: i32) -> u32 {
    if bpp == 16 {
        (data[off] + 256 * data[off + 1]) as u32
    } else if bpp == 32 {
        (data[off] + 256 * data[off + 1] + 65536 * data[off + 2] + 16777216 * data[off + 3]) as u32
    } else {
        data[off] as u32
    }
}

/// How many bytes `packed_value` reads for `bpp`.
pub open spec fn read_width(bpp: i32) -> int {
    if bpp == 16 {
        2
    } else if bpp == 32 {
        4
    } else {
        1
    }
}

/// A colour key as it is compared with a packed pixel of `bpp` bits.
pub open spec fn key_for_bpp(key: u32, bpp: i32) -> u32 {
    if bpp == 8 {
        (key % 256) as u32
    } else if bpp == 16 {
        (key % 65536) as u32
    } else {
        key
    }
}

/// Blue, green and red bytes of a source pixel as the blitter expands it.
///
/// 8-bit pixels go through the palette (or become grey without one); 16-bit
/// pixels are split into their 5/5/5 or 5/6/5 fields (red on top, blue at
/// the bottom), each shifted up to eight bits; 32-bit pixels give their
/// first three bytes.
pub open spec fn expand_channels(
    data: Seq<u8>,
    off: int,
    bpp: i32,
    rgb555: bool,
    palette: Option<[[u8; 4]; 256]>,
) -> (u8, u8, u8) {
    let v = packed_value(data, off, bpp);
    if bpp == 8 {
        let i = (v % 256) as int;
        match palette {
            Some(p) => (p@[i]@[0], p@[i]@[1], p@[i]@[2]),
            None => (i as u8, i as u8, i as u8),
        }
    } else if bpp == 16 {
        if rgb555 {
            (((v % 32) * 8) as u8, (((v / 32) % 32) * 8) as u8, (((v / 1024) % 32) * 8) as u8)
        } else {
            (((v % 32) * 8) as u8, (((v / 32) % 64) * 4) as u8, (((v / 2048) % 32) * 8) as u8)
        }
    } else if bpp == 32 {
        (data[off], data[off + 1], data[off + 2])
    } else {
        (data[off], data[off], data[off])
    }
}

/// The 16-bit word written for blue/green/red channels.
pub open spec fn pack16(b: u8, g: u8, r: u8, rgb555: bool) -> int {
    if rgb555 {
        (r / 8) * 1024 + (g / 8) * 32 + b / 8
    } else {
        (r / 8) * 2048 + (g / 4) * 32 + b / 8
    }
}

/// The bytes a converted pixel is written as, for a destination of `dst_bpp`
/// bits: the low byte of the packed source value for 8-bit (and unusual)
/// destinations, a little-endian word for 16-bit, `B, G, R, 0xFF` for 32-bit.
pub open spec fn converted_bytes(packed: u32, bgr: (u8, u8, u8), dst_bpp: i32, rgb555: bool) -> Seq<u8> {
    let (b, g, r) = bgr;
    if dst_bpp == 16 {
        let w = pack16(b, g, r, rgb555);
        seq![(w % 256) as u8, (w / 256) as u8]
    } else if dst_bpp == 32 {
        seq![b, g, r, 0xFFu8]
    } else {
        seq![(packed % 256) as u8]
    }
}

/// Reads the packed value of the pixel at `off` together with its expanded
/// blue, green and red bytes.
pub fn read_pixel(data: &[u8], off: usize, bpp: i32, rgb555: bool, palette: Option<&[[u8; 4]; 256]>) -> (res: (u32, (u8, u8, u8)))
    requires
        off + read_width(bpp) <= data@.len(),
    ensures
        res.0 == packed_value(data@, off as int, bpp),
        res.1 == expand_channels(data@, off as int, bpp, rgb555, match palette {
            Some(p) => Some(*p),
            None => None,
        }),
{
    let v: u32 = if bpp == 16 {
        data[off] as u32 + 256 * (data[off + 1] as u32)
    } else if bpp == 32 {
        data[off] as u32 + 256 * (data[off + 1] as u32) + 65536 * (data[off + 2] as u32) + 16777216 * (
        data[off + 3] as u32)
    } else {
        data[off] as u32
    };
    let bgr: (u8, u8, u8) = if bpp == 8 {
        let i: usize = (v % 256) as usize;
        match palette {
            Some(p) => (p[i][0], p[i][1], p[i][2]),
            None => (i as u8, i as u8, i as u8),
        }
    } else if bpp == 16 {
        if rgb555 {
            (((v % 32) * 8) as u8, (((v / 32) % 32) * 8) as u8, (((v / 1024) % 32) * 8) as u8)
        } else {
            (((v % 32) * 8) as u8, (((v / 32) % 64) * 4) as u8, (((v / 2048) % 32) * 8) as u8)
        }
    } else if bpp == 32 {
        (data[off], data[off + 1], data[off + 2])
    } else {
        (data[off], data[off], data[off])
    };
    (v, bgr)
}

/// Packs blue/green/red channels into the bytes of a destination pixel.
pub fn convert_to_bytes(packed: u32, bgr: (u8, u8, u8), dst_bpp: i32, rgb555: bool) -> (res: Vec<u8>)
    ensures
        res@ == converted_bytes(packed, bgr, dst_bpp, rgb555),
{
    let (b, g, r) = bgr;
    if dst_bpp == 16 {
        let w: u32 = if rgb555 {
            (r as u32 / 8) * 1024 + (g as u32 / 8) * 32 + b as u32 / 8
        } else {
            (r as u32 / 8) * 2048 + (g as u32 / 4) * 32 + b as u32 / 8
        };
        let mut v: Vec<u8> = Vec::new();
        v.push((w % 256) as u8);
        v.push((w / 256) as u8);
        v
    } else if dst_bpp == 32 {
        let mut v: Vec<u8> = Vec::new();
        v.push(b);
        v.push(g);
        v.push(r);
        v.push(0xFFu8);
        v
    } else {
        let mut v: Vec<u8> = Vec::new();
        v.push((packed % 256) as u8);
        v
    }
}

} // verus!

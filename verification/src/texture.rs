//! Procedural debug texture: an 8-by-8 RGBA checker of eight colors, built
//! by writing a 32-byte palette into each row and rotating the palette right
//! by one color (four bytes) between rows. Pure byte logic; the embedding
//! application wraps the bytes into its renderer's image type.

use vstd::prelude::*;

verus! {

/// Side length of the square texture, in pixels.
pub const TEXTURE_SIZE: usize = 8;

/// The eight palette colors as one row of 32 RGBA bytes.
pub open spec fn palette() -> Seq<u8> {
    seq![
        255u8, 102u8, 159u8, 255u8,
        255u8, 159u8, 102u8, 255u8,
        236u8, 255u8, 102u8, 255u8,
        121u8, 255u8, 102u8, 255u8,
        102u8, 255u8, 198u8, 255u8,
        102u8, 198u8, 255u8, 255u8,
        121u8, 102u8, 255u8, 255u8,
        236u8, 102u8, 255u8, 255u8,
    ]
}

/// Byte `i` of row `y`: the palette rotated right by four bytes per row.
pub open spec fn texture_byte(y: int, i: int) -> u8
    recommends
        0 <= y < 8,
        0 <= i < 32,
{
    palette()[(i + 32 - 4 * y) % 32]
}

/// The palette as bytes.
pub fn palette_colors() -> (p: Vec<u8>)
    ensures
        p@ == palette(),
{
    let mut p: Vec<u8> = Vec::new();
    p.push(255);
    p.push(102);
    p.push(159);
    p.push(255);
    p.push(255);
    p.push(159);
    p.push(102);
    p.push(255);
    p.push(236);
    p.push(255);
    p.push(102);
    p.push(255);
    p.push(121);
    p.push(255);
    p.push(102);
    p.push(255);
    p.push(102);
    p.push(255);
    p.push(198);
    p.push(255);
    p.push(102);
    p.push(198);
    p.push(255);
    p.push(255);
    p.push(121);
    p.push(102);
    p.push(255);
    p.push(255);
    p.push(236);
    p.push(102);
    p.push(255);
    p.push(255);
    proof {
        assert(p@ =~= palette());
    }
    p
}

/// The full texture: 8 rows of 32 bytes, row `y` holding the palette
/// rotated right by `4 * y` bytes.
pub fn debug_texture_data() -> (r: Vec<u8>)
    ensures
        r@.len() == 256,
        forall|y: int, i: int|
            0 <= y < 8 && 0 <= i < 32 ==> r@[y * 32 + i] == texture_byte(y, i),
{
    let pal = palette_colors();
    let mut data: Vec<u8> = Vec::new();
    let mut y: usize = 0;
    while y < 8
        invariant
            pal@ == palette(),
            y <= 8,
            data@.len() == y * 32,
            forall|y2: int, i: int|
                0 <= y2 < y && 0 <= i < 32 ==> data@[y2 * 32 + i] == texture_byte(y2, i),
        decreases 8 - y,
    {
        let mut i: usize = 0;
        while i < 32
            invariant
                pal@ == palette(),
                y < 8,
                i <= 32,
                data@.len() == y * 32 + i,
                forall|y2: int, k: int|
                    0 <= y2 < y && 0 <= k < 32 ==> data@[y2 * 32 + k] == texture_byte(y2, k),
                forall|k: int| 0 <= k < i ==> data@[y * 32 + k] == texture_byte(y as int, k),
            decreases 32 - i,
        {
            let idx: usize = (i + 32 - 4 * y) % 32;
            data.push(pal[idx]);
            i += 1;
        }
        y += 1;
    }
    data
}

} // verus!

use vstd::prelude::*;

verus! {

/// The red, green and blue bytes of a colour packed as `0x__RRGGBB`.
pub fn rgb_channels(color: u32) -> (r: (u8, u8, u8))
    ensures
        r.0 == color / 0x10000 % 0x100,
        r.1 == color / 0x100 % 0x100,
        r.2 == color % 0x100,
{
    let (_, red, green, blue) = argb_channels(color);
    (red, green, blue)
}

/// The alpha, red, green and blue bytes of a colour packed as `0xAARRGGBB`.
pub fn argb_channels(color: u32) -> (r: (u8, u8, u8, u8))
    ensures
        r.0 == color / 0x1000000 % 0x100,
        r.1 == color / 0x10000 % 0x100,
        r.2 == color / 0x100 % 0x100,
        r.3 == color % 0x100,
{
    let a = ((color >> 24) & 0xff) as u8;
    let red = ((color >> 16) & 0xff) as u8;
    let g = ((color >> 8) & 0xff) as u8;
    let b = (color & 0xff) as u8;
    proof {
        assert(((color >> 24) & 0xff) == (color / 0x1000000) % 256) by (bit_vector);
        assert(((color >> 16) & 0xff) == (color / 0x10000) % 256) by (bit_vector);
        assert(((color >> 8) & 0xff) == (color / 0x100) % 256) by (bit_vector);
        assert((color & 0xff) == color % 256) by (bit_vector);
    }
    (a, red, g, b)
}

} // verus!

use vstd::prelude::*;

verus! {

/// Size in bytes of the per-draw constants on the wire.
pub const SHADER_CONSTANTS_SIZE: usize = 12;

/// The per-draw constants handed to the render programs: the surface size in
/// pixels and the elapsed time, the latter as the bit pattern of a 32-bit
/// IEEE-754 number of seconds.
#[derive(Clone, Copy, Debug, PartialEq, Eq, Structural)]
pub struct ShaderConstants {
    pub width_px: u32,
    pub height_px: u32,
    pub time_bits: u32,
}

/// The four bytes of `x`, least significant first.
pub open spec fn le_bytes(x: u32) -> Seq<u8> {
    seq![
        (x % 0x100) as u8,
        ((x / 0x100) % 0x100) as u8,
        ((x / 0x1_0000) % 0x100) as u8,
        (x / 0x100_0000) as u8,
    ]
}

impl ShaderConstants {
    /// The wire form: width, height, time, four bytes each, least
    /// significant byte first, no padding.
    pub open spec fn wire(&self) -> Seq<u8> {
        le_bytes(self.width_px) + le_bytes(self.height_px) + le_bytes(self.time_bits)
    }

    pub fn new(width_px: u32, height_px: u32, time_bits: u32) -> (r: Self)
        ensures
            r == (ShaderConstants { width_px, height_px, time_bits }),
    {
        ShaderConstants { width_px, height_px, time_bits }
    }

    /// Encodes the constants in their wire form.
    pub fn to_bytes(&self) -> (r: Vec<u8>)
        ensures
            r@ == self.wire(),
            r@.len() == SHADER_CONSTANTS_SIZE,
    {
        let mut out: Vec<u8> = Vec::with_capacity(SHADER_CONSTANTS_SIZE);
        push_le_bytes(&mut out, self.width_px);
        push_le_bytes(&mut out, self.height_px);
        push_le_bytes(&mut out, self.time_bits);
        out
    }
}

fn push_le_bytes(out: &mut Vec<u8>, x: u32)
    ensures
        final(out)@ == old(out)@ + le_bytes(x),
{
    out.push((x % 0x100) as u8);
    out.push(((x / 0x100) % 0x100) as u8);
    out.push(((x / 0x1_0000) % 0x100) as u8);
    out.push((x / 0x100_0000) as u8);
}

} // verus!

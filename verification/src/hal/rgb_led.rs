use vstd::prelude::*;

verus! {

/// A colour of the status indicator, one byte per channel.
#[derive(Debug, Clone, Copy, PartialEq, Eq, Structural)]
pub struct RgbLedColor {
    pub r: u8,
    pub g: u8,
    pub b: u8,
}

impl RgbLedColor {
    /// The colour that the 24-bit value `0xRRGGBB` stands for; higher bits are ignored.
    pub open spec fn spec_from_u32(value: u32) -> RgbLedColor {
        RgbLedColor {
            r: ((value / 0x1_0000) % 0x100) as u8,
            g: ((value / 0x100) % 0x100) as u8,
            b: (value % 0x100) as u8,
        }
    }

    /// The 24-bit value `0xRRGGBB` of this colour.
    pub open spec fn spec_to_u32(self) -> u32 {
        (self.r as u32 * 0x1_0000 + self.g as u32 * 0x100 + self.b as u32) as u32
    }

    /// The 24-bit value `0xGGRRBB` of this colour, the order in which WS2812
    /// indicators take the channels.
    pub open spec fn spec_to_grb(self) -> u32 {
        (self.g as u32 * 0x1_0000 + self.r as u32 * 0x100 + self.b as u32) as u32
    }

    #[verifier::when_used_as_spec(spec_to_grb)]
    pub fn to_grb(self) -> (value: u32)
        ensures
            value == self.spec_to_grb(),
            value <= 0xFF_FFFF,
    {
        self.g as u32 * 0x1_0000 + self.r as u32 * 0x100 + self.b as u32
    }

    #[verifier::when_used_as_spec(spec_to_u32)]
    pub fn to_u32(self) -> (value: u32)
        ensures
            value == self.spec_to_u32(),
            value <= 0xFF_FFFF,
    {
        self.r as u32 * 0x1_0000 + self.g as u32 * 0x100 + self.b as u32
    }
}

impl From<u32> for RgbLedColor {
    fn from(value: u32) -> (color: Self)
    {
        let r: u32 = (value >> 16) & 0xFF;
        let g: u32 = (value >> 8) & 0xFF;
        let b: u32 = value & 0xFF;
        assert((value >> 16) & 0xFF == (value / 0x1_0000) % 0x100) by (bit_vector);
        assert((value >> 8) & 0xFF == (value / 0x100) % 0x100) by (bit_vector);
        assert(value & 0xFF == value % 0x100) by (bit_vector);
        RgbLedColor { r: r as u8, g: g as u8, b: b as u8 }
    }
}

impl vstd::std_specs::convert::FromSpecImpl<u32> for RgbLedColor {
    open spec fn obeys_from_spec() -> bool {
        true
    }

    open spec fn from_spec(value: u32) -> Self {
        RgbLedColor::spec_from_u32(value)
    }
}

/// Splitting a 24-bit value into channels and joining them again gives the value back.
pub proof fn lemma_color_round_trip(value: u32)
    requires
        value <= 0xFF_FFFF,
    ensures
        RgbLedColor::spec_from_u32(value).spec_to_u32() == value,
{
}

/// Joining channels into a 24-bit value and splitting it again gives the colour back.
pub proof fn lemma_color_channels_round_trip(color: RgbLedColor)
    ensures
        RgbLedColor::spec_from_u32(color.spec_to_u32()) == color,
{
}

} // verus!

//! Panel geometry of the supported SH1108 panel variants.
use vstd::prelude::*;

verus! {

/// Width of the controller's native column memory.
pub const NATIVE_WIDTH: u8 = 160;

/// Display size enumeration
#[derive(Clone, Copy, Debug, PartialEq, Eq, Structural)]
pub enum DisplaySize {
    /// 64 by 160 pixels
    Display64x160,
    /// 96 by 160 pixels
    Display96x160,
    /// 128 by 160 pixels
    Display128x160,
    /// 160 by 160 pixels
    Display160x160,
}

impl DisplaySize {
    /// Panel width and height in pixels.
    pub open spec fn spec_dimensions(self) -> (u8, u8) {
        match self {
            DisplaySize::Display64x160 => (64, 160),
            DisplaySize::Display96x160 => (96, 160),
            DisplaySize::Display128x160 => (128, 160),
            DisplaySize::Display160x160 => (160, 160),
        }
    }

    /// First controller column that the panel shows.
    pub open spec fn spec_column_offset(self) -> u8 {
        match self {
            DisplaySize::Display64x160 => 48,
            DisplaySize::Display96x160 => 32,
            DisplaySize::Display128x160 => 16,
            DisplaySize::Display160x160 => 0,
        }
    }

    /// Resolution code that the controller's resolution command carries.
    pub open spec fn spec_code(self) -> u8 {
        match self {
            DisplaySize::Display64x160 => 0,
            DisplaySize::Display96x160 => 1,
            DisplaySize::Display128x160 => 2,
            DisplaySize::Display160x160 => 3,
        }
    }

    /// Number of 8-row pages that cover the panel's height.
    pub open spec fn spec_pages(self) -> nat {
        ((self.spec_dimensions().1 as nat) + 7) / 8
    }

    /// Get integral dimensions from DisplaySize
    pub fn dimensions(self) -> (r: (u8, u8))
        ensures
            r == self.spec_dimensions(),
            r.0 <= NATIVE_WIDTH,
            r.1 == 160,
    {
        match self {
            DisplaySize::Display64x160 => (64, 160),
            DisplaySize::Display96x160 => (96, 160),
            DisplaySize::Display128x160 => (128, 160),
            DisplaySize::Display160x160 => (160, 160),
        }
    }

    /// Get the panel column offset from DisplaySize
    pub fn column_offset(self) -> (r: u8)
        ensures
            r == self.spec_column_offset(),
            r as int + self.spec_dimensions().0 as int <= NATIVE_WIDTH as int,
    {
        match self {
            DisplaySize::Display64x160 => 48,
            DisplaySize::Display96x160 => 32,
            DisplaySize::Display128x160 => 16,
            DisplaySize::Display160x160 => 0,
        }
    }

    /// Resolution code sent with the controller's resolution command.
    pub fn code(self) -> (r: u8)
        ensures
            r == self.spec_code(),
            r <= 3,
    {
        match self {
            DisplaySize::Display64x160 => 0,
            DisplaySize::Display96x160 => 1,
            DisplaySize::Display128x160 => 2,
            DisplaySize::Display160x160 => 3,
        }
    }

    /// Number of 8-row pages that cover the panel's height.
    pub fn pages(self) -> (r: u8)
        ensures
            r as nat == self.spec_pages(),
            r == 20,
    {
        let (_, h) = self.dimensions();
        ((h as u16 + 7) / 8) as u8
    }
}

/// Every panel is centred in the controller's column memory: its offset is half
/// of the columns it leaves unused, so offset plus width never exceeds the
/// native width, and the full-width panel has offset zero.
pub proof fn lemma_panel_centred(size: DisplaySize)
    ensures
        2 * size.spec_column_offset() as int + size.spec_dimensions().0 as int == NATIVE_WIDTH as int,
        size.spec_column_offset() as int + size.spec_dimensions().0 as int <= NATIVE_WIDTH as int,
        size.spec_dimensions().0 == NATIVE_WIDTH ==> size.spec_column_offset() == 0,
        size.spec_dimensions().1 == 160,
{
}

} // verus!

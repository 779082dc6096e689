//! Immutable style configuration handed to the renderer.
//!
//! The palette is a plain value built once at startup and passed along,
//! not an ambient global. Channels are 8-bit; the renderer maps them to
//! whatever color type its widget library wants.

use vstd::prelude::*;

verus! {

/// One color as 8-bit red, green and blue channels.
#[derive(Clone, Copy, Debug, PartialEq, Eq, Structural)]
pub struct Rgb {
    pub red: u8,
    pub green: u8,
    pub blue: u8,
}

/// The enterprise light palette.
#[derive(Clone, Copy, Debug, PartialEq, Eq, Structural)]
pub struct EnterpriseTheme {
    pub accent: Rgb,
    pub bg_secondary: Rgb,
    pub success: Rgb,
    pub danger: Rgb,
}

impl EnterpriseTheme {
    /// The fixed palette: accent #3182CE, secondary background #F5F7FA,
    /// success #38A169, danger #E53E3E.
    pub fn new() -> (t: EnterpriseTheme)
        ensures
            t.accent == (Rgb { red: 49, green: 130, blue: 206 }),
            t.bg_secondary == (Rgb { red: 245, green: 247, blue: 250 }),
            t.success == (Rgb { red: 56, green: 161, blue: 105 }),
            t.danger == (Rgb { red: 229, green: 62, blue: 62 }),
    {
        EnterpriseTheme {
            accent: Rgb { red: 49, green: 130, blue: 206 },
            bg_secondary: Rgb { red: 245, green: 247, blue: 250 },
            success: Rgb { red: 56, green: 161, blue: 105 },
            danger: Rgb { red: 229, green: 62, blue: 62 },
        }
    }
}

} // verus!

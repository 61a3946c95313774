//! The colour type of the frame buffer, as `embedded-graphics` defines it.
//!
//! A colour is carried through the library without being looked into. What
//! the contracts say about one, they say about the sixteen bits it is stored
//! as.

use embedded_graphics::pixelcolor::IntoStorage;
use embedded_graphics::pixelcolor::Rgb565;
use embedded_graphics::pixelcolor::RgbColor;
use vstd::prelude::*;

verus! {

/// `embedded_graphics::pixelcolor::Rgb565`, declared so that it can stand
/// in signatures and fields. Nothing is claimed of what is inside.
#[verifier::external_type_specification]
#[verifier::external_body]
pub struct ExRgb565(Rgb565);

/// What `IntoStorage::into_storage` returns for a colour: the sixteen bits it
/// is stored as, red in the top five, green in the middle six, blue in the
/// low five. Two calls on one colour return the same bits.
pub uninterp spec fn rgb565_bits(color: Rgb565) -> u16;

/// Bits of the colour a fresh frame buffer is filled with.
pub const DEFAULT_BITS: u16 = 0x0000;

/// Bits of pure white.
pub const WHITE_BITS: u16 = 0xFFFF;

/// Bits of pure blue.
pub const BLUE_BITS: u16 = 0x001F;

/// Calls `IntoStorage::into_storage` on an `Rgb565`. Not proved: that the
/// result is the colour's stored bits, which is what names them.
#[verifier::external_body]
pub(crate) fn storage(color: Rgb565) -> (bits: u16)
    ensures
        bits == rgb565_bits(color),
{
    color.into_storage()
}

/// Calls `Rgb565::default()`. Not proved: that the derived default of the
/// one-field struct stores all bits as zero, which is black.
#[verifier::external_body]
pub(crate) fn default_color() -> (color: Rgb565)
    ensures
        rgb565_bits(color) == DEFAULT_BITS,
{
    Rgb565::default()
}

/// Reads `Rgb565::WHITE`. Not proved: that white, every channel at its
/// maximum, stores every bit set.
#[verifier::external_body]
pub(crate) fn white() -> (color: Rgb565)
    ensures
        rgb565_bits(color) == WHITE_BITS,
{
    Rgb565::WHITE
}

/// Reads `Rgb565::BLUE`. Not proved: that blue stores the blue channel at
/// its maximum of 31 and nothing else.
#[verifier::external_body]
pub(crate) fn blue() -> (color: Rgb565)
    ensures
        rgb565_bits(color) == BLUE_BITS,
{
    Rgb565::BLUE
}

} // verus!

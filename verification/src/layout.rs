//! The sizing values that widgets carry: lengths, sizes, points, paddings and
//! alignments.
//!
//! A number of pixels is an `f32`; the widgets only store, compare with zero
//! and pass it on, so it is held here as the bit pattern of that `f32`
//! (`f32::to_bits`).
use vstd::prelude::*;

verus! {

/// An amount of logical pixels: the bit pattern of an `f32`.
#[derive(Debug, Clone, Copy, PartialEq, Eq, Structural)]
pub struct Pixels(pub u32);

/// The bit pattern of the `f32` number `0.0`.
pub const ZERO_BITS: u32 = 0u32;

/// The bit pattern of the `f32` number `100.0`.
pub const HUNDRED_BITS: u32 = 0x42C8_0000u32;

/// Whether the bits are those of an `f32` that equals `0.0` (`0.0` or
/// `-0.0`).
pub open spec fn is_zero_bits(bits: u32) -> bool {
    bits == 0 || bits == 0x8000_0000
}

/// The strategy used to fill space in a specific dimension.
#[derive(Debug, Clone, Copy, PartialEq, Eq, Structural)]
pub enum Length {
    /// Fill all the remaining space.
    Fill,
    /// Fill a portion of the remaining space relative to other elements.
    FillPortion(u16),
    /// Fill the least amount of space.
    Shrink,
    /// Fill a fixed amount of space (the bits of an `f32`).
    Fixed(u32),
}

/// The length that `enclose` gives: a shrinking length takes a filling one.
pub open spec fn enclosed(length: Length, other: Length) -> Length {
    match (length, other) {
        (Length::Shrink, Length::Fill) => other,
        (Length::Shrink, Length::FillPortion(_)) => other,
        _ => length,
    }
}

impl Length {
    /// Adapts the [`Length`] so it can contain the other [`Length`] and match
    /// its fluidity.
    pub fn enclose(self, other: Length) -> (r: Length)
        ensures
            r == enclosed(self, other),
    {
        match (self, other) {
            (Length::Shrink, Length::Fill) => other,
            (Length::Shrink, Length::FillPortion(_)) => other,
            _ => self,
        }
    }

    /// Whether the length is a fixed zero.
    pub fn is_fixed_zero(&self) -> (r: bool)
        ensures
            r == (*self matches Length::Fixed(b) && is_zero_bits(b)),
    {
        match self {
            Length::Fixed(b) => *b == 0 || *b == 0x8000_0000,
            _ => false,
        }
    }
}

/// An amount of space in two dimensions.
#[derive(Debug, Clone, Copy, PartialEq, Eq, Structural)]
pub struct Size {
    /// The width.
    pub width: Length,
    /// The height.
    pub height: Length,
}

/// Whether a size takes no room at all: one of its dimensions is a fixed
/// zero.
pub open spec fn is_void(size: Size) -> bool {
    (size.width matches Length::Fixed(b) && is_zero_bits(b)) || (size.height matches Length::Fixed(
        b,
    ) && is_zero_bits(b))
}

impl Size {
    /// Returns true if the size takes no room.
    pub fn is_void(&self) -> (r: bool)
        ensures
            r == is_void(*self),
    {
        self.width.is_fixed_zero() || self.height.is_fixed_zero()
    }
}

/// The width and height of a laid out widget, in logical pixels (the bits of
/// two `f32` numbers).
#[derive(Debug, Clone, Copy, PartialEq, Eq, Structural)]
pub struct Extent {
    /// The width.
    pub width: u32,
    /// The height.
    pub height: u32,
}

/// A 2D point (the bits of two `f32` coordinates).
#[derive(Debug, Clone, Copy, PartialEq, Eq, Structural)]
pub struct Point {
    /// The X coordinate.
    pub x: u32,
    /// The Y coordinate.
    pub y: u32,
}

/// An amount of space to pad for each side of a box (the bits of four `f32`
/// numbers).
#[derive(Debug, Clone, Copy, PartialEq, Eq, Structural)]
pub struct Padding {
    /// Top padding.
    pub top: u32,
    /// Right padding.
    pub right: u32,
    /// Bottom padding.
    pub bottom: u32,
    /// Left padding.
    pub left: u32,
}

impl Padding {
    /// No padding.
    pub fn zero() -> (r: Self)
        ensures
            r == (Padding { top: 0, right: 0, bottom: 0, left: 0 }),
    {
        Padding { top: 0, right: 0, bottom: 0, left: 0 }
    }
}

/// The horizontal alignment of some resource.
#[derive(Debug, Clone, Copy, PartialEq, Eq, Structural)]
pub enum Horizontal {
    /// Align left.
    Left,
    /// Horizontally centered.
    Center,
    /// Align right.
    Right,
}

/// The vertical alignment of some resource.
#[derive(Debug, Clone, Copy, PartialEq, Eq, Structural)]
pub enum Vertical {
    /// Align top.
    Top,
    /// Vertically centered.
    Center,
    /// Align bottom.
    Bottom,
}

/// The style class of a widget: the theme's default one, or one set by the
/// user.
#[derive(Debug, Clone, Copy, PartialEq, Eq)]
pub enum Class<S> {
    /// The default class of the theme.
    Default,
    /// A class given by the user.
    Custom(S),
}

} // verus!

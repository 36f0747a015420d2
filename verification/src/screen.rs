//! Screen dimensions and the derived light-culling tile grid.

use vstd::prelude::*;

verus! {

/// Size of one light-culling tile, in pixels, along each axis.
pub const LIGHT_TILE_SIZE: u32 = 16;

/// Largest texture dimension the device model accepts.  Keeping screen
/// and shadow sizes below this bound makes every size computation in
/// the crate fit comfortably in 64 bits.
pub const MAX_SCREEN_DIMENSION: u32 = 65536;

/// Pixel dimensions of the presentation surface or of a square shadow
/// map.  The scene layer measures in whole pixels, so the width and
/// height are plain integers.
#[derive(Clone, Copy, PartialEq, Eq, Structural, Debug)]
pub struct ScreenSize {
    pub width: u32,
    pub height: u32,
}

impl ScreenSize {
    /// A square size, as used for shadow maps.
    pub fn uniform(size: u32) -> (result: ScreenSize)
        ensures
            result.width == size,
            result.height == size,
    {
        ScreenSize { width: size, height: size }
    }

    /// True when both dimensions are positive and small enough for the
    /// size computations of the crate.
    pub open spec fn valid(self) -> bool {
        1 <= self.width <= MAX_SCREEN_DIMENSION && 1 <= self.height <= MAX_SCREEN_DIMENSION
    }
}

/// Pixel position of the pointer, measured from the top-left corner.
#[derive(Clone, Copy, PartialEq, Eq, Structural, Debug)]
pub struct ScreenPosition {
    pub left: u32,
    pub top: u32,
}

/// Mathematical ceiling division for non-negative operands.
pub open spec fn ceil_div(a: int, b: int) -> int
    recommends
        b > 0,
{
    (a + b - 1) / b
}

/// Number of light-culling tiles along each axis: the screen is split
/// into `LIGHT_TILE_SIZE`-pixel tiles and a partly covered tile counts.
pub fn calculate_light_tile_count(screen_size: ScreenSize) -> (result: (u32, u32))
    requires
        screen_size.width <= u32::MAX - LIGHT_TILE_SIZE,
        screen_size.height <= u32::MAX - LIGHT_TILE_SIZE,
    ensures
        result.0 == ceil_div(screen_size.width as int, LIGHT_TILE_SIZE as int),
        result.1 == ceil_div(screen_size.height as int, LIGHT_TILE_SIZE as int),
        LIGHT_TILE_SIZE * result.0 >= screen_size.width,
        LIGHT_TILE_SIZE * result.1 >= screen_size.height,
        screen_size.width >= 1 ==> result.0 >= 1 && LIGHT_TILE_SIZE * (result.0 - 1) < screen_size.width,
        screen_size.height >= 1 ==> result.1 >= 1 && LIGHT_TILE_SIZE * (result.1 - 1) < screen_size.height,
    {
    let tile_count_x = (screen_size.width + LIGHT_TILE_SIZE - 1) / LIGHT_TILE_SIZE;
    let tile_count_y = (screen_size.height + LIGHT_TILE_SIZE - 1) / LIGHT_TILE_SIZE;
    (tile_count_x, tile_count_y)
}

/// Rounds `size` up to the next multiple of `alignment`.
///
/// Devices state alignment limits as powers of two and round with bit
/// masks; for positive alignments the arithmetic form below computes
/// the same value and is the one the proofs reason about.
pub fn align_up(size: u64, alignment: u64) -> (result: u64)
    requires
        alignment >= 1,
        size <= u64::MAX - alignment,
    ensures
        result == ceil_div(size as int, alignment as int) * alignment,
        result >= size,
        result < size + alignment,
        result as int % alignment as int == 0,
{
    let rounded: u64 = (size + alignment - 1) / alignment;
    proof {
        lemma_align_up_properties(size as int, alignment as int);
    }
    rounded * alignment
}

/// Facts about rounding up to a multiple: the rounded value is a
/// multiple of the alignment and lies within one alignment above the
/// original size.
pub proof fn lemma_align_up_properties(size: int, alignment: int)
    requires
        size >= 0,
        alignment >= 1,
    ensures
        ceil_div(size, alignment) * alignment >= size,
        ceil_div(size, alignment) * alignment < size + alignment,
        (ceil_div(size, alignment) * alignment) % alignment == 0,
{
    let q = ceil_div(size, alignment);
    vstd::arithmetic::div_mod::lemma_fundamental_div_mod(size + alignment - 1, alignment);
    vstd::arithmetic::div_mod::lemma_mod_bound(size + alignment - 1, alignment);
    assert(q * alignment >= size) by (nonlinear_arith)
        requires
            alignment >= 1,
            size >= 0,
            q == (size + alignment - 1) / alignment,
            size + alignment - 1 == alignment * q + (size + alignment - 1) % alignment,
            0 <= (size + alignment - 1) % alignment < alignment,
    ;
    assert(q * alignment < size + alignment) by (nonlinear_arith)
        requires
            alignment >= 1,
            size >= 0,
            q == (size + alignment - 1) / alignment,
            size + alignment - 1 == alignment * q + (size + alignment - 1) % alignment,
            0 <= (size + alignment - 1) % alignment < alignment,
    ;
    vstd::arithmetic::div_mod::lemma_mod_multiples_basic(q, alignment);
}

} // verus!

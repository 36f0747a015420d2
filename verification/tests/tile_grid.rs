//! The light-culling tile grid and the sizing helpers.

use render_core::context::picker_padded_width;
use render_core::screen::{align_up, calculate_light_tile_count, ScreenSize};

fn size(width: u32, height: u32) -> ScreenSize {
    ScreenSize { width, height }
}

#[test]
fn tile_count_full_hd() {
    let (x, y) = calculate_light_tile_count(size(1920, 1080));
    assert_eq!(x, 120);
    assert_eq!(y, 68);
}

#[test]
fn tile_count_small_screen() {
    let (x, y) = calculate_light_tile_count(size(800, 600));
    assert_eq!(x, 50);
    assert_eq!(y, 38);
}

#[test]
fn tile_count_rounds_partial_tiles_up() {
    let (x, y) = calculate_light_tile_count(size(17, 16));
    assert_eq!(x, 2);
    assert_eq!(y, 1);
}

#[test]
fn tile_count_minimum_one_per_axis() {
    let (x, y) = calculate_light_tile_count(size(1, 1));
    assert_eq!(x, 1);
    assert_eq!(y, 1);
}

#[test]
fn align_up_exact_multiple_is_kept() {
    assert_eq!(align_up(96, 32), 96);
    assert_eq!(align_up(256, 256), 256);
}

#[test]
fn align_up_rounds_to_next_multiple() {
    assert_eq!(align_up(96, 256), 256);
    assert_eq!(align_up(97, 32), 128);
    assert_eq!(align_up(1, 64), 64);
}

#[test]
fn picker_width_already_aligned() {
    // 1920 texels of 8 bytes are 15360 bytes, a multiple of 256.
    assert_eq!(picker_padded_width(1920), 1920);
}

#[test]
fn picker_width_padded_to_row_alignment() {
    // 1000 texels are 8000 bytes; the next 256-byte multiple is 8192
    // bytes, which are 1024 texels.
    assert_eq!(picker_padded_width(1000), 1024);
    assert_eq!(picker_padded_width(1), 32);
}

//! The pixel grid: rows from the top of the frame, each from left to right,
//! and the place of every pixel in the row-major buffer.

use vstd::prelude::*;
use vstd::arithmetic::div_mod::{
    lemma_fundamental_div_mod,
    lemma_fundamental_div_mod_converse,
    lemma_multiply_divide_lt,
};
use crate::config::Config;

verus! {

/// The number of pixels of an image.
pub open spec fn pixels(config: Config) -> nat {
    (config.width * config.height) as nat
}

/// The place in the buffer of the pixel in column `x` of row `y`.
pub open spec fn index_of(config: Config, x: int, y: int) -> int {
    y * config.width + x
}

/// The column of the pixel at `index`.
pub open spec fn column_of(config: Config, index: int) -> int {
    index % (config.width as int)
}

/// The row of the pixel at `index`.
pub open spec fn row_of(config: Config, index: int) -> int {
    index / (config.width as int)
}

pub fn pixel_count(config: &Config) -> (n: u64)
    ensures
        n == pixels(*config),
{
    let w: u64 = config.width as u64;
    let h: u64 = config.height as u64;
    assert(w * h <= 0xffff_ffff * 0xffff_ffff) by (nonlinear_arith)
        requires
            0 <= w <= 0xffff_ffff,
            0 <= h <= 0xffff_ffff,
    ;
    w * h
}

/// The place in the buffer of the pixel in column `x` of row `y`.
pub fn pixel_index(config: &Config, x: u32, y: u32) -> (index: u64)
    ensures
        index == index_of(*config, x as int, y as int),
{
    let w: u64 = config.width as u64;
    let row: u64 = y as u64;
    assert(row * w <= 0xffff_ffff * 0xffff_ffff) by (nonlinear_arith)
        requires
            0 <= w <= 0xffff_ffff,
            0 <= row <= 0xffff_ffff,
    ;
    row * w + x as u64
}

/// The column and the row of the pixel at `index`.
pub fn pixel_at(config: &Config, index: u64) -> (at: (u32, u32))
    requires
        index < pixels(*config),
    ensures
        at.0 == column_of(*config, index as int),
        at.1 == row_of(*config, index as int),
        at.0 < config.width,
        at.1 < config.height,
        index_of(*config, at.0 as int, at.1 as int) == index,
{
    let w: u64 = config.width as u64;
    proof {
        assert(w != 0) by (nonlinear_arith)
            requires
                index < w * config.height,
                w >= 0,
        ;
        lemma_fundamental_div_mod(index as int, w as int);
        lemma_multiply_divide_lt(index as int, w as int, config.height as int);
        assert(w * (index / w) == (index / w) * w) by (nonlinear_arith);
    }
    let x: u64 = index % w;
    let y: u64 = (index - x) / w;
    assert(y == index / w) by {
        lemma_fundamental_div_mod_converse((index - x) as int, w as int, (index / w) as int, 0);
    }
    (x as u32, y as u32)
}

/// How far the top of row `y` lies above the bottom of the frame, in rows:
/// the whole height for the first row, one for the last.
pub fn plane_row(config: &Config, y: u32) -> (rows: u32)
    requires
        y <= config.height,
    ensures
        rows == config.height - y,
{
    config.height - y
}

/// Every pixel inside the frame has a place inside the buffer.
pub proof fn lemma_index_in_buffer(config: Config, x: int, y: int)
    requires
        0 <= x < config.width,
        0 <= y < config.height,
    ensures
        0 <= index_of(config, x, y) < pixels(config),
{
    assert(y * config.width + x < config.width * config.height) by (nonlinear_arith)
        requires
            0 <= x < config.width,
            0 <= y < config.height,
    ;
    assert(0 <= y * config.width) by (nonlinear_arith)
        requires
            0 <= y,
            0 <= config.width,
    ;
}

/// The pixel at the place of column `x` in row `y` is that one.
pub proof fn lemma_pixel_of_index(config: Config, x: int, y: int)
    requires
        0 <= x < config.width,
    ensures
        column_of(config, index_of(config, x, y)) == x,
        row_of(config, index_of(config, x, y)) == y,
{
    lemma_fundamental_div_mod_converse(index_of(config, x, y), config.width as int, y, x);
}

/// The place of the pixel at `index` is `index`.
pub proof fn lemma_index_of_pixel(config: Config, index: int)
    requires
        config.width > 0,
    ensures
        index_of(config, column_of(config, index), row_of(config, index)) == index,
{
    lemma_fundamental_div_mod(index, config.width as int);
    assert(config.width * (index / (config.width as int)) == (index / (config.width as int))
        * config.width) by (nonlinear_arith);
}

/// The buffer is in row-major order: one pixel comes before another exactly
/// when it is in a row above, or in the same row to the left.
pub proof fn lemma_row_major(config: Config, x1: int, y1: int, x2: int, y2: int)
    requires
        0 <= x1 < config.width,
        0 <= x2 < config.width,
    ensures
        index_of(config, x1, y1) < index_of(config, x2, y2) <==> (y1 < y2 || (y1 == y2 && x1 < x2)),
{
    let w = config.width as int;
    if y1 < y2 {
        assert(y1 * w + w <= y2 * w) by (nonlinear_arith)
            requires
                y1 < y2,
                w > 0,
        ;
    } else if y2 < y1 {
        assert(y2 * w + w <= y1 * w) by (nonlinear_arith)
            requires
                y2 < y1,
                w > 0,
        ;
    }
}

} // verus!

//! Limits of the editor font size.

use vstd::prelude::*;

verus! {

/// Font size of a fresh editor, and the size a reset returns to.
pub const DEFAULT_EDITOR_FONT_SIZE: u32 = 16;

/// Largest font size the editor takes.
pub const MAX_EDITOR_FONT_SIZE: u32 = 80;

/// Smallest font size the editor takes.
pub const MIN_EDITOR_FONT_SIZE: u32 = 12;

/// How far one "increase" or "decrease" moves the font size.
pub const EDITOR_FONT_SIZE_STEP: u32 = 2;

/// Whether `size` lies between the smallest and the largest font size, both included.
pub open spec fn font_size_in_range(size: int) -> bool {
    MIN_EDITOR_FONT_SIZE <= size <= MAX_EDITOR_FONT_SIZE
}

/// The font size one step above `size`, held at the largest size.
pub open spec fn font_size_above(size: int) -> int {
    if size + EDITOR_FONT_SIZE_STEP <= MAX_EDITOR_FONT_SIZE {
        size + EDITOR_FONT_SIZE_STEP
    } else {
        MAX_EDITOR_FONT_SIZE as int
    }
}

/// The font size one step below `size`, held at the smallest size.
pub open spec fn font_size_below(size: int) -> int {
    if size - EDITOR_FONT_SIZE_STEP >= MIN_EDITOR_FONT_SIZE {
        size - EDITOR_FONT_SIZE_STEP
    } else {
        MIN_EDITOR_FONT_SIZE as int
    }
}

/// Computes the font size one step above `size`.
pub fn larger_font_size(size: u32) -> (next: u32)
    requires
        font_size_in_range(size as int),
    ensures
        next == font_size_above(size as int),
        font_size_in_range(next as int),
        size <= next,
{
    if size <= MAX_EDITOR_FONT_SIZE - EDITOR_FONT_SIZE_STEP {
        size + EDITOR_FONT_SIZE_STEP
    } else {
        MAX_EDITOR_FONT_SIZE
    }
}

/// Computes the font size one step below `size`.
pub fn smaller_font_size(size: u32) -> (next: u32)
    requires
        font_size_in_range(size as int),
    ensures
        next == font_size_below(size as int),
        font_size_in_range(next as int),
        next <= size,
{
    if size >= MIN_EDITOR_FONT_SIZE + EDITOR_FONT_SIZE_STEP {
        size - EDITOR_FONT_SIZE_STEP
    } else {
        MIN_EDITOR_FONT_SIZE
    }
}

} // verus!

//! The optimisation level table for the lossless format.

use vstd::prelude::*;

verus! {

/// The optimisation level that a quality setting selects.
///
/// Five bands of ten qualities each select a level of their own. Level 4 is
/// deliberately absent from the table. Every other quality, which includes 0,
/// the qualities from 1 to 39, every negative number and everything from 90
/// upwards, selects level 0.
pub open spec fn png_level(quality: int) -> int {
    if 40 <= quality <= 49 {
        1
    } else if 50 <= quality <= 59 {
        2
    } else if 60 <= quality <= 69 {
        3
    } else if 70 <= quality <= 79 {
        5
    } else if 80 <= quality <= 89 {
        6
    } else {
        0
    }
}

/// Whether `level` is one of the six levels that the table can select.
pub open spec fn is_png_level(level: int) -> bool {
    level == 0 || level == 1 || level == 2 || level == 3 || level == 5 || level == 6
}

/// Maps a quality setting to the optimisation level of the lossless format.
pub fn get_png_level(quality: i32) -> (level: u32)
    ensures
        level == png_level(quality as int),
{
    if quality < 40 {
        0
    } else if quality < 50 {
        1
    } else if quality < 60 {
        2
    } else if quality < 70 {
        3
    } else if quality < 80 {
        5
    } else if quality < 90 {
        6
    } else {
        0
    }
}

/// The shape of the level table: the low band and everything outside the
/// bands select level 0, the band from 80 to 89 selects level 6, and no
/// quality at all selects level 4.
pub proof fn lemma_level_table(quality: int)
    ensures
        1 <= quality < 39 ==> png_level(quality) == 0,
        80 <= quality <= 89 ==> png_level(quality) == 6,
        quality <= 0 || quality >= 90 ==> png_level(quality) == 0,
        png_level(quality) != 4,
        is_png_level(png_level(quality)),
{
}

} // verus!

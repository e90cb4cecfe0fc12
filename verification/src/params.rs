//! Unpacking of the two integer parameters that accompany a window message.

use vstd::prelude::*;

verus! {

/// The integer that a 16-bit pattern denotes in two's complement.
pub open spec fn signed16(word: int) -> int {
    if word < 0x8000 {
        word
    } else {
        word - 0x1_0000
    }
}

/// The integer that a 32-bit pattern denotes in two's complement.
pub open spec fn signed32(dword: int) -> int {
    if dword < 0x8000_0000 {
        dword
    } else {
        dword - 0x1_0000_0000
    }
}

/// Bits 0 to 15 of `value`.
pub open spec fn low_word(value: int) -> int {
    value % 0x1_0000
}

/// Bits 16 to 31 of `value`.
pub open spec fn high_word(value: int) -> int {
    (value / 0x1_0000) % 0x1_0000
}

/// Bits 0 to 31 of `value`.
pub open spec fn low_dword(value: int) -> int {
    value % 0x1_0000_0000
}

/// The 32-bit signed integer that is congruent to `value`: `value` itself where
/// it fits.
pub open spec fn wrapped32(value: int) -> int {
    signed32(low_dword(value))
}

/// The low doubleword that carries the point (`x`, `y`) in a mouse message.
pub open spec fn packed_point(x: int, y: int) -> int {
    x % 0x1_0000 + 0x1_0000 * (y % 0x1_0000)
}

/// Truncation to 32 bits keeps the low doubleword.
proof fn lemma_truncate_isize(l: isize)
    ensures
        l as u32 == low_dword(l as int),
{
    let wide = l as i64;
    assert(l as u32 == (l as i64) as u32) by (bit_vector);
    assert(wide as u32 == wide % 0x1_0000_0000i64) by (bit_vector);
}

/// A 16-bit pattern read as a signed integer.
proof fn lemma_signed16(word: u16)
    ensures
        word as i16 as i32 == signed16(word as int),
{
    assert(word as i16 as i32 == if word < 0x8000 {
        word as int
    } else {
        word - 0x1_0000
    }) by (bit_vector);
}

/// Extracts the signed x coordinate from a packed `LPARAM`.
///
/// Coordinates are negative on a monitor to the left of the primary one.
pub fn lp_x(l: isize) -> (x: i32)
    ensures
        x == signed16(low_word(l as int)),
{
    proof {
        let dword = l as u32;
        lemma_truncate_isize(l);
        lemma_signed16(dword as u16);
        assert(dword as u16 == dword % 0x1_0000) by (bit_vector);
    }
    (l as u32 as u16) as i16 as i32
}

/// Extracts the signed y coordinate from a packed `LPARAM`.
pub fn lp_y(l: isize) -> (y: i32)
    ensures
        y == signed16(high_word(l as int)),
{
    proof {
        let dword = l as u32;
        lemma_truncate_isize(l);
        lemma_signed16((dword >> 16) as u16);
        assert((dword >> 16) as u16 == (dword / 0x1_0000) % 0x1_0000) by (bit_vector);
    }
    ((l as u32 >> 16) as u16) as i16 as i32
}

/// The low word of a `WPARAM`.
pub fn loword(value: usize) -> (word: usize)
    ensures
        word == low_word(value as int),
{
    assert(value & 0xFFFF == value % 0x1_0000) by (bit_vector);
    value & 0xFFFF
}

/// The identifier that a hotkey message carries in its `WPARAM`.
pub fn hotkey_id(wp: usize) -> (id: i32)
    ensures
        id == signed32(low_dword(wp as int)),
{
    proof {
        let wide = wp as u64;
        let dword = (wide % 0x1_0000_0000) as u32;
        assert(wp as i32 == (wp as u64) as i32) by (bit_vector);
        assert(wide as i32 == (wide % 0x1_0000_0000) as u32 as i32) by (bit_vector);
        assert(dword as i32 == if dword < 0x8000_0000 {
            dword as int
        } else {
            dword - 0x1_0000_0000
        }) by (bit_vector);
    }
    wp as i32
}

/// The mouse event that a tray notification carries in the low word of its
/// `LPARAM`. The high word holds the icon's identifier, or zero where the
/// notification area keeps to its oldest behaviour.
pub fn tray_event(lp: isize) -> (event: u32)
    ensures
        event == low_word(lp as int),
{
    proof {
        let dword = lp as u32;
        lemma_truncate_isize(lp);
        assert(dword & 0xFFFF == dword % 0x1_0000) by (bit_vector);
    }
    lp as u32 & 0xFFFF
}

/// A point packed into the low 32 bits of an `LPARAM` is read back unchanged,
/// negative coordinates included and whatever the upper bits hold.
pub proof fn law_packed_point_is_read_back(l: isize, x: i16, y: i16)
    requires
        low_dword(l as int) == packed_point(x as int, y as int),
    ensures
        signed16(low_word(l as int)) == x,
        signed16(high_word(l as int)) == y,
{
}

/// A word taken out of a value is congruent to it, and within its own range:
/// signed words are the coordinates of a point, unsigned ones identifiers.
pub proof fn law_words_are_congruent(value: int)
    ensures
        0 <= low_word(value) < 0x1_0000,
        (value - low_word(value)) % 0x1_0000 == 0,
        -0x8000 <= signed16(low_word(value)) < 0x8000,
        (value - signed16(low_word(value))) % 0x1_0000 == 0,
        0 <= high_word(value) < 0x1_0000,
        (value - low_word(value) - 0x1_0000 * high_word(value)) % 0x1_0000_0000 == 0,
        -0x8000 <= signed16(high_word(value)) < 0x8000,
        (high_word(value) - signed16(high_word(value))) % 0x1_0000 == 0,
        0 <= low_dword(value) < 0x1_0000_0000,
        (value - low_dword(value)) % 0x1_0000_0000 == 0,
{
}

/// A value wraps around to a congruent one that fits, and stays as it is where it
/// fits already.
pub proof fn law_wrapping(value: int)
    ensures
        -0x8000_0000 <= wrapped32(value) < 0x8000_0000,
        (value - wrapped32(value)) % 0x1_0000_0000 == 0,
        -0x8000_0000 <= value < 0x8000_0000 ==> wrapped32(value) == value,
        wrapped32(value) == signed32(low_dword(value)),
{
}

} // verus!

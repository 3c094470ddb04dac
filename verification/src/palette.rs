use vstd::prelude::*;

verus! {

use crate::role::IntervalRole;
use crate::role::ONE_BITS;

/// Colors are RGB triples of binary32 patterns. For a pattern with the
/// sign bit clear, integer order on patterns is numeric order on the
/// encoded values, so a component is in the unit interval `[0, 1]`
/// exactly when its pattern is at most that of 1.0.
pub open spec fn unit_component(bits: u32) -> bool {
    bits <= ONE_BITS
}

/// All three components of the color lie in the unit interval.
pub open spec fn unit_rgb(c: (u32, u32, u32)) -> bool {
    unit_component(c.0) && unit_component(c.1) && unit_component(c.2)
}

/// Number of entries in the role-color palette, one per interval role.
pub const ROLE_COLOR_COUNT: usize = 9;

/// Number of entries in the rainbow gradient palette.
pub const RAINBOW_COUNT: usize = 12;

/// The role-color palette: row `i` is the color of the role with ordinal
/// `i`. Rows beyond the palette are black.
pub open spec fn role_color_bits_at(i: int) -> (u32, u32, u32) {
    if i == 0 {
        (0x3F4C_8B44u32, 0x3F04_DD2Fu32, 0x3E9B_A5E3u32)  // 0.799 0.519 0.304
    } else if i == 1 {
        (0x3F61_0625u32, 0x3E97_0A3Du32, 0x3EBF_7CEEu32)  // 0.879 0.295 0.374
    } else if i == 2 {
        (0x3E5C_28F6u32, 0x3F21_0625u32, 0x3F3F_3B64u32)  // 0.215 0.629 0.747
    } else if i == 3 {
        (0x3F1E_353Fu32, 0x3E01_0625u32, 0x3F46_A7F0u32)  // 0.618 0.126 0.776
    } else if i == 4 {
        (0x3F2B_851Fu32, 0x3F20_8312u32, 0x3ECB_C6A8u32)  // 0.670 0.627 0.398
    } else if i == 5 {
        (0x3E77_CED9u32, 0x3F61_0625u32, 0x3ED1_EB85u32)  // 0.242 0.879 0.410
    } else if i == 6 {
        (0x3F1C_ED91u32, 0x3F31_26E9u32, 0x3EC3_9581u32)  // 0.613 0.692 0.382
    } else if i == 7 {
        (0x3F34_7AE1u32, 0x3F35_8106u32, 0x3C9B_A5E3u32)  // 0.705 0.709 0.019
    } else if i == 8 {
        (0x3F13_B646u32, 0x3F13_B646u32, 0x3F13_B646u32)  // 0.577 0.577 0.577
    } else {
        (0u32, 0u32, 0u32)
    }
}

/// The rainbow gradient palette for continuous-value visualization, from
/// blue at row 0 to red at row 11. Rows beyond the palette are black.
pub open spec fn rainbow_bits_at(i: int) -> (u32, u32, u32) {
    if i == 0 {
        (0x3E0C_985Fu32, 0x3E24_A8C1u32, 0x3F77_F62Bu32)  // 0.1373 0.1608 0.9686
    } else if i == 1 {
        (0x0000_0000u32, 0x3EF6_FD22u32, 0x3F80_0000u32)  // 0.0000 0.4824 1.0000
    } else if i == 2 {
        (0x0000_0000u32, 0x3F25_A858u32, 0x3F80_0000u32)  // 0.0000 0.6471 1.0000
    } else if i == 3 {
        (0x0000_0000u32, 0x3F44_C2F8u32, 0x3F57_D567u32)  // 0.0000 0.7686 0.8431
    } else if i == 4 {
        (0x0000_0000u32, 0x3F5D_E00Du32, 0x3F2D_AB9Fu32)  // 0.0000 0.8667 0.6784
    } else if i == 5 {
        (0x3E9C_9EEDu32, 0x3F5D_E00Du32, 0x3F03_81D8u32)  // 0.3059 0.8667 0.5137
    } else if i == 6 {
        (0x3F00_8312u32, 0x3F5A_DABAu32, 0x3EA4_A8C1u32)  // 0.5020 0.8549 0.3216
    } else if i == 7 {
        (0x3F2F_B15Bu32, 0x3F52_D0E5u32, 0x0000_0000u32)  // 0.6863 0.8235 0.0000
    } else if i == 8 {
        (0x3F54_D6A1u32, 0x3F35_B574u32, 0x0000_0000u32)  // 0.8314 0.7098 0.0000
    } else if i == 9 {
        (0x3F6D_ED29u32, 0x3F14_9518u32, 0x0000_0000u32)  // 0.9294 0.5804 0.0000
    } else if i == 10 {
        (0x3F7B_FB16u32, 0x3EE2_DE01u32, 0x3E28_A71Eu32)  // 0.9843 0.4431 0.1647
    } else if i == 11 {
        (0x3F7C_FAADu32, 0x3E9A_9FBEu32, 0x3E9A_9FBEu32)  // 0.9882 0.3020 0.3020
    } else {
        (0u32, 0u32, 0u32)
    }
}

/// The color of attenuated intervals: black.
pub fn attenuated_color_bits() -> (c: (u32, u32, u32))
    ensures
        c == (0u32, 0u32, 0u32),
{
    (0, 0, 0)
}

/// The color of slack intervals: pure green.
pub fn slack_color_bits() -> (c: (u32, u32, u32))
    ensures
        c == (0u32, ONE_BITS, 0u32),
{
    (0, ONE_BITS, 0)
}

/// Returns the palette color of `role`: the row of the role-color palette
/// at the role's ordinal.
pub fn role_color_bits(role: IntervalRole) -> (c: (u32, u32, u32))
    ensures
        c == role_color_bits_at(role.ordinal() as int),
        unit_rgb(c),
{
    match role {
        IntervalRole::NexusPush => (0x3F4C_8B44, 0x3F04_DD2F, 0x3E9B_A5E3),
        IntervalRole::ColumnPush => (0x3F61_0625, 0x3E97_0A3D, 0x3EBF_7CEE),
        IntervalRole::Triangle => (0x3E5C_28F6, 0x3F21_0625, 0x3F3F_3B64),
        IntervalRole::Ring => (0x3F1E_353F, 0x3E01_0625, 0x3F46_A7F0),
        IntervalRole::NexusCross => (0x3F2B_851F, 0x3F20_8312, 0x3ECB_C6A8),
        IntervalRole::ColumnCross => (0x3E77_CED9, 0x3F61_0625, 0x3ED1_EB85),
        IntervalRole::BowMid => (0x3F1C_ED91, 0x3F31_26E9, 0x3EC3_9581),
        IntervalRole::BowEnd => (0x3F34_7AE1, 0x3F35_8106, 0x3C9B_A5E3),
        IntervalRole::FacePull => (0x3F13_B646, 0x3F13_B646, 0x3F13_B646),
    }
}

/// Returns the rainbow gradient color at `index`.
pub fn rainbow_color_bits(index: usize) -> (c: (u32, u32, u32))
    requires
        index < RAINBOW_COUNT,
    ensures
        c == rainbow_bits_at(index as int),
        unit_rgb(c),
{
    if index == 0 {
        (0x3E0C_985F, 0x3E24_A8C1, 0x3F77_F62B)
    } else if index == 1 {
        (0x0000_0000, 0x3EF6_FD22, 0x3F80_0000)
    } else if index == 2 {
        (0x0000_0000, 0x3F25_A858, 0x3F80_0000)
    } else if index == 3 {
        (0x0000_0000, 0x3F44_C2F8, 0x3F57_D567)
    } else if index == 4 {
        (0x0000_0000, 0x3F5D_E00D, 0x3F2D_AB9F)
    } else if index == 5 {
        (0x3E9C_9EED, 0x3F5D_E00D, 0x3F03_81D8)
    } else if index == 6 {
        (0x3F00_8312, 0x3F5A_DABA, 0x3EA4_A8C1)
    } else if index == 7 {
        (0x3F2F_B15B, 0x3F52_D0E5, 0x0000_0000)
    } else if index == 8 {
        (0x3F54_D6A1, 0x3F35_B574, 0x0000_0000)
    } else if index == 9 {
        (0x3F6D_ED29, 0x3F14_9518, 0x0000_0000)
    } else if index == 10 {
        (0x3F7B_FB16, 0x3EE2_DE01, 0x3E28_A71E)
    } else {
        (0x3F7C_FAAD, 0x3E9A_9FBE, 0x3E9A_9FBE)
    }
}

/// Law: both palettes lie in the unit color cube. Every component of
/// every row of the role-color palette and of the rainbow palette
/// encodes a value in `[0, 1]`.
pub proof fn lemma_palettes_in_unit_range()
    ensures
        forall|i: int| 0 <= i < ROLE_COLOR_COUNT ==> unit_rgb(#[trigger] role_color_bits_at(i)),
        forall|i: int| 0 <= i < RAINBOW_COUNT ==> unit_rgb(#[trigger] rainbow_bits_at(i)),
{
}

} // verus!

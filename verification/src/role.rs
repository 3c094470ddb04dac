use vstd::prelude::*;

verus! {

/// Kind of a structural member (interval) connecting two joints of a
/// tensegrity structure. Every role but `FacePull` has one nominal rest
/// length derived from fixed geometric constants; a face-pull interval has
/// no geometric default and its length is always supplied by the caller.
#[derive(Clone, Copy, Debug, Hash, PartialEq, Eq, Structural)]
pub enum IntervalRole {
    NexusPush,
    ColumnPush,
    Triangle,
    Ring,
    NexusCross,
    ColumnCross,
    BowMid,
    BowEnd,
    FacePull,
}

/// Number of interval roles.
pub const INTERVAL_ROLE_COUNT: u8 = 9;

/// Binary32 pattern of 1.0, the unit rest length.
pub const ONE_BITS: u32 = 0x3F80_0000;

/// Binary32 pattern of the square root of 2, 1.4142135…
pub const ROOT2_BITS: u32 = 0x3FB5_04F3;

/// Binary32 pattern of the square root of 3, 1.7320508…
pub const ROOT3_BITS: u32 = 0x3FDD_B3D7;

/// Binary32 pattern of the square root of 5, 2.2360680…
pub const ROOT5_BITS: u32 = 0x400F_1BBD;

/// Binary32 pattern of the golden ratio `(1 + √5) / 2`, 1.6180340…
pub const PHI_BITS: u32 = 0x3FCF_1BBD;

/// Binary32 pattern of the first nexus-cross coordinate, 0.5.
pub const CROSS1_BITS: u32 = 0x3F00_0000;

/// Binary32 pattern of the second nexus-cross coordinate
/// `(PHI/3 − 1/6)·√3`, 0.6454972…, evaluated in single precision.
pub const CROSS2_BITS: u32 = 0x3F25_3F4E;

/// Binary32 pattern of the third nexus-cross coordinate
/// `PHI/3·√3 − 1 + √2/√3`, 0.7506689…, evaluated in single precision.
pub const CROSS3_BITS: u32 = 0x3F40_2BD7;

/// Binary32 pattern of the ring rest length `√(2 − 2·√(2/3))`,
/// 0.6058108…, evaluated in single precision.
pub const RING_LENGTH_BITS: u32 = 0x3F1B_166B;

/// Binary32 pattern of the nexus-cross rest length
/// `√(CROSS1² + CROSS2² + CROSS3²)`, 1.1091305…, evaluated in single
/// precision.
pub const NEXUS_CROSS_LENGTH_BITS: u32 = 0x3F8D_F7FD;

/// Binary32 pattern of the bow-mid rest length 0.4.
pub const BOW_MID_LENGTH_BITS: u32 = 0x3ECC_CCCD;

/// Binary32 pattern of the bow-end rest length 0.6.
pub const BOW_END_LENGTH_BITS: u32 = 0x3F19_999A;

/// The nominal rest length of each role, as the binary32 pattern of the
/// derived single-precision value; `None` for `FacePull`, which has no
/// geometric default.
pub open spec fn rest_length_bits(role: IntervalRole) -> Option<u32> {
    match role {
        IntervalRole::NexusPush => Some(PHI_BITS),
        IntervalRole::ColumnPush => Some(ROOT2_BITS),
        IntervalRole::Triangle => Some(ONE_BITS),
        IntervalRole::Ring => Some(RING_LENGTH_BITS),
        IntervalRole::NexusCross => Some(NEXUS_CROSS_LENGTH_BITS),
        IntervalRole::ColumnCross => Some(ONE_BITS),
        IntervalRole::BowMid => Some(BOW_MID_LENGTH_BITS),
        IntervalRole::BowEnd => Some(BOW_END_LENGTH_BITS),
        IntervalRole::FacePull => None,
    }
}

/// Returns the nominal rest length of `role` as a binary32 pattern, or
/// `None` for `FacePull`, whose length callers must supply themselves.
pub fn default_rest_length_bits(role: IntervalRole) -> (r: Option<u32>)
    ensures
        r == rest_length_bits(role),
        r is Some <==> role != IntervalRole::FacePull,
{
    match role {
        IntervalRole::NexusPush => Some(PHI_BITS),
        IntervalRole::ColumnPush => Some(ROOT2_BITS),
        IntervalRole::Triangle => Some(ONE_BITS),
        IntervalRole::Ring => Some(RING_LENGTH_BITS),
        IntervalRole::NexusCross => Some(NEXUS_CROSS_LENGTH_BITS),
        IntervalRole::ColumnCross => Some(ONE_BITS),
        IntervalRole::BowMid => Some(BOW_MID_LENGTH_BITS),
        IntervalRole::BowEnd => Some(BOW_END_LENGTH_BITS),
        IntervalRole::FacePull => None,
    }
}

impl IntervalRole {
    /// Position of the role in declaration order, also its stable
    /// small-integer tag across the host boundary and its row in the
    /// role-color palette.
    pub open spec fn ordinal(self) -> u8 {
        match self {
            IntervalRole::NexusPush => 0u8,
            IntervalRole::ColumnPush => 1u8,
            IntervalRole::Triangle => 2u8,
            IntervalRole::Ring => 3u8,
            IntervalRole::NexusCross => 4u8,
            IntervalRole::ColumnCross => 5u8,
            IntervalRole::BowMid => 6u8,
            IntervalRole::BowEnd => 7u8,
            IntervalRole::FacePull => 8u8,
        }
    }

    /// Returns the role's stable tag.
    pub fn tag(self) -> (t: u8)
        ensures
            t == self.ordinal(),
    {
        match self {
            IntervalRole::NexusPush => 0u8,
            IntervalRole::ColumnPush => 1u8,
            IntervalRole::Triangle => 2u8,
            IntervalRole::Ring => 3u8,
            IntervalRole::NexusCross => 4u8,
            IntervalRole::ColumnCross => 5u8,
            IntervalRole::BowMid => 6u8,
            IntervalRole::BowEnd => 7u8,
            IntervalRole::FacePull => 8u8,
        }
    }

    /// Recovers a role from its tag. An out-of-range tag is rejected,
    /// never mapped to a default role.
    pub fn from_tag(t: u8) -> (r: Option<IntervalRole>)
        ensures
            r is Some <==> t < INTERVAL_ROLE_COUNT,
            r matches Some(role) ==> role.ordinal() == t,
            forall|role: IntervalRole| #[trigger] role.ordinal() == t ==> r == Some(role),
    {
        if t == 0 {
            Some(IntervalRole::NexusPush)
        } else if t == 1 {
            Some(IntervalRole::ColumnPush)
        } else if t == 2 {
            Some(IntervalRole::Triangle)
        } else if t == 3 {
            Some(IntervalRole::Ring)
        } else if t == 4 {
            Some(IntervalRole::NexusCross)
        } else if t == 5 {
            Some(IntervalRole::ColumnCross)
        } else if t == 6 {
            Some(IntervalRole::BowMid)
        } else if t == 7 {
            Some(IntervalRole::BowEnd)
        } else if t == 8 {
            Some(IntervalRole::FacePull)
        } else {
            None
        }
    }
}

/// Law: no two distinct roles share an ordinal, and every ordinal is
/// below `INTERVAL_ROLE_COUNT`, so tags identify roles uniquely.
pub proof fn lemma_role_ordinal_injective()
    ensures
        forall|r: IntervalRole| #[trigger] r.ordinal() < INTERVAL_ROLE_COUNT,
        forall|a: IntervalRole, b: IntervalRole| a.ordinal() == b.ordinal() ==> a == b,
{
}

} // verus!

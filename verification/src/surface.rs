use vstd::prelude::*;

verus! {

/// Contact behaviour of the surface a structure rests on, read by the
/// collision and rendering logic. A pure tag: it carries no numeric
/// payload in this crate.
#[derive(Clone, Copy, Debug, PartialEq, Eq, Structural)]
pub enum SurfaceCharacter {
    Frozen,
    Sticky,
    Slippery,
    Bouncy,
}

/// Number of surface characters.
pub const SURFACE_CHARACTER_COUNT: u8 = 4;

impl SurfaceCharacter {
    /// Position of the character in declaration order, also its stable
    /// small-integer tag across the host boundary.
    pub open spec fn ordinal(self) -> u8 {
        match self {
            SurfaceCharacter::Frozen => 0u8,
            SurfaceCharacter::Sticky => 1u8,
            SurfaceCharacter::Slippery => 2u8,
            SurfaceCharacter::Bouncy => 3u8,
        }
    }

    /// Returns the character's stable tag.
    pub fn tag(self) -> (t: u8)
        ensures
            t == self.ordinal(),
    {
        match self {
            SurfaceCharacter::Frozen => 0u8,
            SurfaceCharacter::Sticky => 1u8,
            SurfaceCharacter::Slippery => 2u8,
            SurfaceCharacter::Bouncy => 3u8,
        }
    }

    /// Recovers a character from its tag. An out-of-range tag is
    /// rejected, never mapped to a default character.
    pub fn from_tag(t: u8) -> (r: Option<SurfaceCharacter>)
        ensures
            r is Some <==> t < SURFACE_CHARACTER_COUNT,
            r matches Some(c) ==> c.ordinal() == t,
            forall|c: SurfaceCharacter| #[trigger] c.ordinal() == t ==> r == Some(c),
    {
        if t == 0 {
            Some(SurfaceCharacter::Frozen)
        } else if t == 1 {
            Some(SurfaceCharacter::Sticky)
        } else if t == 2 {
            Some(SurfaceCharacter::Slippery)
        } else if t == 3 {
            Some(SurfaceCharacter::Bouncy)
        } else {
            None
        }
    }
}

/// Law: no two distinct characters share an ordinal, and every ordinal is
/// below `SURFACE_CHARACTER_COUNT`, so tags identify characters uniquely.
pub proof fn lemma_surface_character_ordinal_injective()
    ensures
        forall|c: SurfaceCharacter| #[trigger] c.ordinal() < SURFACE_CHARACTER_COUNT,
        forall|a: SurfaceCharacter, b: SurfaceCharacter| a.ordinal() == b.ordinal() ==> a == b,
{
}

} // verus!

//! The closed set of processor families that the native library reports.

use vstd::prelude::*;

verus! {

/// Enumerates supported CPU families.
#[derive(Debug, Clone, Copy, PartialEq, Eq, Structural)]
#[non_exhaustive]
pub enum RyzenFamily {
    /// Unknown CPU family
    Unknow,
    /// Ryzen 2XXX and a few Athlons
    Raven,
    /// Ryzen 3XXX and a few Athlons
    Picassso,
    /// Ryzen 4XXX
    Renoir,
    /// Ryzen 5XXX APUs only
    Cezanne,
    /// a few lower power Ryzen 3XXX
    Dali,
    /// a few lower power Ryzen 5XXX
    Lucienne,
    /// Athlon 4XXX
    Vangogh,
    /// Ryzen 6XXX
    Rembrandt,
}

/// The identifier the native library uses for each family.
pub open spec fn family_code(f: RyzenFamily) -> int {
    match f {
        RyzenFamily::Unknow => -1,
        RyzenFamily::Raven => 0,
        RyzenFamily::Picassso => 1,
        RyzenFamily::Renoir => 2,
        RyzenFamily::Cezanne => 3,
        RyzenFamily::Dali => 4,
        RyzenFamily::Lucienne => 5,
        RyzenFamily::Vangogh => 6,
        RyzenFamily::Rembrandt => 7,
    }
}

/// Whether some family carries the identifier `raw`.
pub open spec fn is_family_code(raw: int) -> bool {
    -1 <= raw <= 7
}

/// The family whose identifier is `raw`, if there is one.
pub open spec fn family_of(raw: int) -> Option<RyzenFamily> {
    if raw == -1 {
        Some(RyzenFamily::Unknow)
    } else if raw == 0 {
        Some(RyzenFamily::Raven)
    } else if raw == 1 {
        Some(RyzenFamily::Picassso)
    } else if raw == 2 {
        Some(RyzenFamily::Renoir)
    } else if raw == 3 {
        Some(RyzenFamily::Cezanne)
    } else if raw == 4 {
        Some(RyzenFamily::Dali)
    } else if raw == 5 {
        Some(RyzenFamily::Lucienne)
    } else if raw == 6 {
        Some(RyzenFamily::Vangogh)
    } else if raw == 7 {
        Some(RyzenFamily::Rembrandt)
    } else {
        None
    }
}

impl RyzenFamily {
    /// The native identifier of this family.
    pub fn raw(&self) -> (r: i32)
        ensures
            r == family_code(*self),
    {
        match self {
            RyzenFamily::Unknow => -1,
            RyzenFamily::Raven => 0,
            RyzenFamily::Picassso => 1,
            RyzenFamily::Renoir => 2,
            RyzenFamily::Cezanne => 3,
            RyzenFamily::Dali => 4,
            RyzenFamily::Lucienne => 5,
            RyzenFamily::Vangogh => 6,
            RyzenFamily::Rembrandt => 7,
        }
    }

    /// The family whose native identifier is `raw`, if there is one.
    pub fn from_raw(raw: i32) -> (r: Option<RyzenFamily>)
        ensures
            r == family_of(raw as int),
            r is Some <==> is_family_code(raw as int),
            r matches Some(f) ==> family_code(f) == raw,
    {
        if raw == -1 {
            Some(RyzenFamily::Unknow)
        } else if raw == 0 {
            Some(RyzenFamily::Raven)
        } else if raw == 1 {
            Some(RyzenFamily::Picassso)
        } else if raw == 2 {
            Some(RyzenFamily::Renoir)
        } else if raw == 3 {
            Some(RyzenFamily::Cezanne)
        } else if raw == 4 {
            Some(RyzenFamily::Dali)
        } else if raw == 5 {
            Some(RyzenFamily::Lucienne)
        } else if raw == 6 {
            Some(RyzenFamily::Vangogh)
        } else if raw == 7 {
            Some(RyzenFamily::Rembrandt)
        } else {
            None
        }
    }
}

/// Each family is found again from its own identifier, and from no other.
pub proof fn lemma_family_round_trip(f: RyzenFamily, raw: int)
    ensures
        family_of(family_code(f)) == Some(f),
        family_of(raw) == Some(f) ==> raw == family_code(f),
{
}

} // verus!

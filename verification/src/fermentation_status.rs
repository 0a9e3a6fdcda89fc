//! The two-valued fermentation phase tag.
//!
//! It parses from and renders to exactly the strings `"Primary"` and
//! `"Secondary"`; no other spelling names a valid phase.
use vstd::prelude::*;

verus! {

/// The phase of a fermentation: exactly two variants are valid.
#[derive(Debug, Clone, Copy, PartialEq, Eq, Structural)]
pub enum FermentationStatus {
    Primary,
    Secondary,
}

/// What parsing a phase tag accepts, as a function of the characters alone.
pub open spec fn spec_parse_status(s: Seq<char>) -> Option<FermentationStatus> {
    if s == "Primary"@ {
        Some(FermentationStatus::Primary)
    } else if s == "Secondary"@ {
        Some(FermentationStatus::Secondary)
    } else {
        None
    }
}

impl FermentationStatus {
    /// The canonical spelling of the tag.
    pub open spec fn spec_str(self) -> Seq<char> {
        match self {
            FermentationStatus::Primary => "Primary"@,
            FermentationStatus::Secondary => "Secondary"@,
        }
    }

    /// Parses the exact capitalized spellings; every other string is rejected.
    pub fn from_str(s: &str) -> (r: Option<FermentationStatus>)
        ensures
            r == spec_parse_status(s@),
    {
        if crate::strutil::str_eq(s, "Primary") {
            Some(FermentationStatus::Primary)
        } else if crate::strutil::str_eq(s, "Secondary") {
            Some(FermentationStatus::Secondary)
        } else {
            None
        }
    }

    /// Renders the tag back to its canonical spelling.
    pub fn as_str(&self) -> (r: &'static str)
        ensures
            r@ == self.spec_str(),
    {
        match self {
            FermentationStatus::Primary => "Primary",
            FermentationStatus::Secondary => "Secondary",
        }
    }
}

/// Parsing is a left inverse of rendering: a tag survives the round trip.
pub proof fn lemma_status_round_trip(t: FermentationStatus)
    ensures
        spec_parse_status(t.spec_str()) == Some(t),
{
    reveal_strlit("Primary");
    reveal_strlit("Secondary");
    assert("Primary"@.len() == 7);
    assert("Secondary"@.len() == 9);
    match t {
        FermentationStatus::Primary => {
            assert(spec_parse_status("Primary"@) == Some(FermentationStatus::Primary));
        }
        FermentationStatus::Secondary => {
            assert("Secondary"@ != "Primary"@);
            assert(spec_parse_status("Secondary"@) == Some(FermentationStatus::Secondary));
        }
    }
}

} // verus!

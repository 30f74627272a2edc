//! The kinds of season an organization runs.
use vstd::prelude::*;
use vstd::string::*;

use crate::text::same_text;

verus! {

/// The kind of a season, stored in the database under its value text.
#[derive(Clone, Copy, Debug, PartialEq, Eq, Hash, Structural)]
pub enum SeasonType {
    Survivor,
    Traitors,
    BigBrother,
    TheChallenge,
    Other,
}

/// The stored value of a season type.
pub open spec fn season_type_value(t: SeasonType) -> Seq<char> {
    match t {
        SeasonType::Survivor => "Survivor"@,
        SeasonType::Traitors => "Traitors"@,
        SeasonType::BigBrother => "BigBrother"@,
        SeasonType::TheChallenge => "TheChallenge"@,
        SeasonType::Other => "Other"@,
    }
}

/// The season type whose stored value is `s`, if any.
pub open spec fn season_type_of_value(s: Seq<char>) -> Option<SeasonType> {
    if s == "Survivor"@ {
        Some(SeasonType::Survivor)
    } else if s == "Traitors"@ {
        Some(SeasonType::Traitors)
    } else if s == "BigBrother"@ {
        Some(SeasonType::BigBrother)
    } else if s == "TheChallenge"@ {
        Some(SeasonType::TheChallenge)
    } else if s == "Other"@ {
        Some(SeasonType::Other)
    } else {
        None
    }
}

/// Every season type, in declaration order.
pub open spec fn all_season_types() -> Seq<SeasonType> {
    seq![
        SeasonType::Survivor,
        SeasonType::Traitors,
        SeasonType::BigBrother,
        SeasonType::TheChallenge,
        SeasonType::Other,
    ]
}

impl SeasonType {
    /// The stored value of this season type.
    pub fn to_value(&self) -> (s: String)
        ensures
            s@ == season_type_value(*self),
    {
        match self {
            SeasonType::Survivor => String::from_str("Survivor"),
            SeasonType::Traitors => String::from_str("Traitors"),
            SeasonType::BigBrother => String::from_str("BigBrother"),
            SeasonType::TheChallenge => String::from_str("TheChallenge"),
            SeasonType::Other => String::from_str("Other"),
        }
    }

    /// The season type stored under `s`, if any.
    pub fn from_value(s: &str) -> (r: Option<SeasonType>)
        ensures
            r == season_type_of_value(s@),
    {
        if same_text(s, "Survivor") {
            Some(SeasonType::Survivor)
        } else if same_text(s, "Traitors") {
            Some(SeasonType::Traitors)
        } else if same_text(s, "BigBrother") {
            Some(SeasonType::BigBrother)
        } else if same_text(s, "TheChallenge") {
            Some(SeasonType::TheChallenge)
        } else if same_text(s, "Other") {
            Some(SeasonType::Other)
        } else {
            None
        }
    }

    /// Every season type, in declaration order.
    pub fn all() -> (v: Vec<SeasonType>)
        ensures
            v@ == all_season_types(),
    {
        let mut v = Vec::new();
        v.push(SeasonType::Survivor);
        v.push(SeasonType::Traitors);
        v.push(SeasonType::BigBrother);
        v.push(SeasonType::TheChallenge);
        v.push(SeasonType::Other);
        proof {
            assert(v@ =~= all_season_types());
        }
        v
    }
}

/// Reading back the stored value of a season type gives that season type.
pub proof fn lemma_season_type_value_roundtrip(t: SeasonType)
    ensures
        season_type_of_value(season_type_value(t)) == Some(t),
{
    reveal_strlit("Survivor");
    reveal_strlit("Traitors");
    reveal_strlit("BigBrother");
    reveal_strlit("TheChallenge");
    reveal_strlit("Other");
    assert("Traitors"@ != "Survivor"@ && "BigBrother"@ != "Survivor"@ && "TheChallenge"@
        != "Survivor"@ && "Other"@ != "Survivor"@ && "BigBrother"@ != "Traitors"@
        && "TheChallenge"@ != "Traitors"@ && "Other"@ != "Traitors"@ && "TheChallenge"@
        != "BigBrother"@ && "Other"@ != "BigBrother"@ && "Other"@ != "TheChallenge"@) by {
        assert("Traitors"@[0] != "Survivor"@[0]);
        assert("BigBrother"@[0] != "Survivor"@[0]);
        assert("TheChallenge"@[0] != "Survivor"@[0]);
        assert("Other"@[0] != "Survivor"@[0]);
        assert("BigBrother"@[0] != "Traitors"@[0]);
        assert("TheChallenge"@[1] != "Traitors"@[1]);
        assert("Other"@[0] != "Traitors"@[0]);
        assert("TheChallenge"@[0] != "BigBrother"@[0]);
        assert("Other"@[0] != "BigBrother"@[0]);
        assert("Other"@[0] != "TheChallenge"@[0]);
    }
}

} // verus!

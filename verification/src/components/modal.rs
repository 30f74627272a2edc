//! The modal form for creating a season.
use vstd::prelude::*;
use vstd::string::*;

use crate::text::same_text;

verus! {

#[derive(Clone, Copy, Debug, PartialEq, Eq, Structural)]
pub enum Modal {
    CreateSeason,
}

pub open spec fn modal_title(m: Modal) -> Seq<char> {
    match m {
        Modal::CreateSeason => "Create Season"@,
    }
}

pub open spec fn modal_id(m: Modal) -> Seq<char> {
    match m {
        Modal::CreateSeason => "season_create_modal"@,
    }
}

/// The modal whose custom id is `s`, or the error text for an unknown id.
pub open spec fn modal_from_text(s: Seq<char>) -> Result<Modal, Seq<char>> {
    if s == "season_create_modal"@ {
        Ok(Modal::CreateSeason)
    } else {
        Err("Invalid modal ID"@)
    }
}

impl Modal {
    pub fn title(&self) -> (s: String)
        ensures
            s@ == modal_title(*self),
    {
        match self {
            Modal::CreateSeason => String::from_str("Create Season"),
        }
    }

    pub fn id(&self) -> (s: String)
        ensures
            s@ == modal_id(*self),
    {
        match self {
            Modal::CreateSeason => String::from_str("season_create_modal"),
        }
    }

    /// Reads a modal back from its custom id.
    pub fn from_str(s: &str) -> (r: Result<Modal, String>)
        ensures
            match r {
                Ok(m) => modal_from_text(s@) == Ok::<Modal, Seq<char>>(m),
                Err(e) => modal_from_text(s@) == Err::<Modal, Seq<char>>(e@),
            },
    {
        if same_text(s, "season_create_modal") {
            Ok(Modal::CreateSeason)
        } else {
            Err(String::from_str("Invalid modal ID"))
        }
    }
}

impl std::str::FromStr for Modal {
    type Err = String;

    fn from_str(s: &str) -> (r: Result<Modal, String>)
        ensures
            match r {
                Ok(m) => modal_from_text(s@) == Ok::<Modal, Seq<char>>(m),
                Err(e) => modal_from_text(s@) == Err::<Modal, Seq<char>>(e@),
            },
    {
        Modal::from_str(s)
    }
}

/// A modal's custom id reads back as that modal.
pub proof fn lemma_modal_id_roundtrip(m: Modal)
    ensures
        modal_from_text(modal_id(m)) == Ok::<Modal, Seq<char>>(m),
{
}

} // verus!

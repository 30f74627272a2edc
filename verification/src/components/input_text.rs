//! The text fields of the season form.
use vstd::prelude::*;
use vstd::string::*;

use crate::text::same_text;

verus! {

#[derive(Clone, Copy, Debug, PartialEq, Eq, Structural)]
pub enum InputText {
    SeasonTitle,
    SeasonNumPlayers,
    SeasonStartDate,
    SeasonEndDate,
}

pub open spec fn input_title(i: InputText) -> Seq<char> {
    match i {
        InputText::SeasonTitle => "Season Title"@,
        InputText::SeasonNumPlayers => "Number of Players"@,
        InputText::SeasonStartDate => "Start Date"@,
        InputText::SeasonEndDate => "End Date"@,
    }
}

pub open spec fn input_id(i: InputText) -> Seq<char> {
    match i {
        InputText::SeasonTitle => "season_title"@,
        InputText::SeasonNumPlayers => "season_num_players"@,
        InputText::SeasonStartDate => "season_start_date"@,
        InputText::SeasonEndDate => "season_end_date"@,
    }
}

pub open spec fn input_placeholder(i: InputText) -> Seq<char> {
    match i {
        InputText::SeasonTitle => "Enter season title (e.g., 'Pokemon Extravaganza!')"@,
        InputText::SeasonNumPlayers => "Enter number of players"@,
        InputText::SeasonStartDate => "Enter start date (YYYY-MM-DD)"@,
        InputText::SeasonEndDate => "Enter end date (YYYY-MM-DD) - Leave empty for no end date"@,
    }
}

pub open spec fn input_max_length(i: InputText) -> u16 {
    match i {
        InputText::SeasonTitle => 100,
        InputText::SeasonNumPlayers => 3,
        InputText::SeasonStartDate => 10,
        InputText::SeasonEndDate => 10,
    }
}

pub open spec fn input_required(i: InputText) -> bool {
    match i {
        InputText::SeasonEndDate => false,
        _ => true,
    }
}

/// The text field whose custom id is `s`, or the error text for an unknown id.
pub open spec fn input_from_text(s: Seq<char>) -> Result<InputText, Seq<char>> {
    if s == "season_title"@ {
        Ok(InputText::SeasonTitle)
    } else if s == "season_num_players"@ {
        Ok(InputText::SeasonNumPlayers)
    } else if s == "season_start_date"@ {
        Ok(InputText::SeasonStartDate)
    } else if s == "season_end_date"@ {
        Ok(InputText::SeasonEndDate)
    } else {
        Err("Invalid input text ID"@)
    }
}

impl InputText {
    pub fn title(&self) -> (s: String)
        ensures
            s@ == input_title(*self),
    {
        match self {
            InputText::SeasonTitle => String::from_str("Season Title"),
            InputText::SeasonNumPlayers => String::from_str("Number of Players"),
            InputText::SeasonStartDate => String::from_str("Start Date"),
            InputText::SeasonEndDate => String::from_str("End Date"),
        }
    }

    pub fn id(&self) -> (s: String)
        ensures
            s@ == input_id(*self),
    {
        match self {
            InputText::SeasonTitle => String::from_str("season_title"),
            InputText::SeasonNumPlayers => String::from_str("season_num_players"),
            InputText::SeasonStartDate => String::from_str("season_start_date"),
            InputText::SeasonEndDate => String::from_str("season_end_date"),
        }
    }

    pub fn placeholder(&self) -> (s: String)
        ensures
            s@ == input_placeholder(*self),
    {
        match self {
            InputText::SeasonTitle => String::from_str(
                "Enter season title (e.g., 'Pokemon Extravaganza!')",
            ),
            InputText::SeasonNumPlayers => String::from_str("Enter number of players"),
            InputText::SeasonStartDate => String::from_str("Enter start date (YYYY-MM-DD)"),
            InputText::SeasonEndDate => String::from_str(
                "Enter end date (YYYY-MM-DD) - Leave empty for no end date",
            ),
        }
    }

    pub fn max_length(&self) -> (n: u16)
        ensures
            n == input_max_length(*self),
    {
        match self {
            InputText::SeasonTitle => 100,
            InputText::SeasonNumPlayers => 3,
            InputText::SeasonStartDate => 10,
            InputText::SeasonEndDate => 10,
        }
    }

    pub fn required(&self) -> (b: bool)
        ensures
            b == input_required(*self),
    {
        match self {
            InputText::SeasonTitle => true,
            InputText::SeasonNumPlayers => true,
            InputText::SeasonStartDate => true,
            InputText::SeasonEndDate => false,
        }
    }

    /// Reads a text field back from its custom id.
    pub fn from_str(s: &str) -> (r: Result<InputText, String>)
        ensures
            match r {
                Ok(i) => input_from_text(s@) == Ok::<InputText, Seq<char>>(i),
                Err(e) => input_from_text(s@) == Err::<InputText, Seq<char>>(e@),
            },
    {
        if same_text(s, "season_title") {
            Ok(InputText::SeasonTitle)
        } else if same_text(s, "season_num_players") {
            Ok(InputText::SeasonNumPlayers)
        } else if same_text(s, "season_start_date") {
            Ok(InputText::SeasonStartDate)
        } else if same_text(s, "season_end_date") {
            Ok(InputText::SeasonEndDate)
        } else {
            Err(String::from_str("Invalid input text ID"))
        }
    }
}

impl std::str::FromStr for InputText {
    type Err = String;

    fn from_str(s: &str) -> (r: Result<InputText, String>)
        ensures
            match r {
                Ok(i) => input_from_text(s@) == Ok::<InputText, Seq<char>>(i),
                Err(e) => input_from_text(s@) == Err::<InputText, Seq<char>>(e@),
            },
    {
        InputText::from_str(s)
    }
}

/// A text field's custom id reads back as that field.
pub proof fn lemma_input_id_roundtrip(i: InputText)
    ensures
        input_from_text(input_id(i)) == Ok::<InputText, Seq<char>>(i),
{
    reveal_strlit("season_title");
    reveal_strlit("season_num_players");
    reveal_strlit("season_start_date");
    reveal_strlit("season_end_date");
    assert("season_num_players"@ != "season_title"@) by {
        assert("season_num_players"@[7] != "season_title"@[7]);
    }
    assert("season_start_date"@ != "season_title"@) by {
        assert("season_start_date"@[7] != "season_title"@[7]);
    }
    assert("season_start_date"@ != "season_num_players"@) by {
        assert("season_start_date"@[7] != "season_num_players"@[7]);
    }
    assert("season_end_date"@ != "season_title"@) by {
        assert("season_end_date"@[7] != "season_title"@[7]);
    }
    assert("season_end_date"@ != "season_num_players"@) by {
        assert("season_end_date"@[7] != "season_num_players"@[7]);
    }
    assert("season_end_date"@ != "season_start_date"@) by {
        assert("season_end_date"@[7] != "season_start_date"@[7]);
    }
}

} // verus!

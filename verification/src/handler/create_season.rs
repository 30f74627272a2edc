//! Handling a submitted season form and the season-type menu.
use vstd::prelude::*;
use vstd::string::*;

use crate::season_type::{season_type_of_value, SeasonType};
use crate::text::{decimal, decimal_text};

verus! {

/// The reply to a season form that cannot be read.
pub const INVALID_FORM_DATA: &'static str = "Invalid form data";

/// The error with which the form step ends when the form cannot be read.
pub const FORM_PARSE_FAILED: &'static str = "Failed to parse form data";

/// The reply when the database refuses the season.
pub const CREATE_SEASON_FAILED: &'static str = "Failed to create season";

/// The reply when the server has no organization.
pub fn org_missing_notice(guild_id: u64) -> (r: String)
    ensures
        r@ == "Failed to create season. Unable to find Org with ID "@ + decimal(guild_id as nat),
{
    let d = decimal_text(guild_id);
    crate::text::join2("Failed to create season. Unable to find Org with ID ", d.as_str())
}

/// The prompt to add members to the season created from the form.
pub fn season_created_prompt(season_title: &str) -> (r: String)
    ensures
        r@ == "Season: '"@ + season_title@ + "' create successfully. Add members to season?"@,
{
    crate::text::join3("Season: '", season_title, "' create successfully. Add members to season?")
}

/// The season type picked in the menu: the first value picked, read as a season type.
pub open spec fn picked_season_type(values: Seq<Seq<char>>) -> Result<SeasonType, Seq<char>> {
    if values.len() == 0 {
        Err("No season type selected"@)
    } else {
        match season_type_of_value(values[0]) {
            Some(t) => Ok(t),
            None => Err("Invalid season type: "@ + values[0]),
        }
    }
}

pub fn season_type_choice(values: &Vec<String>) -> (r: Result<SeasonType, String>)
    ensures
        match r {
            Ok(t) => picked_season_type(values@.map_values(|v: String| v@)) == Ok::<
                SeasonType,
                Seq<char>,
            >(t),
            Err(e) => picked_season_type(values@.map_values(|v: String| v@)) == Err::<
                SeasonType,
                Seq<char>,
            >(e@),
        },
{
    if values.len() == 0 {
        return Err(String::from_str("No season type selected"));
    }
    proof {
        assert(values@.map_values(|v: String| v@)[0] == values@[0]@);
    }
    match SeasonType::from_value(values[0].as_str()) {
        Some(t) => Ok(t),
        None => Err(crate::text::join2("Invalid season type: ", values[0].as_str())),
    }
}

/// The error when the menu answer is not a choice of text values.
pub const UNEXPECTED_COMPONENT_TYPE: &'static str = "Unexpected component interaction type";

} // verus!

//! The steps of creating a season: the form, its reading, and the messages that
//! follow.
use vstd::prelude::*;
use vstd::string::*;

use crate::commands::data::{
    form_from_rows, parse_form, rows_view, ActionRow, SeasonFormData, SeasonParsedData,
};
use crate::components::input_text::InputText;
use crate::components::modal::Modal;
use crate::date::Date;

verus! {

/// The season form: the modal and its text fields, in the order they are shown.
pub fn create_season_form() -> (r: (Modal, Vec<InputText>))
    ensures
        r.0 == Modal::CreateSeason,
        r.1@ == seq![
            InputText::SeasonTitle,
            InputText::SeasonNumPlayers,
            InputText::SeasonStartDate,
            InputText::SeasonEndDate,
        ],
{
    let mut fields = Vec::new();
    fields.push(InputText::SeasonTitle);
    fields.push(InputText::SeasonNumPlayers);
    fields.push(InputText::SeasonStartDate);
    fields.push(InputText::SeasonEndDate);
    proof {
        assert(fields@ =~= seq![
            InputText::SeasonTitle,
            InputText::SeasonNumPlayers,
            InputText::SeasonStartDate,
            InputText::SeasonEndDate,
        ]);
    }
    (Modal::CreateSeason, fields)
}

/// What a submitted season form reads as: gathered from its rows, then read as a
/// season; the first failure's message otherwise.
pub open spec fn season_from_rows(rows: Seq<Seq<crate::commands::data::ComponentView>>) -> Result<
    (Seq<char>, i32, Date, Option<Date>),
    Seq<char>,
> {
    match form_from_rows(rows) {
        Err(e) => Err(e),
        Ok(f) => parse_form(f.0, f.1, f.2, f.3),
    }
}

/// Reads a submitted season form.
pub fn parse_season_form(rows: &Vec<ActionRow>) -> (r: Result<SeasonParsedData, String>)
    ensures
        match r {
            Ok(p) => season_from_rows(rows_view(rows@)) == Ok::<
                (Seq<char>, i32, Date, Option<Date>),
                Seq<char>,
            >((p.title@, p.num_players, p.start_date, p.end_date)),
            Err(e) => season_from_rows(rows_view(rows@)) == Err::<
                (Seq<char>, i32, Date, Option<Date>),
                Seq<char>,
            >(e@),
        },
{
    match SeasonFormData::from_action_rows(rows) {
        Ok(f) => f.parsed_data(),
        Err(e) => Err(e),
    }
}

/// The prompt sent with the season-type menu.
pub const SEASON_TYPE_PROMPT: &'static str = "Select the season type";

/// The prompt to add members to a newly created season.
pub fn add_members_prompt(season_title: &str) -> (r: String)
    ensures
        r@ == "Season: '"@ + season_title@ + "' created successfully. Add members to season?"@,
{
    crate::text::join3(
        "Season: '",
        season_title,
        "' created successfully. Add members to season?",
    )
}

/// The question whether a newly created season becomes the current one.
pub fn set_current_prompt(season_title: &str) -> (r: String)
    ensures
        r@ == "Set "@ + season_title@ + " as current season?"@,
{
    crate::text::join3("Set ", season_title, " as current season?")
}

/// The follow-up sent when a season could not be created: nothing when the request
/// came from outside a server, "Organization not found" when the server has no
/// organization, "Failed to create season" when the database refused the season.
pub fn season_creation_notice(in_server: bool, org_found: bool) -> (r: Option<&'static str>)
    ensures
        !in_server ==> r is None,
        in_server && !org_found ==> (r matches Some(m) && m@ == "Organization not found"@),
        in_server && org_found ==> (r matches Some(m) && m@ == "Failed to create season"@),
{
    if !in_server {
        None
    } else if !org_found {
        Some("Organization not found")
    } else {
        Some("Failed to create season")
    }
}

/// The error with which the creation step ends when no season was created.
pub const SEASON_CREATION_FAILED: &'static str = "Failed to create season";

} // verus!

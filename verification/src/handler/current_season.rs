//! Answering whether a new season becomes the organization's current season.
use vstd::prelude::*;
use vstd::string::*;

use crate::components::button::{button_from_text, Button, ButtonView};
use crate::service::{db_error_text, DbError};

verus! {

/// What a press on the current-season question asks for.
#[derive(Clone, Debug, PartialEq, Eq)]
pub enum CurrentSeasonChoice {
    /// Make the season current.
    MakeCurrent,
    /// Leave the current season as it is.
    Keep,
    /// Another button of the bot was pressed.
    Unexpected,
    /// The custom id is not a button's; the error.
    Invalid(String),
}

pub enum CurrentSeasonChoiceView {
    MakeCurrent,
    Keep,
    Unexpected,
    Invalid(Seq<char>),
}

impl View for CurrentSeasonChoice {
    type V = CurrentSeasonChoiceView;

    open spec fn view(&self) -> CurrentSeasonChoiceView {
        match self {
            CurrentSeasonChoice::MakeCurrent => CurrentSeasonChoiceView::MakeCurrent,
            CurrentSeasonChoice::Keep => CurrentSeasonChoiceView::Keep,
            CurrentSeasonChoice::Unexpected => CurrentSeasonChoiceView::Unexpected,
            CurrentSeasonChoice::Invalid(e) => CurrentSeasonChoiceView::Invalid(e@),
        }
    }
}

pub open spec fn current_season_choice_of(custom_id: Seq<char>) -> CurrentSeasonChoiceView {
    match button_from_text(custom_id) {
        Ok(ButtonView::SetAsCurrentSeasonYes { .. }) => CurrentSeasonChoiceView::MakeCurrent,
        Ok(ButtonView::SetAsCurrentSeasonNo { .. }) => CurrentSeasonChoiceView::Keep,
        Ok(_) => CurrentSeasonChoiceView::Unexpected,
        Err(e) => CurrentSeasonChoiceView::Invalid(e),
    }
}

pub fn current_season_choice(custom_id: &str) -> (c: CurrentSeasonChoice)
    ensures
        c@ == current_season_choice_of(custom_id@),
{
    match Button::from_str(custom_id) {
        Ok(Button::SetAsCurrentSeasonYes { .. }) => CurrentSeasonChoice::MakeCurrent,
        Ok(Button::SetAsCurrentSeasonNo { .. }) => CurrentSeasonChoice::Keep,
        Ok(_) => CurrentSeasonChoice::Unexpected,
        Err(e) => CurrentSeasonChoice::Invalid(e),
    }
}

/// The follow-up for a press of another button.
pub const INVALID_BUTTON_INTERACTION: &'static str = "Invalid Button Interaction";

/// The reply to "Yes": "Season not found" when the season could not be found (`None`),
/// otherwise "Success!" or the error of making it current.
pub fn set_current_season_reply(set: Option<&Result<(), DbError>>) -> (r: String)
    ensures
        r@ == (match set {
            None => "Season not found"@,
            Some(Ok(_)) => "Success!"@,
            Some(Err(e)) => "Error setting current season: "@ + db_error_text(*e),
        }),
{
    match set {
        None => String::from_str("Season not found"),
        Some(Ok(_)) => String::from_str("Success!"),
        Some(Err(e)) => {
            let t = e.text();
            crate::text::join2("Error setting current season: ", t.as_str())
        },
    }
}

/// The reply to "No".
pub const KEEP_CURRENT_REPLY: &'static str = "Success!";

} // verus!

//! Registering a server's organization from the buttons of the welcome message.
use vstd::prelude::*;
use vstd::string::*;

use crate::components::button::{button_from_text, Button, ButtonView};
use crate::entity::OrgModel;
use crate::service::DbError;

verus! {

/// What a press on the welcome message asks for.
#[derive(Clone, Copy, Debug, PartialEq, Eq, Structural)]
pub enum RegisterOrgChoice {
    Register,
    Decline,
    Unexpected,
}

pub open spec fn register_org_choice_of(custom_id: Seq<char>) -> RegisterOrgChoice {
    match button_from_text(custom_id) {
        Ok(ButtonView::RegisterOrgNo) => RegisterOrgChoice::Decline,
        Ok(ButtonView::RegisterOrgYes { .. }) => RegisterOrgChoice::Register,
        _ => RegisterOrgChoice::Unexpected,
    }
}

pub fn register_org_choice(custom_id: &str) -> (c: RegisterOrgChoice)
    ensures
        c == register_org_choice_of(custom_id@),
{
    match Button::from_str(custom_id) {
        Ok(Button::RegisterOrgNo) => RegisterOrgChoice::Decline,
        Ok(Button::RegisterOrgYes { .. }) => RegisterOrgChoice::Register,
        _ => RegisterOrgChoice::Unexpected,
    }
}

/// The reply to declining.
pub const DECLINE_REPLY: &'static str = "No problem. You can use `/register_org` any time.";

/// The reply to an unexpected press.
pub const UNEXPECTED_REPLY: &'static str = "Unexpected error";

/// The reply to registering from the welcome message, given whether the owner is a
/// registered user and, if so, what the database answered.
pub fn welcome_register_reply(created: Option<&Result<OrgModel, DbError>>) -> (r: &'static str)
    ensures
        r@ == (match created {
            None => "Please register your account first (do '/join')"@,
            Some(Ok(_)) => "Success! Your org was registered."@,
            Some(Err(_)) => "Failed to register org"@,
        }),
{
    match created {
        None => "Please register your account first (do '/join')",
        Some(Ok(_)) => "Success! Your org was registered.",
        Some(Err(_)) => "Failed to register org",
    }
}

/// The reply to the registration button of a component message, given whether the owner
/// is a registered user and, if so, what the database answered.
pub fn register_org_button_reply(created: Option<&Result<OrgModel, DbError>>) -> (r: &'static str)
    ensures
        r@ == (match created {
            None => "Please register your account first (do `/join`)"@,
            Some(Ok(_)) => "Success!"@,
            Some(Err(_)) => "Failed to register org"@,
        }),
{
    match created {
        None => "Please register your account first (do `/join`)",
        Some(Ok(_)) => "Success!",
        Some(Err(_)) => "Failed to register org",
    }
}

} // verus!

//! Routing an interaction to its handler by the custom id it carries.
use vstd::prelude::*;
use vstd::string::*;

use crate::components::button::{button_from_text, Button, ButtonView};
use crate::components::modal::{modal_from_text, Modal};
use crate::components::select_menu::{select_menu_from_text, SelectMenu, SelectMenuView};

verus! {

/// Where an interaction goes.
#[derive(Clone, Debug, PartialEq, Eq)]
pub enum Route {
    /// A submitted season form.
    CreateSeasonForm,
    /// "Yes" to making a season the current one.
    SetCurrentSeasonYes { season_uuid: String },
    /// "No" to making a season the current one.
    SetCurrentSeasonNo { season_uuid: String },
    /// "Yes" to registering a server's organization.
    RegisterOrgYes { org_name: String, guild_id: String, owner_id: String },
    /// Members picked for a season.
    AddMembersToSeason { season_uuid: String },
    /// A season type picked from the menu; no handler takes it.
    SeasonTypePicked,
    /// Nothing to do.
    Ignore,
    /// A component whose custom id names neither a button nor a menu, with the error.
    Unreadable(String),
}

pub enum RouteView {
    CreateSeasonForm,
    SetCurrentSeasonYes { season_uuid: Seq<char> },
    SetCurrentSeasonNo { season_uuid: Seq<char> },
    RegisterOrgYes { org_name: Seq<char>, guild_id: Seq<char>, owner_id: Seq<char> },
    AddMembersToSeason { season_uuid: Seq<char> },
    SeasonTypePicked,
    Ignore,
    Unreadable(Seq<char>),
}

impl View for Route {
    type V = RouteView;

    open spec fn view(&self) -> RouteView {
        match self {
            Route::CreateSeasonForm => RouteView::CreateSeasonForm,
            Route::SetCurrentSeasonYes { season_uuid } => RouteView::SetCurrentSeasonYes {
                season_uuid: season_uuid@,
            },
            Route::SetCurrentSeasonNo { season_uuid } => RouteView::SetCurrentSeasonNo {
                season_uuid: season_uuid@,
            },
            Route::RegisterOrgYes { org_name, guild_id, owner_id } => RouteView::RegisterOrgYes {
                org_name: org_name@,
                guild_id: guild_id@,
                owner_id: owner_id@,
            },
            Route::AddMembersToSeason { season_uuid } => RouteView::AddMembersToSeason {
                season_uuid: season_uuid@,
            },
            Route::SeasonTypePicked => RouteView::SeasonTypePicked,
            Route::Ignore => RouteView::Ignore,
            Route::Unreadable(e) => RouteView::Unreadable(e@),
        }
    }
}

/// Where a submitted modal goes: the season form, when its id names it.
pub open spec fn modal_route(custom_id: Seq<char>) -> RouteView {
    match modal_from_text(custom_id) {
        Ok(Modal::CreateSeason) => RouteView::CreateSeasonForm,
        Err(_) => RouteView::Ignore,
    }
}

/// Where a component interaction goes. The custom id is read as a button when it reads
/// as one, otherwise as a select menu; a button without a handler of its own is
/// ignored.
pub open spec fn component_route(custom_id: Seq<char>) -> RouteView {
    match button_from_text(custom_id) {
        Ok(b) => match b {
            ButtonView::SetAsCurrentSeasonYes { season_uuid } => RouteView::SetCurrentSeasonYes {
                season_uuid,
            },
            ButtonView::SetAsCurrentSeasonNo { season_uuid } => RouteView::SetCurrentSeasonNo {
                season_uuid,
            },
            ButtonView::RegisterOrgYes { org_name, guild_id, owner_id } => RouteView::RegisterOrgYes {
                org_name,
                guild_id,
                owner_id,
            },
            _ => RouteView::Ignore,
        },
        Err(_) => match select_menu_from_text(custom_id) {
            Ok(SelectMenuView::MemberSelectMenu { season_uuid }) => RouteView::AddMembersToSeason {
                season_uuid,
            },
            Ok(SelectMenuView::SeasonTypeSelectMenu) => RouteView::SeasonTypePicked,
            Err(e) => RouteView::Unreadable(e),
        },
    }
}

pub fn route_modal(custom_id: &str) -> (r: Route)
    ensures
        r@ == modal_route(custom_id@),
{
    match Modal::from_str(custom_id) {
        Ok(Modal::CreateSeason) => Route::CreateSeasonForm,
        Err(_) => Route::Ignore,
    }
}

pub fn route_component(custom_id: &str) -> (r: Route)
    ensures
        r@ == component_route(custom_id@),
{
    match Button::from_str(custom_id) {
        Ok(b) => match b {
            Button::SetAsCurrentSeasonYes { season_uuid } => Route::SetCurrentSeasonYes {
                season_uuid,
            },
            Button::SetAsCurrentSeasonNo { season_uuid } => Route::SetCurrentSeasonNo {
                season_uuid,
            },
            Button::RegisterOrgYes { org_name, guild_id, owner_id } => Route::RegisterOrgYes {
                org_name,
                guild_id,
                owner_id,
            },
            _ => Route::Ignore,
        },
        Err(_) => match SelectMenu::from_str(custom_id) {
            Ok(SelectMenu::MemberSelectMenu { season_uuid }) => Route::AddMembersToSeason {
                season_uuid,
            },
            Ok(SelectMenu::SeasonTypeSelectMenu) => Route::SeasonTypePicked,
            Err(e) => Route::Unreadable(e),
        },
    }
}

} // verus!

verus! {

/// A press on the current-season buttons of a season reaches the current-season
/// handler with that season's id text, which in turn names the season.
pub proof fn lemma_season_buttons_route(u: u128)
    ensures
        component_route(
            crate::components::button::button_id(
                ButtonView::SetAsCurrentSeasonYes { season_uuid: crate::ids::uuid_text(u) },
            ),
        ) == (RouteView::SetCurrentSeasonYes { season_uuid: crate::ids::uuid_text(u) }),
        component_route(
            crate::components::button::button_id(
                ButtonView::SetAsCurrentSeasonNo { season_uuid: crate::ids::uuid_text(u) },
            ),
        ) == (RouteView::SetCurrentSeasonNo { season_uuid: crate::ids::uuid_text(u) }),
{
    crate::ids::lemma_id_text_no_colon(u);
    crate::components::button::lemma_button_id_roundtrip(
        ButtonView::SetAsCurrentSeasonYes { season_uuid: crate::ids::uuid_text(u) },
    );
    crate::components::button::lemma_button_id_roundtrip(
        ButtonView::SetAsCurrentSeasonNo { season_uuid: crate::ids::uuid_text(u) },
    );
}

/// The member menu of a season reaches the member handler with that season's id text.
pub proof fn lemma_member_menu_routes(u: u128)
    ensures
        component_route(
            crate::components::select_menu::select_menu_id(
                SelectMenuView::MemberSelectMenu { season_uuid: crate::ids::uuid_text(u) },
            ),
        ) == (RouteView::AddMembersToSeason { season_uuid: crate::ids::uuid_text(u) }),
{
    let id = crate::components::select_menu::select_menu_id(
        SelectMenuView::MemberSelectMenu { season_uuid: crate::ids::uuid_text(u) },
    );
    crate::ids::lemma_id_text_no_colon(u);
    crate::components::select_menu::lemma_select_menu_id_roundtrip(
        SelectMenuView::MemberSelectMenu { season_uuid: crate::ids::uuid_text(u) },
    );
    reveal_strlit("member_select_menu");
    crate::components::button::lemma_member_menu_is_no_button(crate::ids::uuid_text(u));
}

} // verus!

use hub_bot::commands::member::{
    add_to_season_reply, register_member_reply, register_members_list, unregistered_reply,
};
use hub_bot::commands::org::{owner_not_found_reply, register_org_reply};
use hub_bot::commands::season_helpers::{add_members_prompt, season_creation_notice, set_current_prompt};
use hub_bot::commands::user::register_user_reply;
use hub_bot::entity::{DiscordUserModel, MemberModel, OrgModel, SeasonMemberModel};
use hub_bot::handler::add_members::{addition_report_text, member_addition_notice, MemberAddition};
use hub_bot::handler::create_season::{org_missing_notice, season_created_prompt, season_type_choice};
use hub_bot::handler::current_season::{current_season_choice, set_current_season_reply, CurrentSeasonChoice};
use hub_bot::handler::interaction::{route_component, route_modal, Route};
use hub_bot::handler::register_org::{
    register_org_button_reply, register_org_choice, welcome_register_reply, RegisterOrgChoice,
};
use hub_bot::handler::welcome::{mention_text, welcome_description};
use hub_bot::ids::id_text;
use hub_bot::season_type::SeasonType;
use hub_bot::service::DbError;

fn dup() -> DbError {
    DbError::Database { unique_violation: true, message: "duplicate key".into() }
}

fn other() -> DbError {
    DbError::Database { unique_violation: false, message: "boom".into() }
}

fn org() -> OrgModel {
    OrgModel {
        id: 1,
        name: "Hub".into(),
        discord_id: "9".into(),
        owner_id: 2,
        current_season_id: None,
        created_at: 0,
        updated_at: 0,
    }
}

#[test]
fn member_replies() {
    let m = MemberModel { id: 1, user_id: 2, org_id: 3, created_at: 0, updated_at: 0 };
    assert_eq!(register_member_reply("Ann", "55", &Ok(m)), "Member Ann registered successfully!");
    assert_eq!(
        register_member_reply("Ann", "55", &Err(dup())),
        "Member with Discord ID 55 already exists in the organization"
    );
    assert_eq!(register_member_reply("Ann", "55", &Err(other())), "An unexpected database error occurred");
    assert_eq!(unregistered_reply("9", "55"), "Please check if Org 9 or User 55 is registered");
    let e = SeasonMemberModel { id: 1, season_id: 2, member_id: 3, placement: None };
    assert_eq!(add_to_season_reply(&Ok(e)), "Member added successfully");
    assert_eq!(add_to_season_reply(&Err(dup())), "Member already exists in season");
    assert_eq!(add_to_season_reply(&Err(other())), "Failed to add member to season");
    assert_eq!(register_members_list(1, None, Some(3), None, Some(5), None), vec![1, 3, 5]);
}

#[test]
fn org_and_user_replies() {
    assert_eq!(register_org_reply("Hub", &Ok(org())), "Organization Hub registered successfully!");
    assert_eq!(register_org_reply("Hub", &Err(dup())), "Organization with name Hub already exists.");
    assert_eq!(
        register_org_reply("Hub", &Err(DbError::Custom("Database not connected".into()))),
        "An error occurred while registering the organization: Custom Error: Database not connected"
    );
    assert_eq!(
        owner_not_found_reply("7"),
        "User with Discord ID 7 not found. Please register as a user first."
    );
    let u = DiscordUserModel {
        id: 1,
        discord_id: "7".into(),
        display_name: "Ann".into(),
        timezone: "UTC".into(),
        avatar_url: String::new(),
        created_at: 0,
        updated_at: 0,
    };
    assert_eq!(register_user_reply("7", &Ok(u)), "User Ann registered successfully!");
    assert_eq!(register_user_reply("7", &Err(dup())), "User with Discord ID 7 already exists");
    assert_eq!(register_user_reply("7", &Err(other())), "An unexpected error occurred: boom");
}

#[test]
fn season_creation_messages() {
    assert_eq!(add_members_prompt("S"), "Season: 'S' created successfully. Add members to season?");
    assert_eq!(set_current_prompt("S"), "Set S as current season?");
    assert_eq!(season_creation_notice(false, false), None);
    assert_eq!(season_creation_notice(true, false), Some("Organization not found"));
    assert_eq!(season_creation_notice(true, true), Some("Failed to create season"));
    assert_eq!(org_missing_notice(42), "Failed to create season. Unable to find Org with ID 42");
    assert_eq!(season_created_prompt("S"), "Season: 'S' create successfully. Add members to season?");
    assert_eq!(season_type_choice(&vec!["Traitors".into()]), Ok(SeasonType::Traitors));
    assert_eq!(season_type_choice(&vec![]), Err("No season type selected".to_string()));
    assert_eq!(season_type_choice(&vec!["x".into()]), Err("Invalid season type: x".to_string()));
}

#[test]
fn addition_report() {
    let outcomes = vec![
        ("1".to_string(), MemberAddition::Added),
        ("2".to_string(), MemberAddition::NotMember),
        ("3".to_string(), MemberAddition::Added),
        ("4".to_string(), MemberAddition::LookupFailed),
        ("5".to_string(), MemberAddition::AddFailed),
    ];
    assert_eq!(
        addition_report_text(&outcomes),
        "**Successfully added:**\n✅ Added 1\n✅ Added 3\n\n**Errors:**\n❌ Failed to get member with discord user_id: 2\n❌ Database error while fetching member with discord user_id: 4\n❌ Unable to add user with ID 5\n"
    );
    assert_eq!(addition_report_text(&vec![]), "No users were processed.");
    assert_eq!(
        addition_report_text(&vec![("9".to_string(), MemberAddition::NotMember)]),
        "**Errors:**\n❌ Failed to get member with discord user_id: 9\n"
    );
    assert_eq!(member_addition_notice("G", "U", MemberAddition::Added), "Success!");
    assert_eq!(member_addition_notice("G", "U", MemberAddition::AddFailed), "Unable to add user with ID G");
    assert_eq!(
        member_addition_notice("G", "U", MemberAddition::LookupFailed),
        "Failed to get member with discord user_id: U"
    );
}

#[test]
fn routing() {
    assert_eq!(route_modal("season_create_modal"), Route::CreateSeasonForm);
    assert_eq!(route_modal("x"), Route::Ignore);
    let id = id_text(77);
    assert_eq!(
        route_component(&format!("set_as_current_season_yes:{}", id)),
        Route::SetCurrentSeasonYes { season_uuid: id.clone() }
    );
    assert_eq!(
        route_component(&format!("set_as_current_season_no:{}", id)),
        Route::SetCurrentSeasonNo { season_uuid: id.clone() }
    );
    assert_eq!(
        route_component(&format!("member_select_menu:{}", id)),
        Route::AddMembersToSeason { season_uuid: id.clone() }
    );
    assert_eq!(
        route_component("register_org_yes:Hub:9:7"),
        Route::RegisterOrgYes { org_name: "Hub".into(), guild_id: "9".into(), owner_id: "7".into() }
    );
    assert_eq!(route_component("seasons_next"), Route::Ignore);
    assert_eq!(route_component("register_org_no"), Route::Ignore);
    assert_eq!(route_component("season_type_select_menu"), Route::SeasonTypePicked);
    assert_eq!(route_component("garbage"), Route::Unreadable("Invalid select menu ID".into()));
}

#[test]
fn current_season_answers() {
    assert_eq!(current_season_choice("set_as_current_season_yes:u"), CurrentSeasonChoice::MakeCurrent);
    assert_eq!(current_season_choice("set_as_current_season_no:u"), CurrentSeasonChoice::Keep);
    assert_eq!(current_season_choice("seasons_prev"), CurrentSeasonChoice::Unexpected);
    assert_eq!(current_season_choice("x"), CurrentSeasonChoice::Invalid("Invalid action".into()));
    assert_eq!(set_current_season_reply(None), "Season not found");
    assert_eq!(set_current_season_reply(Some(&Ok(()))), "Success!");
    assert_eq!(
        set_current_season_reply(Some(&Err(DbError::RecordNotFound("Org not found".into())))),
        "Error setting current season: RecordNotFound Error: Org not found"
    );
}

#[test]
fn register_org_answers() {
    assert_eq!(register_org_choice("register_org_no"), RegisterOrgChoice::Decline);
    assert_eq!(register_org_choice("register_org_yes:a:b:c"), RegisterOrgChoice::Register);
    assert_eq!(register_org_choice("register_org_yes"), RegisterOrgChoice::Unexpected);
    assert_eq!(welcome_register_reply(None), "Please register your account first (do '/join')");
    assert_eq!(welcome_register_reply(Some(&Ok(org()))), "Success! Your org was registered.");
    assert_eq!(welcome_register_reply(Some(&Err(other()))), "Failed to register org");
    assert_eq!(register_org_button_reply(None), "Please register your account first (do `/join`)");
    assert_eq!(register_org_button_reply(Some(&Ok(org()))), "Success!");
}

#[test]
fn welcome_message() {
    assert_eq!(mention_text(42), "<@42>");
    let text = welcome_description("ann", "Hub", 42);
    let expected = format!(
        "Hi {}! I've been added to your server **{}**\n\n
            I can help you manage your organization, seasons, and memers!\n\n
            **To get started:**\n
            1. Use `/register_org @{} <your_org_name>` in your server\n
            2. Create seasons with `/create_season`\n
            3. Register members with `/register_members @member...`\n
            4. Add the members to a season with `/add_to_season <season_id> @<member> <placement>`\n\n
            Click Yes to register {} now!",
        "ann", "Hub", "<@42>", "Hub"
    );
    assert_eq!(text, expected);
}

use hub_bot::components::{Button, ButtonStyle, InputText, Modal, SelectMenu, SelectMenuKind};
use hub_bot::season_type::SeasonType;

#[test]
fn modal_ids_read_back() {
    assert_eq!(Modal::CreateSeason.title(), "Create Season");
    assert_eq!(Modal::CreateSeason.id(), "season_create_modal");
    assert_eq!(Modal::from_str("season_create_modal"), Ok(Modal::CreateSeason));
    assert_eq!(Modal::from_str("other"), Err("Invalid modal ID".to_string()));
}

#[test]
fn input_texts() {
    let all = [
        InputText::SeasonTitle,
        InputText::SeasonNumPlayers,
        InputText::SeasonStartDate,
        InputText::SeasonEndDate,
    ];
    for i in all {
        assert_eq!(InputText::from_str(&i.id()), Ok(i));
    }
    assert_eq!(InputText::SeasonTitle.title(), "Season Title");
    assert_eq!(InputText::SeasonNumPlayers.max_length(), 3);
    assert_eq!(InputText::SeasonTitle.max_length(), 100);
    assert!(!InputText::SeasonEndDate.required());
    assert!(InputText::SeasonStartDate.required());
    assert_eq!(
        InputText::SeasonEndDate.placeholder(),
        "Enter end date (YYYY-MM-DD) - Leave empty for no end date"
    );
    assert_eq!(InputText::from_str("season_type"), Err("Invalid input text ID".to_string()));
}

fn all_buttons() -> Vec<Button> {
    vec![
        Button::SetAsCurrentSeasonYes { season_uuid: "abc".to_string() },
        Button::SetAsCurrentSeasonNo { season_uuid: "abc".to_string() },
        Button::RegisterOrgYes {
            org_name: "Org".to_string(),
            guild_id: "1".to_string(),
            owner_id: "2".to_string(),
        },
        Button::RegisterOrgNo,
        Button::SeasonsPrev,
        Button::SeasonsNext,
        Button::SeasonSurvivor { is_active: true },
        Button::SeasonTraitors { is_active: false },
        Button::SeasonBigBrother { is_active: true },
        Button::SeasonTheChallenge { is_active: false },
        Button::SeasonOther { is_active: true },
    ]
}

#[test]
fn button_ids_read_back() {
    for b in all_buttons() {
        assert_eq!(Button::from_str(&b.id()), Ok(b.clone()));
    }
}

#[test]
fn button_ids_and_labels() {
    let b = Button::SetAsCurrentSeasonYes { season_uuid: "u-1".to_string() };
    assert_eq!(b.id(), "set_as_current_season_yes:u-1");
    assert_eq!(b.label(), "Yes");
    assert_eq!(b.style(), ButtonStyle::Primary);
    assert_eq!(Button::SeasonOther { is_active: false }.id(), "seasons_filter:Other:false");
    assert_eq!(Button::SeasonOther { is_active: false }.style(), ButtonStyle::Secondary);
    assert_eq!(Button::SeasonSurvivor { is_active: true }.style(), ButtonStyle::Primary);
    assert_eq!(Button::SeasonsPrev.label(), "◀");
    assert_eq!(Button::SeasonTheChallenge { is_active: true }.label(), "🏆 The Challenge");
    assert_eq!(
        Button::RegisterOrgYes { org_name: "A".into(), guild_id: "B".into(), owner_id: "C".into() }
            .id(),
        "register_org_yes:A:B:C"
    );
}

#[test]
fn button_parse_errors() {
    assert_eq!(Button::from_str("set_as_current_season_yes"), Err("Invalid".to_string()));
    assert_eq!(Button::from_str("register_org_yes:a:b"), Err("Invalid".to_string()));
    assert_eq!(Button::from_str("seasons_filter:Foo"), Err("Invalid".to_string()));
    assert_eq!(Button::from_str("seasons_filter:Foo:true"), Err("Invalid filter type".to_string()));
    assert_eq!(Button::from_str("seasons_filter:Other:yes"), Err("Invalid".to_string()));
    assert_eq!(Button::from_str("nope"), Err("Invalid action".to_string()));
    assert_eq!(Button::from_str("register_org_no:extra"), Ok(Button::RegisterOrgNo));
}

#[test]
fn colon_in_a_field_breaks_the_round_trip() {
    let b = Button::RegisterOrgYes {
        org_name: "A:B".into(),
        guild_id: "1".into(),
        owner_id: "2".into(),
    };
    assert_ne!(Button::from_str(&b.id()), Ok(b));
}

#[test]
fn select_menus() {
    let m = SelectMenu::MemberSelectMenu { season_uuid: "s1".to_string() };
    assert_eq!(m.id(), "member_select_menu:s1");
    assert_eq!(SelectMenu::from_str(&m.id()), Ok(m.clone()));
    assert_eq!(m.min_values(), 0);
    assert_eq!(m.max_values(), 20);
    assert_eq!(m.kind(), SelectMenuKind::User);
    assert!(m.options().is_empty());
    let t = SelectMenu::SeasonTypeSelectMenu;
    assert_eq!(t.id(), "season_type_select_menu");
    assert_eq!(t.placeholder(), "Select Season Type...");
    let labels: Vec<String> = t.options().into_iter().map(|o| o.label).collect();
    assert_eq!(labels, vec!["Survivor", "Traitors", "BigBrother", "TheChallenge", "Other"]);
    assert_eq!((t.min_values(), t.max_values()), (1, 1));
    assert_eq!(SelectMenu::from_str("member_select_menu"), Err("Invalid".to_string()));
    assert_eq!(SelectMenu::from_str("x"), Err("Invalid select menu ID".to_string()));
}

#[test]
fn season_type_values_read_back() {
    for t in SeasonType::all() {
        assert_eq!(SeasonType::from_value(&t.to_value()), Some(t));
    }
    assert_eq!(SeasonType::from_value("survivor"), None);
}

#[test]
fn components_parse_through_from_str_trait() {
    assert_eq!("season_create_modal".parse::<Modal>(), Ok(Modal::CreateSeason));
    assert!("nope".parse::<Modal>().is_err());
    assert_eq!("season_title".parse::<InputText>(), Ok(InputText::SeasonTitle));
    assert_eq!(
        "member_select_menu:abc".parse::<SelectMenu>(),
        Ok(SelectMenu::MemberSelectMenu { season_uuid: "abc".to_string() })
    );
    assert_eq!("seasons_next".parse::<Button>(), Button::from_str("seasons_next"));
    assert_eq!(
        "set_as_current_season_no:abc".parse::<hub_bot::commands::components::Button>(),
        Ok(hub_bot::commands::components::Button::SetAsCurrentSeasonNo {
            season_uuid: "abc".into()
        })
    );
}

use hub_bot::carousel::{dot_active, go_next, go_prev, show_controls};
use hub_bot::commands::components::{Button, SelectMenu};
use hub_bot::components::select_menu::SelectMenuKind;
use hub_bot::components::ButtonStyle;
use hub_bot::date::Date;
use hub_bot::entity::{MemberModel, SeasonModel};
use hub_bot::season_type::SeasonType;

#[test]
fn command_buttons_take_exactly_one_parameter() {
    let b = Button::SetAsCurrentSeasonNo { season_uuid: "abc".into() };
    assert_eq!(b.id(), "set_as_current_season_no:abc");
    assert_eq!(Button::from_str(&b.id()), Ok(b.clone()));
    assert_eq!(b.label(), "No");
    assert_eq!(b.style(), ButtonStyle::Secondary);
    assert_eq!(Button::from_str("set_as_current_season_yes"), Err("Invalid format".to_string()));
    assert_eq!(Button::from_str("set_as_current_season_yes:a:b"), Err("Invalid format".to_string()));
    assert_eq!(Button::from_str("other:a"), Err("Invalid action".to_string()));
}

#[test]
fn command_select_menus_list_records() {
    let s = SeasonModel {
        id: 1,
        title: "Winter".into(),
        org_id: 2,
        num_players: 8,
        start_date: Date { year: 2024, month: 2, day: 9 },
        end_date: None,
        season_type: SeasonType::Survivor,
    };
    let m = SelectMenu::SeasonSelectMenu(vec![s]);
    assert_eq!(m.id(), "season_select_menu");
    let opts = m.options();
    assert_eq!(opts[0].label, "Winter (Started: 2024-02-09)");
    assert_eq!(opts[0].value, "00000000-0000-0000-0000-000000000001");
    assert_eq!((m.min_values(), m.max_values()), (1, 1));
    let members = SelectMenu::MemberSelectMenu(vec![MemberModel {
        id: 255,
        user_id: 1,
        org_id: 2,
        created_at: 0,
        updated_at: 0,
    }]);
    assert_eq!(members.placeholder(), "Select Members to register to...");
    match members.kind() {
        SelectMenuKind::String { options } => {
            assert_eq!(options[0].label, "00000000-0000-0000-0000-0000000000ff")
        }
        SelectMenuKind::User => panic!("member menu lists text choices"),
    }
}

#[test]
fn carousel_wraps_around() {
    assert_eq!(go_next(2, 3), 0);
    assert_eq!(go_next(0, 3), 1);
    assert_eq!(go_prev(0, 3), 2);
    assert_eq!(go_prev(go_next(1, 3), 3), 1);
    assert!(!show_controls(1));
    assert!(show_controls(2));
    assert!(dot_active(1, 1));
    assert!(!dot_active(0, 1));
}

use hub_bot::commands::season::{
    build_embed, build_filter_row, build_nav_row, format_season_description,
    season_by_number, season_info_description, toggle_filter, SeasonsBrowser,
};
use hub_bot::components::Button;
use hub_bot::date::Date;
use hub_bot::entity::{MemberModel, SeasonMemberModel, SeasonModel};
use hub_bot::season_type::SeasonType;
use hub_bot::service::SeasonMemberWithName;

fn season(n: u32, t: SeasonType) -> SeasonModel {
    SeasonModel {
        id: n as u128,
        title: format!("S{}", n),
        org_id: 1,
        num_players: 16,
        start_date: Date { year: 2020, month: 1, day: n.min(28) },
        end_date: if n % 2 == 0 { Some(Date { year: 2021, month: 2, day: 3 }) } else { None },
        season_type: t,
    }
}

fn listing(n: u32) -> Vec<SeasonModel> {
    (1..=n)
        .map(|i| season(i, if i % 3 == 0 { SeasonType::Traitors } else { SeasonType::Survivor }))
        .collect()
}

#[test]
fn toggling_a_filter() {
    assert_eq!(toggle_filter(None, SeasonType::Survivor), Some(SeasonType::Survivor));
    assert_eq!(toggle_filter(Some(SeasonType::Survivor), SeasonType::Survivor), None);
    assert_eq!(toggle_filter(Some(SeasonType::Other), SeasonType::Survivor), Some(SeasonType::Survivor));
    let once = toggle_filter(None, SeasonType::Other);
    assert_eq!(toggle_filter(once, SeasonType::Other), None);
}

#[test]
fn embed_of_first_page() {
    let seasons = listing(12);
    let e = build_embed(&seasons, None, 0, 2);
    assert_eq!(e.title.as_deref(), Some("Seasons (All)"));
    assert_eq!(e.fields.len(), 10);
    assert_eq!(e.fields[0].name, "1. S1");
    assert_eq!(e.fields[0].value, "📅 2020-01-01 - Present");
    assert_eq!(e.fields[1].value, "📅 2020-01-02 - 2021-02-03");
    assert!(!e.fields[0].inline);
    let e2 = build_embed(&seasons, Some(SeasonType::Traitors), 1, 2);
    assert_eq!(e2.title.as_deref(), Some("Seasons: (Traitors) (2)/(2)"));
    assert_eq!(e2.fields.len(), 2);
    assert_eq!(e2.fields[1].name, "12. S12");
}

#[test]
fn empty_listing_has_one_page() {
    let b = SeasonsBrowser::new(vec![]);
    assert_eq!(b.total_pages(), 1);
    assert!(b.embed().fields.is_empty());
    let nav = b.nav_row();
    assert!(nav[0].disabled && nav[1].disabled);
}

#[test]
fn nav_row_disables_at_the_ends() {
    let row = build_nav_row(0, 3);
    assert_eq!(row[0].button, Button::SeasonsPrev);
    assert!(row[0].disabled);
    assert!(!row[1].disabled);
    let row = build_nav_row(2, 3);
    assert!(!row[0].disabled);
    assert!(row[1].disabled);
}

#[test]
fn filter_row_marks_the_active_filter() {
    let row = build_filter_row(Some(SeasonType::BigBrother));
    assert_eq!(
        row,
        vec![
            Button::SeasonSurvivor { is_active: false },
            Button::SeasonBigBrother { is_active: true },
            Button::SeasonTraitors { is_active: false },
            Button::SeasonTheChallenge { is_active: false },
            Button::SeasonOther { is_active: false },
        ]
    );
}

#[test]
fn browsing_pages_and_filters() {
    let mut b = SeasonsBrowser::new(listing(25));
    assert_eq!(b.total_pages(), 3);
    assert!(b.press("seasons_next"));
    assert_eq!(b.page, 1);
    assert!(b.press("seasons_next"));
    assert!(b.press("seasons_next"));
    assert_eq!(b.page, 2);
    assert_eq!(b.embed().fields.len(), 5);
    assert!(b.press("seasons_prev"));
    assert_eq!(b.page, 1);
    // Traitors: seasons 3, 6, ..., 24: eight of them, one page.
    assert!(b.press(&Button::SeasonTraitors { is_active: false }.id()));
    assert_eq!(b.active_filter, Some(SeasonType::Traitors));
    assert_eq!(b.page, 0);
    assert_eq!(b.total_pages(), 1);
    assert_eq!(b.view().len(), 8);
    assert!(b.view().iter().all(|s| s.season_type == SeasonType::Traitors));
    assert!(b.press("seasons_next"));
    assert_eq!(b.page, 0);
    // Pressing the active filter clears it.
    assert!(b.press("seasons_filter:Traitors:true"));
    assert_eq!(b.active_filter, None);
    assert_eq!(b.view().len(), 25);
    assert!(b.press("seasons_prev"));
    assert_eq!(b.page, 0);
}

#[test]
fn other_presses_are_ignored() {
    let mut b = SeasonsBrowser::new(listing(15));
    b.press("seasons_next");
    assert!(!b.press("register_org_no"));
    assert!(!b.press("garbage"));
    assert_eq!(b.page, 1);
}

#[test]
fn season_overview_text() {
    let s = season(2, SeasonType::Survivor);
    assert_eq!(
        format_season_description(3, &s),
        "**3** • S2 \n📅 2020-01-02 - 2021-02-03\n\n"
    );
    let members = vec![
        SeasonMemberWithName {
            season_member: SeasonMemberModel { id: 1, season_id: 2, member_id: 3, placement: None },
            member: Some(MemberModel { id: 3, user_id: 4, org_id: 1, created_at: 0, updated_at: 0 }),
            display_name: Some("Ann".to_string()),
            avatar_url: None,
        },
        SeasonMemberWithName {
            season_member: SeasonMemberModel { id: 2, season_id: 2, member_id: 5, placement: Some(1) },
            member: None,
            display_name: None,
            avatar_url: None,
        },
    ];
    assert_eq!(
        season_info_description(Some((0, &s)), &members),
        "**0** • S2 \n📅 2020-01-02 - 2021-02-03\n\n---------------------------------------\n**Ann**: \t-/16\n****: \t1/16\n"
    );
    assert_eq!(
        season_info_description(None, &members),
        "---------------------------------------\n"
    );
}

#[test]
fn season_numbers_start_at_one() {
    let seasons = listing(3);
    assert_eq!(season_by_number(&seasons, 1).map(|s| s.id), Some(1));
    assert_eq!(season_by_number(&seasons, 3).map(|s| s.id), Some(3));
    assert!(season_by_number(&seasons, 4).is_none());
}

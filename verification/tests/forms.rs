use hub_bot::commands::data::{ActionRow, RowComponent, SeasonFormData, SeasonParsedData};
use hub_bot::commands::season_helpers::{create_season_form, parse_season_form};
use hub_bot::components::{InputText, Modal};
use hub_bot::date::Date;

fn field(id: &str, value: Option<&str>) -> RowComponent {
    RowComponent::InputText { custom_id: id.to_string(), value: value.map(|v| v.to_string()) }
}

fn form(end: Option<&str>) -> Vec<ActionRow> {
    vec![
        ActionRow { components: vec![field("season_title", Some("Pokemon Extravaganza!"))] },
        ActionRow { components: vec![field("season_num_players", Some("18"))] },
        ActionRow { components: vec![field("season_start_date", Some("2024-01-15"))] },
        ActionRow { components: vec![field("season_end_date", end), RowComponent::Other] },
    ]
}

#[test]
fn gathers_a_complete_form() {
    let f = SeasonFormData::from_action_rows(&form(Some("2024-03-01"))).unwrap();
    assert_eq!(f.title, "Pokemon Extravaganza!");
    assert_eq!(f.num_players, "18");
    assert_eq!(f.start_date, "2024-01-15");
    assert_eq!(f.end_date.as_deref(), Some("2024-03-01"));
    let p = f.parsed_data().unwrap();
    assert_eq!(p.num_players, 18);
    assert_eq!(p.start_date, Date { year: 2024, month: 1, day: 15 });
    assert_eq!(p.end_date, Some(Date { year: 2024, month: 3, day: 1 }));
}

#[test]
fn blank_end_date_means_no_end_date() {
    let f = SeasonFormData::from_action_rows(&form(Some("   "))).unwrap();
    assert_eq!(f.end_date, None);
    let f = SeasonFormData::from_action_rows(&form(None)).unwrap();
    assert_eq!(f.end_date, None);
    assert_eq!(f.parsed_data().unwrap().end_date, None);
}

#[test]
fn missing_and_unknown_fields() {
    let rows = vec![ActionRow { components: vec![field("season_title", Some("T"))] }];
    assert_eq!(SeasonFormData::from_action_rows(&rows), Err("Num Players is required".to_string()));
    assert_eq!(SeasonFormData::from_action_rows(&vec![]), Err("Title is required".to_string()));
    let mut rows = form(None);
    rows[2].components[0] = field("season_start_date", None);
    assert_eq!(SeasonFormData::from_action_rows(&rows), Err("Start Date is required".to_string()));
    let mut rows = form(None);
    rows.insert(0, ActionRow { components: vec![field("season_type", Some("Survivor"))] });
    assert_eq!(SeasonFormData::from_action_rows(&rows), Err("Invalid input text ID".to_string()));
}

#[test]
fn later_field_replaces_earlier() {
    let mut rows = form(None);
    rows.push(ActionRow { components: vec![field("season_title", Some("Second"))] });
    assert_eq!(SeasonFormData::from_action_rows(&rows).unwrap().title, "Second");
}

#[test]
fn reading_errors_in_order() {
    let f = |start: &str, end: Option<&str>, n: &str| SeasonFormData {
        title: "T".to_string(),
        num_players: n.to_string(),
        start_date: start.to_string(),
        end_date: end.map(|e| e.to_string()),
    };
    assert_eq!(f("2024-13-01", None, "x").parsed_data(), Err("Invalid Start Date".to_string()));
    assert_eq!(f("2024-01-01", Some("bad"), "x").parsed_data(), Err("Invalid End Date".to_string()));
    assert_eq!(
        f("2024-02-01", Some("2024-01-31"), "x").parsed_data(),
        Err("End Date must be after Start Date".to_string())
    );
    assert_eq!(f("2024-02-01", Some("2024-02-01"), "x").parsed_data(), Err("Invalid number of players".to_string()));
    assert_eq!(f("2024-02-01", Some("2024-02-01"), "-3").parsed_data().unwrap().num_players, -3);
}

#[test]
fn modal_form_layout_and_reading() {
    let (modal, fields) = create_season_form();
    assert_eq!(modal, Modal::CreateSeason);
    assert_eq!(
        fields,
        vec![
            InputText::SeasonTitle,
            InputText::SeasonNumPlayers,
            InputText::SeasonStartDate,
            InputText::SeasonEndDate
        ]
    );
    assert_eq!(parse_season_form(&form(Some("2023-01-01"))), Err("End Date must be after Start Date".to_string()));
    assert_eq!(parse_season_form(&form(None)).unwrap().title, "Pokemon Extravaganza!");
}

#[test]
fn season_from_read_dates() {
    let start = Date { year: 2024, month: 5, day: 2 };
    let end = Date { year: 2024, month: 5, day: 1 };
    let p = SeasonParsedData::from_parts("Spring", "12", Some(start), Some(Some(start))).unwrap();
    assert_eq!(p.title, "Spring");
    assert_eq!(p.num_players, 12);
    assert_eq!(p.end_date, Some(start));
    assert_eq!(
        SeasonParsedData::from_parts("Spring", "12", Some(start), Some(Some(end))).unwrap_err(),
        "End Date must be after Start Date"
    );
    assert_eq!(
        SeasonParsedData::from_parts("Spring", "12", None, Some(Some(end))).unwrap_err(),
        "Invalid Start Date"
    );
    assert_eq!(
        SeasonParsedData::from_parts("Spring", "12", Some(start), Some(None)).unwrap_err(),
        "Invalid End Date"
    );
    assert_eq!(
        SeasonParsedData::from_parts("Spring", "twelve", Some(start), None).unwrap_err(),
        "Invalid number of players"
    );
    assert_eq!(SeasonParsedData::from_parts("Spring", "-3", Some(start), None).unwrap().num_players, -3);
}

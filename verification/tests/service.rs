use hub_bot::date::Date;
use hub_bot::entity::{
    DiscordUserActiveModel, DiscordUserModel, MemberActiveModel, MemberModel, OrgActiveModel,
    OrgModel, SeasonActiveModel, SeasonMemberActiveModel, SeasonMemberModel,
};
use hub_bot::ids::id_text;
use hub_bot::season_type::SeasonType;
use hub_bot::service::{
    members_with_names, new_season_record, season_lookup_id, season_members_with_names,
    with_current_season, DbConfig, DbError,
};

#[test]
fn config_defaults_and_errors() {
    let c = DbConfig::from_env_values(Some("postgres://x".into()), None, None).unwrap();
    assert_eq!(c.connection_url, "postgres://x");
    assert_eq!((c.max_connections, c.min_connections), (10, 5));
    let c = DbConfig::from_env_values(Some("u".into()), Some("+20".into()), Some("1".into())).unwrap();
    assert_eq!((c.max_connections, c.min_connections), (20, 1));
    assert_eq!(
        DbConfig::from_env_values(None, None, None),
        Err(DbError::Custom("DATABASE_URL must be set".into()))
    );
    assert_eq!(
        DbConfig::from_env_values(Some("u".into()), Some("ten".into()), Some("x".into())),
        Err(DbError::Custom("MAX_CONNECTIONS must be a number".into()))
    );
    assert_eq!(
        DbConfig::from_env_values(Some("u".into()), None, Some("-1".into())),
        Err(DbError::Custom("MIN_CONNECTIONS must be a number".into()))
    );
}

#[test]
fn error_texts() {
    assert_eq!(DbError::Custom("x".into()).text(), "Custom Error: x");
    assert_eq!(DbError::RecordNotFound("Org not found".into()).text(), "RecordNotFound Error: Org not found");
    let e = DbError::Database { unique_violation: true, message: "dup".into() };
    assert_eq!(e.text(), "dup");
    assert!(e.is_unique_violation());
    assert!(!DbError::Custom("x".into()).is_unique_violation());
}

#[test]
fn season_records() {
    let d = Date { year: 2024, month: 1, day: 1 };
    assert_eq!(
        new_season_record("T", 1, -1, d, None, None),
        Err(DbError::Custom("Number of players must be non-negative".into()))
    );
    let m = new_season_record("T", 7, 0, d, Some(d), Some(SeasonType::Other)).unwrap();
    assert_eq!((m.title.as_str(), m.org_id, m.num_players), ("T", 7, 0));
    assert_eq!(m.season_type, Some(SeasonType::Other));
}

#[test]
fn season_lookup_ids() {
    let u = 0x0123_4567_89ab_cdef_0123_4567_89ab_cdefu128;
    assert_eq!(season_lookup_id(&id_text(u)), Ok(u));
    assert_eq!(season_lookup_id("xyz"), Err(DbError::Custom("Invalid UUID format".into())));
}

#[test]
fn current_season_update() {
    let org = OrgModel {
        id: 1,
        name: "O".into(),
        discord_id: "9".into(),
        owner_id: 2,
        current_season_id: None,
        created_at: 5,
        updated_at: 6,
    };
    let o = with_current_season(Some(org.clone()), 42).unwrap();
    assert_eq!(o.current_season_id, Some(42));
    assert_eq!(o.name, org.name);
    assert_eq!(with_current_season(None, 42), Err(DbError::RecordNotFound("Org not found".into())));
}

fn user(name: &str) -> DiscordUserModel {
    DiscordUserModel {
        id: 8,
        discord_id: "123".into(),
        display_name: name.into(),
        timezone: "UTC".into(),
        avatar_url: "http://a".into(),
        created_at: 0,
        updated_at: 0,
    }
}

#[test]
fn rows_become_named_members() {
    let m = MemberModel { id: 1, user_id: 8, org_id: 3, created_at: 0, updated_at: 0 };
    let named = members_with_names(Ok(vec![(m, Some(user("Ann"))), (m, None)]));
    assert_eq!(named.len(), 2);
    assert_eq!(named[0].display_name.as_deref(), Some("Ann"));
    assert_eq!(named[0].discord_user_id.as_deref(), Some("123"));
    assert_eq!(named[1].display_name, None);
    assert!(members_with_names(Err(DbError::Custom("x".into()))).is_empty());
    let sm = SeasonMemberModel { id: 1, season_id: 2, member_id: 1, placement: Some(3) };
    let entries = season_members_with_names(Ok(vec![(sm, Some(m), Some(user("Bo")))]));
    assert_eq!(entries[0].avatar_url.as_deref(), Some("http://a"));
    assert_eq!(entries[0].display_name.as_deref(), Some("Bo"));
    assert_eq!(entries[0].member, Some(m));
    assert!(season_members_with_names(Err(DbError::Custom("x".into()))).is_empty());
}

#[test]
fn new_records_get_fresh_ids_and_defaults() {
    let u = DiscordUserActiveModel::new("1", "Ann", None, None);
    assert_eq!(u.timezone, "UTC");
    assert_eq!(u.avatar_url, "");
    let v = DiscordUserActiveModel::new("1", "Ann", Some("PST".into()), Some("x".into()));
    assert_eq!((v.timezone.as_str(), v.avatar_url.as_str()), ("PST", "x"));
    assert_ne!(u.id, v.id);
    assert!(u.created_at > 1_600_000_000_000_000);
    let m = MemberActiveModel::new(5, 6);
    assert_eq!((m.user_id, m.org_id), (5, 6));
    let o = OrgActiveModel::new("Org", "77", 5, None);
    assert_eq!((o.name.as_str(), o.discord_id.as_str()), ("Org", "77"));
    let d = Date { year: 2024, month: 1, day: 1 };
    let s = SeasonActiveModel::new("T", 1, 4, d, None, None);
    assert_eq!(s.num_players, 4);
    let e = SeasonMemberActiveModel::new(1, 2, Some(3));
    assert_eq!((e.season_id, e.member_id, e.placement), (1, 2, Some(3)));
    assert_ne!(s.id, e.id);
}

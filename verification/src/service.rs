//! The decisions of the database service: its configuration, its errors, the checks
//! made before a query, and how query rows become the service's answers.
use vstd::prelude::*;
use vstd::string::*;

use crate::date::Date;
use crate::entity::{
    DiscordUserModel, MemberModel, OrgModel, SeasonActiveModel, SeasonMemberModel,
};
use crate::ids::{parse_id, parsed_uuid, uuid_text};
use crate::season_type::SeasonType;
use crate::text::{parse_u32, u32_text_value};
use sea_orm::DatabaseConnection;
use std::sync::Arc;

verus! {

/// An error of the database service.
#[derive(Clone, Debug, PartialEq, Eq)]
pub enum DbError {
    /// A failure the service reports itself, with its message.
    Custom(String),
    /// A record the operation needs does not exist.
    RecordNotFound(String),
    /// A failure reported by the database, with its text and whether it broke a
    /// uniqueness constraint.
    Database { unique_violation: bool, message: String },
}

/// How an error reads when shown to a user.
pub open spec fn db_error_text(e: DbError) -> Seq<char> {
    match e {
        DbError::Custom(m) => "Custom Error: "@ + m@,
        DbError::RecordNotFound(m) => "RecordNotFound Error: "@ + m@,
        DbError::Database { message, .. } => message@,
    }
}

impl DbError {
    /// The error as shown to a user.
    pub fn text(&self) -> (s: String)
        ensures
            s@ == db_error_text(*self),
    {
        match self {
            DbError::Custom(m) => crate::text::join2("Custom Error: ", m.as_str()),
            DbError::RecordNotFound(m) => crate::text::join2("RecordNotFound Error: ", m.as_str()),
            DbError::Database { message, .. } => message.clone(),
        }
    }

    /// Whether the error is the database refusing a duplicate.
    pub fn is_unique_violation(&self) -> (b: bool)
        ensures
            b == (*self matches DbError::Database { unique_violation, .. } && unique_violation),
    {
        match self {
            DbError::Database { unique_violation, .. } => *unique_violation,
            _ => false,
        }
    }
}

/// How to reach the database.
#[derive(Clone, Debug, PartialEq, Eq)]
pub struct DbConfig {
    pub connection_url: String,
    pub max_connections: u32,
    pub min_connections: u32,
}

/// The pool bound read from a setting, or from `default` when the setting is absent.
pub open spec fn setting_value(setting: Option<Seq<char>>, default: Seq<char>) -> Option<u32> {
    match setting {
        Some(s) => u32_text_value(s),
        None => u32_text_value(default),
    }
}

pub open spec fn opt_text(o: Option<String>) -> Option<Seq<char>> {
    match o {
        Some(s) => Some(s@),
        None => None,
    }
}

/// The connection url and pool bounds that the settings give, or the message of the
/// first setting that is missing or not a number.
pub open spec fn config_outcome(
    url: Option<Seq<char>>,
    max: Option<Seq<char>>,
    min: Option<Seq<char>>,
) -> Result<(Seq<char>, u32, u32), Seq<char>> {
    match url {
        None => Err("DATABASE_URL must be set"@),
        Some(u) => match setting_value(max, "10"@) {
            None => Err("MAX_CONNECTIONS must be a number"@),
            Some(mx) => match setting_value(min, "5"@) {
                None => Err("MIN_CONNECTIONS must be a number"@),
                Some(mn) => Ok((u, mx, mn)),
            },
        },
    }
}

impl DbConfig {
    /// Builds the configuration from the values of the settings `DATABASE_URL`,
    /// `MAX_CONNECTIONS` (default "10") and `MIN_CONNECTIONS` (default "5").
    pub fn from_env_values(
        database_url: Option<String>,
        max_connections: Option<String>,
        min_connections: Option<String>,
    ) -> (r: Result<DbConfig, DbError>)
        ensures
            match r {
                Ok(c) => config_outcome(
                    opt_text(database_url),
                    opt_text(max_connections),
                    opt_text(min_connections),
                ) == Ok::<(Seq<char>, u32, u32), Seq<char>>(
                    (c.connection_url@, c.max_connections, c.min_connections),
                ),
                Err(e) => e matches DbError::Custom(m) && config_outcome(
                    opt_text(database_url),
                    opt_text(max_connections),
                    opt_text(min_connections),
                ) == Err::<(Seq<char>, u32, u32), Seq<char>>(m@),
            },
    {
        let connection_url = match database_url {
            Some(u) => u,
            None => {
                return Err(DbError::Custom(String::from_str("DATABASE_URL must be set")));
            },
        };
        let max_text = match max_connections {
            Some(s) => s,
            None => String::from_str("10"),
        };
        let max_connections = match parse_u32(max_text.as_str()) {
            Some(n) => n,
            None => {
                return Err(DbError::Custom(String::from_str("MAX_CONNECTIONS must be a number")));
            },
        };
        let min_text = match min_connections {
            Some(s) => s,
            None => String::from_str("5"),
        };
        let min_connections = match parse_u32(min_text.as_str()) {
            Some(n) => n,
            None => {
                return Err(DbError::Custom(String::from_str("MIN_CONNECTIONS must be a number")));
            },
        };
        Ok(DbConfig { connection_url, max_connections, min_connections })
    }
}

/// A connection (pool) to the database, as sea-orm hands it out.
#[verifier::external_type_specification]
#[verifier::external_body]
pub struct ExDatabaseConnection(DatabaseConnection);

/// The database service: its configuration and, once connected, its connection.
#[derive(Clone, Debug)]
pub struct DbService {
    pub config: DbConfig,
    pub connection: Option<Arc<DatabaseConnection>>,
}

impl DbService {
    /// A service for `config`, not yet connected.
    pub fn new(config: DbConfig) -> (s: DbService)
        ensures
            s.config == config,
            s.connection is None,
    {
        DbService { config, connection: None }
    }

    /// The connection, or the error that the service is not connected.
    pub fn get_connection(&self) -> (r: Result<&DatabaseConnection, DbError>)
        ensures
            self.connection is None <==> r is Err,
            r matches Ok(c) ==> *c == *self.connection->0,
            r matches Err(e) ==> e matches DbError::Custom(m) && m@ == "Database not connected"@,
    {
        match &self.connection {
            Some(conn) => Ok(&**conn),
            None => Err(DbError::Custom(String::from_str("Database not connected"))),
        }
    }
}

/// A member with the name and Discord id of the user behind it, when known.
#[derive(Clone, Debug, PartialEq, Eq)]
pub struct MemberWithName {
    pub member: MemberModel,
    pub display_name: Option<String>,
    pub discord_user_id: Option<String>,
}

/// A season entry with its member and the member's name and avatar, when known.
#[derive(Clone, Debug, PartialEq, Eq)]
pub struct SeasonMemberWithName {
    pub season_member: SeasonMemberModel,
    pub member: Option<MemberModel>,
    pub display_name: Option<String>,
    pub avatar_url: Option<String>,
}

/// The season record to insert for a creation request; a negative number of players
/// is refused.
pub fn new_season_record(
    title: &str,
    org_id: u128,
    num_players: i32,
    start_date: Date,
    end_date: Option<Date>,
    season_type: Option<SeasonType>,
) -> (r: Result<SeasonActiveModel, DbError>)
    ensures
        num_players < 0 <==> r is Err,
        r matches Err(e) ==> e matches DbError::Custom(m) && m@
            == "Number of players must be non-negative"@,
        r matches Ok(m) ==> m.title@ == title@ && m.org_id == org_id && m.num_players
            == num_players && m.start_date == start_date && m.end_date == end_date
            && m.season_type == season_type,
{
    if num_players < 0 {
        return Err(DbError::Custom(String::from_str("Number of players must be non-negative")));
    }
    Ok(SeasonActiveModel::new(title, org_id, num_players, start_date, end_date, season_type))
}

/// The identifier of the season named by `season_uuid`, or the error for text that is
/// not an identifier.
pub fn season_lookup_id(season_uuid: &str) -> (r: Result<u128, DbError>)
    ensures
        r matches Ok(u) ==> parsed_uuid(season_uuid@) == Some(u),
        r is Err ==> parsed_uuid(season_uuid@) is None,
        r matches Err(e) ==> e matches DbError::Custom(m) && m@ == "Invalid UUID format"@,
        forall|u: u128| season_uuid@ == uuid_text(u) ==> r == Ok::<u128, DbError>(u),
{
    match parse_id(season_uuid) {
        Some(u) => Ok(u),
        None => Err(DbError::Custom(String::from_str("Invalid UUID format"))),
    }
}

/// The organization with `season_id` as its current season, or the error when there is
/// no such organization.
pub fn with_current_season(org: Option<OrgModel>, season_id: u128) -> (r: Result<OrgModel, DbError>)
    ensures
        org is None <==> r is Err,
        r matches Err(e) ==> e matches DbError::RecordNotFound(m) && m@ == "Org not found"@,
        r matches Ok(o) ==> o.current_season_id == Some(season_id) && o.id == org->0.id
            && o.name == org->0.name && o.discord_id == org->0.discord_id && o.owner_id
            == org->0.owner_id && o.created_at == org->0.created_at && o.updated_at
            == org->0.updated_at,
{
    match org {
        Some(o) => Ok(OrgModel { current_season_id: Some(season_id), ..o }),
        None => Err(DbError::RecordNotFound(String::from_str("Org not found"))),
    }
}

pub open spec fn opt_user_name(u: Option<DiscordUserModel>) -> Option<Seq<char>> {
    match u {
        Some(u) => Some(u.display_name@),
        None => None,
    }
}

pub open spec fn opt_user_discord_id(u: Option<DiscordUserModel>) -> Option<Seq<char>> {
    match u {
        Some(u) => Some(u.discord_id@),
        None => None,
    }
}

pub open spec fn opt_user_avatar(u: Option<DiscordUserModel>) -> Option<Seq<char>> {
    match u {
        Some(u) => Some(u.avatar_url@),
        None => None,
    }
}

/// `m` is the row `row` with its user's name and Discord id.
pub open spec fn named_member_of(m: MemberWithName, row: (MemberModel, Option<DiscordUserModel>)) -> bool {
    &&& m.member == row.0
    &&& opt_text(m.display_name) == opt_user_name(row.1)
    &&& opt_text(m.discord_user_id) == opt_user_discord_id(row.1)
}

fn name_of(u: &Option<DiscordUserModel>) -> (r: Option<String>)
    ensures
        opt_text(r) == opt_user_name(*u),
{
    match u {
        Some(u) => Some(u.display_name.clone()),
        None => None,
    }
}

fn discord_id_of(u: &Option<DiscordUserModel>) -> (r: Option<String>)
    ensures
        opt_text(r) == opt_user_discord_id(*u),
{
    match u {
        Some(u) => Some(u.discord_id.clone()),
        None => None,
    }
}

fn avatar_of(u: &Option<DiscordUserModel>) -> (r: Option<String>)
    ensures
        opt_text(r) == opt_user_avatar(*u),
{
    match u {
        Some(u) => Some(u.avatar_url.clone()),
        None => None,
    }
}

/// The members of an organization with their names, from the rows of the member query
/// joined with users; a failed query gives no members.
pub fn members_with_names(rows: Result<Vec<(MemberModel, Option<DiscordUserModel>)>, DbError>) -> (v:
    Vec<MemberWithName>)
    ensures
        rows is Err ==> v.len() == 0,
        rows matches Ok(rs) ==> v.len() == rs.len() && forall|i: int|
            0 <= i < rs.len() ==> #[trigger] named_member_of(v[i], rs[i]),
{
    let rs = match rows {
        Ok(rs) => rs,
        Err(_) => {
            return Vec::new();
        },
    };
    let mut v: Vec<MemberWithName> = Vec::new();
    let mut i: usize = 0;
    while i < rs.len()
        invariant
            i <= rs.len(),
            v.len() == i,
            forall|k: int| 0 <= k < i ==> #[trigger] named_member_of(v[k], rs[k]),
        decreases rs.len() - i,
    {
        let row = &rs[i];
        v.push(
            MemberWithName {
                member: row.0,
                display_name: name_of(&row.1),
                discord_user_id: discord_id_of(&row.1),
            },
        );
        i = i + 1;
    }
    v
}

/// The entries of a season with their members' names and avatars, from the rows of the
/// entry query joined with members and users; a failed query gives no entries.
pub fn season_members_with_names(
    rows: Result<Vec<(SeasonMemberModel, Option<MemberModel>, Option<DiscordUserModel>)>, DbError>,
) -> (v: Vec<SeasonMemberWithName>)
    ensures
        rows is Err ==> v.len() == 0,
        rows matches Ok(rs) ==> v.len() == rs.len() && forall|i: int|
            0 <= i < rs.len() ==> {
                &&& #[trigger] v[i].season_member == rs[i].0
                &&& v[i].member == rs[i].1
                &&& opt_text(v[i].display_name) == opt_user_name(rs[i].2)
                &&& opt_text(v[i].avatar_url) == opt_user_avatar(rs[i].2)
            },
{
    let rs = match rows {
        Ok(rs) => rs,
        Err(_) => {
            return Vec::new();
        },
    };
    let mut v: Vec<SeasonMemberWithName> = Vec::new();
    let mut i: usize = 0;
    while i < rs.len()
        invariant
            i <= rs.len(),
            v.len() == i,
            forall|k: int|
                0 <= k < i ==> {
                    &&& #[trigger] v[k].season_member == rs[k].0
                    &&& v[k].member == rs[k].1
                    &&& opt_text(v[k].display_name) == opt_user_name(rs[k].2)
                    &&& opt_text(v[k].avatar_url) == opt_user_avatar(rs[k].2)
                },
        decreases rs.len() - i,
    {
        let row = &rs[i];
        v.push(
            SeasonMemberWithName {
                season_member: row.0,
                member: row.1,
                display_name: name_of(&row.2),
                avatar_url: avatar_of(&row.2),
            },
        );
        i = i + 1;
    }
    v
}

} // verus!

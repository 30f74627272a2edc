//! The stored records: users, organizations, members, seasons and season entries,
//! and the new records that the bot inserts.
use vstd::prelude::*;
use vstd::string::*;

use crate::date::Date;
use crate::ids::new_random_id;
use crate::season_type::SeasonType;

verus! {

/// Calls chrono's `Utc::now()` and reads its `timestamp_micros()`: the current time in
/// microseconds since the Unix epoch. It depends on the clock, so nothing is promised of
/// the value.
#[verifier::external_body]
fn utc_now_micros() -> (t: i64) {
    chrono::Utc::now().timestamp_micros()
}

/// A registered Discord user.
#[derive(Clone, Debug, PartialEq, Eq)]
pub struct DiscordUserModel {
    pub id: u128,
    pub discord_id: String,
    pub display_name: String,
    pub timezone: String,
    pub avatar_url: String,
    pub created_at: i64,
    pub updated_at: i64,
}

/// An organization, tied to one Discord server.
#[derive(Clone, Debug, PartialEq, Eq)]
pub struct OrgModel {
    pub id: u128,
    pub name: String,
    pub discord_id: String,
    pub owner_id: u128,
    pub current_season_id: Option<u128>,
    pub created_at: i64,
    pub updated_at: i64,
}

/// A user's membership in an organization.
#[derive(Clone, Copy, Debug, PartialEq, Eq, Structural)]
pub struct MemberModel {
    pub id: u128,
    pub user_id: u128,
    pub org_id: u128,
    pub created_at: i64,
    pub updated_at: i64,
}

/// A season of an organization.
#[derive(Clone, Debug, PartialEq, Eq)]
pub struct SeasonModel {
    pub id: u128,
    pub title: String,
    pub org_id: u128,
    pub num_players: i32,
    pub start_date: Date,
    pub end_date: Option<Date>,
    pub season_type: SeasonType,
}

/// A member's entry in a season, with the place they finished in, if known.
#[derive(Clone, Copy, Debug, PartialEq, Eq, Structural)]
pub struct SeasonMemberModel {
    pub id: u128,
    pub season_id: u128,
    pub member_id: u128,
    pub placement: Option<i32>,
}

/// A user record about to be inserted.
#[derive(Clone, Debug, PartialEq, Eq)]
pub struct DiscordUserActiveModel {
    pub id: u128,
    pub discord_id: String,
    pub display_name: String,
    pub timezone: String,
    pub avatar_url: String,
    pub created_at: i64,
    pub updated_at: i64,
}

/// A membership record about to be inserted.
#[derive(Clone, Copy, Debug, PartialEq, Eq, Structural)]
pub struct MemberActiveModel {
    pub id: u128,
    pub user_id: u128,
    pub org_id: u128,
    pub created_at: i64,
    pub updated_at: i64,
}

/// An organization record about to be inserted.
#[derive(Clone, Debug, PartialEq, Eq)]
pub struct OrgActiveModel {
    pub id: u128,
    pub name: String,
    pub discord_id: String,
    pub owner_id: u128,
    pub current_season_id: Option<u128>,
    pub created_at: i64,
    pub updated_at: i64,
}

/// A season record about to be inserted; without a season type the database default
/// applies.
#[derive(Clone, Debug, PartialEq, Eq)]
pub struct SeasonActiveModel {
    pub id: u128,
    pub title: String,
    pub org_id: u128,
    pub num_players: i32,
    pub start_date: Date,
    pub end_date: Option<Date>,
    pub season_type: Option<SeasonType>,
}

/// A season entry about to be inserted.
#[derive(Clone, Copy, Debug, PartialEq, Eq, Structural)]
pub struct SeasonMemberActiveModel {
    pub id: u128,
    pub season_id: u128,
    pub member_id: u128,
    pub placement: Option<i32>,
}

impl SeasonModel {
    /// A copy of this season.
    pub fn duplicate(&self) -> (r: SeasonModel)
        ensures
            r == *self,
    {
        SeasonModel {
            id: self.id,
            title: self.title.clone(),
            org_id: self.org_id,
            num_players: self.num_players,
            start_date: self.start_date,
            end_date: self.end_date,
            season_type: self.season_type,
        }
    }
}

impl DiscordUserActiveModel {
    /// A new user with a fresh id; the timezone defaults to "UTC" and the avatar url to
    /// the empty text.
    pub fn new(
        discord_id: &str,
        display_name: &str,
        timezone: Option<String>,
        avatar_url: Option<String>,
    ) -> (m: Self)
        ensures
            m.discord_id@ == discord_id@,
            m.display_name@ == display_name@,
            m.timezone@ == (match timezone {
                Some(t) => t@,
                None => "UTC"@,
            }),
            m.avatar_url@ == (match avatar_url {
                Some(a) => a@,
                None => Seq::<char>::empty(),
            }),
    {
        let timezone = match timezone {
            Some(t) => t,
            None => String::from_str("UTC"),
        };
        let avatar_url = match avatar_url {
            Some(a) => a,
            None => String::new(),
        };
        DiscordUserActiveModel {
            id: new_random_id(),
            discord_id: String::from_str(discord_id),
            display_name: String::from_str(display_name),
            timezone,
            avatar_url,
            created_at: utc_now_micros(),
            updated_at: utc_now_micros(),
        }
    }
}

impl MemberActiveModel {
    /// A new membership of `discord_user_id` in `org_id`, with a fresh id.
    pub fn new(discord_user_id: u128, org_id: u128) -> (m: Self)
        ensures
            m.user_id == discord_user_id,
            m.org_id == org_id,
    {
        MemberActiveModel {
            id: new_random_id(),
            user_id: discord_user_id,
            org_id,
            created_at: utc_now_micros(),
            updated_at: utc_now_micros(),
        }
    }
}

impl OrgActiveModel {
    /// A new organization with a fresh id.
    pub fn new(name: &str, discord_id: &str, owner_id: u128, current_season_id: Option<u128>) -> (m:
        Self)
        ensures
            m.name@ == name@,
            m.discord_id@ == discord_id@,
            m.owner_id == owner_id,
            m.current_season_id == current_season_id,
    {
        OrgActiveModel {
            id: new_random_id(),
            name: String::from_str(name),
            discord_id: String::from_str(discord_id),
            owner_id,
            current_season_id,
            created_at: utc_now_micros(),
            updated_at: utc_now_micros(),
        }
    }
}

impl SeasonActiveModel {
    /// A new season with a fresh id.
    pub fn new(
        title: &str,
        org_id: u128,
        num_players: i32,
        start_date: Date,
        end_date: Option<Date>,
        season_type: Option<SeasonType>,
    ) -> (m: Self)
        ensures
            m.title@ == title@,
            m.org_id == org_id,
            m.num_players == num_players,
            m.start_date == start_date,
            m.end_date == end_date,
            m.season_type == season_type,
    {
        SeasonActiveModel {
            id: new_random_id(),
            title: String::from_str(title),
            org_id,
            num_players,
            start_date,
            end_date,
            season_type,
        }
    }
}

impl SeasonMemberActiveModel {
    /// A new entry of `member_id` in `season_id`, with a fresh id.
    pub fn new(season_id: u128, member_id: u128, placement: Option<i32>) -> (m: Self)
        ensures
            m.season_id == season_id,
            m.member_id == member_id,
            m.placement == placement,
    {
        SeasonMemberActiveModel { id: new_random_id(), season_id, member_id, placement }
    }
}

} // verus!

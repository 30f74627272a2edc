//! Registering members of an organization and entering them into seasons.
use vstd::prelude::*;
use vstd::string::*;

use crate::entity::{MemberModel, SeasonMemberModel};
use crate::service::DbError;

verus! {

/// Whether an error is the database refusing a duplicate.
pub open spec fn unique_violation(e: DbError) -> bool {
    e matches DbError::Database { unique_violation, .. } && unique_violation
}

pub open spec fn opt_seq(o: Option<u64>) -> Seq<u64> {
    match o {
        Some(x) => seq![x],
        None => Seq::empty(),
    }
}

/// The members named by a `register_members` call: the first one, then each of the
/// optional ones that was given, in order.
pub fn register_members_list(
    member: u64,
    member_1: Option<u64>,
    member_2: Option<u64>,
    member_3: Option<u64>,
    member_4: Option<u64>,
    member_5: Option<u64>,
) -> (v: Vec<u64>)
    ensures
        v@ == seq![member] + opt_seq(member_1) + opt_seq(member_2) + opt_seq(member_3) + opt_seq(
            member_4,
        ) + opt_seq(member_5),
{
    let mut v = Vec::new();
    v.push(member);
    let ghost s0 = v@;
    if let Some(m) = member_1 {
        v.push(m);
    }
    assert(v@ =~= s0 + opt_seq(member_1));
    let ghost s1 = v@;
    if let Some(m) = member_2 {
        v.push(m);
    }
    assert(v@ =~= s1 + opt_seq(member_2));
    let ghost s2 = v@;
    if let Some(m) = member_3 {
        v.push(m);
    }
    assert(v@ =~= s2 + opt_seq(member_3));
    let ghost s3 = v@;
    if let Some(m) = member_4 {
        v.push(m);
    }
    assert(v@ =~= s3 + opt_seq(member_4));
    let ghost s4 = v@;
    if let Some(m) = member_5 {
        v.push(m);
    }
    assert(v@ =~= s4 + opt_seq(member_5));
    v
}

/// The reply to registering a member, given the user's display name and Discord id
/// and what the database answered.
pub fn register_member_reply(
    display_name: &str,
    discord_user_id: &str,
    created: &Result<MemberModel, DbError>,
) -> (r: String)
    ensures
        r@ == (match created {
            Ok(_) => "Member "@ + display_name@ + " registered successfully!"@,
            Err(e) => if unique_violation(*e) {
                "Member with Discord ID "@ + discord_user_id@ + " already exists in the organization"@
            } else {
                "An unexpected database error occurred"@
            },
        }),
{
    match created {
        Ok(_) => crate::text::join3("Member ", display_name, " registered successfully!"),
        Err(e) => {
            if e.is_unique_violation() {
                crate::text::join3(
                    "Member with Discord ID ",
                    discord_user_id,
                    " already exists in the organization",
                )
            } else {
                String::from_str("An unexpected database error occurred")
            }
        },
    }
}

/// The reply when the server's organization or the user is not registered.
pub fn unregistered_reply(discord_guild_id: &str, discord_user_id: &str) -> (r: String)
    ensures
        r@ == "Please check if Org "@ + discord_guild_id@ + " or User "@ + discord_user_id@
            + " is registered"@,
{
    let mut r = crate::text::join3("Please check if Org ", discord_guild_id, " or User ");
    r.append(discord_user_id);
    r.append(" is registered");
    r
}

/// The reply to entering a member into a season, given what the database answered.
pub fn add_to_season_reply(added: &Result<SeasonMemberModel, DbError>) -> (r: &'static str)
    ensures
        r@ == (match added {
            Ok(_) => "Member added successfully"@,
            Err(e) => if unique_violation(*e) {
                "Member already exists in season"@
            } else {
                "Failed to add member to season"@
            },
        }),
{
    match added {
        Ok(_) => "Member added successfully",
        Err(e) => {
            if e.is_unique_violation() {
                "Member already exists in season"
            } else {
                "Failed to add member to season"
            }
        },
    }
}

/// The reply when the season number names no season of the organization.
pub const INVALID_SEASON_NUMBER: &'static str = "Invalid season number";

} // verus!

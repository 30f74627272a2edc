//! Registering users.
use vstd::prelude::*;
use vstd::string::*;

use crate::commands::member::unique_violation;
use crate::entity::DiscordUserModel;
use crate::service::{db_error_text, DbError};

verus! {

/// The reply to registering a user, given the user's Discord id and what the database
/// answered.
pub fn register_user_reply(discord_id: &str, created: &Result<DiscordUserModel, DbError>) -> (r:
    String)
    ensures
        r@ == (match created {
            Ok(user) => "User "@ + user.display_name@ + " registered successfully!"@,
            Err(e) => if unique_violation(*e) {
                "User with Discord ID "@ + discord_id@ + " already exists"@
            } else {
                "An unexpected error occurred: "@ + db_error_text(*e)
            },
        }),
{
    match created {
        Ok(user) => crate::text::join3(
            "User ",
            user.display_name.as_str(),
            " registered successfully!",
        ),
        Err(e) => {
            if e.is_unique_violation() {
                crate::text::join3("User with Discord ID ", discord_id, " already exists")
            } else {
                let t = e.text();
                crate::text::join2("An unexpected error occurred: ", t.as_str())
            }
        },
    }
}

} // verus!

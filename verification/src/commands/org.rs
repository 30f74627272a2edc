//! Registering an organization for a server.
use vstd::prelude::*;
use vstd::string::*;

use crate::commands::member::unique_violation;
use crate::entity::OrgModel;
use crate::service::{db_error_text, DbError};

verus! {

/// The reply to registering an organization, given the requested name and what the
/// database answered.
pub fn register_org_reply(org_name: &str, created: &Result<OrgModel, DbError>) -> (r: String)
    ensures
        r@ == (match created {
            Ok(org) => "Organization "@ + org.name@ + " registered successfully!"@,
            Err(e) => if unique_violation(*e) {
                "Organization with name "@ + org_name@ + " already exists."@
            } else {
                "An error occurred while registering the organization: "@ + db_error_text(*e)
            },
        }),
{
    match created {
        Ok(org) => crate::text::join3("Organization ", org.name.as_str(), " registered successfully!"),
        Err(e) => {
            if e.is_unique_violation() {
                crate::text::join3("Organization with name ", org_name, " already exists.")
            } else {
                let t = e.text();
                crate::text::join2(
                    "An error occurred while registering the organization: ",
                    t.as_str(),
                )
            }
        },
    }
}

/// The reply when the named owner has not registered as a user.
pub fn owner_not_found_reply(owner_id: &str) -> (r: String)
    ensures
        r@ == "User with Discord ID "@ + owner_id@
            + " not found. Please register as a user first."@,
{
    crate::text::join3(
        "User with Discord ID ",
        owner_id,
        " not found. Please register as a user first.",
    )
}

} // verus!

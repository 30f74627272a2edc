//! The welcome message sent to the owner of a server the bot joins.
use vstd::prelude::*;
use vstd::string::*;

use crate::text::{decimal, decimal_text};

verus! {

/// The title of the welcome message.
pub const WELCOME_TITLE: &'static str = "Welcome to Discord Org Hub!";

/// The colour of the welcome message (green).
pub const WELCOME_COLOUR: u32 = 0x00FF00;

/// How a user is mentioned in a message.
pub open spec fn mention(user_id: u64) -> Seq<char> {
    "<@"@ + decimal(user_id as nat) + ">"@
}

pub fn mention_text(user_id: u64) -> (r: String)
    ensures
        r@ == mention(user_id),
{
    let d = decimal_text(user_id);
    crate::text::join3("<@", d.as_str(), ">")
}

/// The body of the welcome message: it greets the owner by name, names the server, and
/// lists the first commands to use.
pub open spec fn welcome_text(owner_name: Seq<char>, guild_name: Seq<char>, owner_id: u64) -> Seq<
    char,
> {
    "Hi "@ + owner_name + "! I've been added to your server **"@ + guild_name + "**\n\n\n            I can help you manage your organization, seasons, and memers!\n\n\n            **To get started:**\n\n            1. Use `/register_org @"@ + mention(
        owner_id,
    ) + " <your_org_name>` in your server\n\n            2. Create seasons with `/create_season`\n\n            3. Register members with `/register_members @member...`\n\n            4. Add the members to a season with `/add_to_season <season_id> @<member> <placement>`\n\n\n            Click Yes to register "@ + guild_name + " now!"@
}

pub fn welcome_description(owner_name: &str, guild_name: &str, owner_id: u64) -> (r: String)
    ensures
        r@ == welcome_text(owner_name@, guild_name@, owner_id),
{
    let mut r = crate::text::join3("Hi ", owner_name, "! I've been added to your server **");
    r.append(guild_name);
    r.append("**\n\n\n            I can help you manage your organization, seasons, and memers!\n\n\n            **To get started:**\n\n            1. Use `/register_org @");
    let m = mention_text(owner_id);
    r.append(m.as_str());
    r.append(" <your_org_name>` in your server\n\n            2. Create seasons with `/create_season`\n\n            3. Register members with `/register_members @member...`\n\n            4. Add the members to a season with `/add_to_season <season_id> @<member> <placement>`\n\n\n            Click Yes to register ");
    r.append(guild_name);
    r.append(" now!");
    r
}

} // verus!

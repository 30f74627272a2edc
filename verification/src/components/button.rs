//! Buttons: labels, styles, custom ids, and reading a button back from its custom id.
use vstd::prelude::*;
use vstd::string::*;

use crate::text::{
    bool_string, bool_text, bool_text_value, lemma_split_nonempty, parse_bool, push_char, same_text,
    split_spec, split_text,
};

verus! {

/// How a button is drawn.
#[derive(Clone, Copy, Debug, PartialEq, Eq, Structural)]
pub enum ButtonStyle {
    Primary,
    Secondary,
}

#[derive(Clone, Debug, PartialEq, Eq)]
pub enum Button {
    SetAsCurrentSeasonYes { season_uuid: String },
    SetAsCurrentSeasonNo { season_uuid: String },
    RegisterOrgYes { org_name: String, guild_id: String, owner_id: String },
    RegisterOrgNo,
    SeasonsPrev,
    SeasonsNext,
    SeasonSurvivor { is_active: bool },
    SeasonTraitors { is_active: bool },
    SeasonBigBrother { is_active: bool },
    SeasonTheChallenge { is_active: bool },
    SeasonOther { is_active: bool },
}

/// A button with its text fields taken as character sequences.
pub enum ButtonView {
    SetAsCurrentSeasonYes { season_uuid: Seq<char> },
    SetAsCurrentSeasonNo { season_uuid: Seq<char> },
    RegisterOrgYes { org_name: Seq<char>, guild_id: Seq<char>, owner_id: Seq<char> },
    RegisterOrgNo,
    SeasonsPrev,
    SeasonsNext,
    SeasonSurvivor { is_active: bool },
    SeasonTraitors { is_active: bool },
    SeasonBigBrother { is_active: bool },
    SeasonTheChallenge { is_active: bool },
    SeasonOther { is_active: bool },
}

impl View for Button {
    type V = ButtonView;

    open spec fn view(&self) -> ButtonView {
        match self {
            Button::SetAsCurrentSeasonYes { season_uuid } => ButtonView::SetAsCurrentSeasonYes {
                season_uuid: season_uuid@,
            },
            Button::SetAsCurrentSeasonNo { season_uuid } => ButtonView::SetAsCurrentSeasonNo {
                season_uuid: season_uuid@,
            },
            Button::RegisterOrgYes { org_name, guild_id, owner_id } => ButtonView::RegisterOrgYes {
                org_name: org_name@,
                guild_id: guild_id@,
                owner_id: owner_id@,
            },
            Button::RegisterOrgNo => ButtonView::RegisterOrgNo,
            Button::SeasonsPrev => ButtonView::SeasonsPrev,
            Button::SeasonsNext => ButtonView::SeasonsNext,
            Button::SeasonSurvivor { is_active } => ButtonView::SeasonSurvivor {
                is_active: *is_active,
            },
            Button::SeasonTraitors { is_active } => ButtonView::SeasonTraitors {
                is_active: *is_active,
            },
            Button::SeasonBigBrother { is_active } => ButtonView::SeasonBigBrother {
                is_active: *is_active,
            },
            Button::SeasonTheChallenge { is_active } => ButtonView::SeasonTheChallenge {
                is_active: *is_active,
            },
            Button::SeasonOther { is_active } => ButtonView::SeasonOther { is_active: *is_active },
        }
    }
}

pub open spec fn button_label(b: ButtonView) -> Seq<char> {
    match b {
        ButtonView::SetAsCurrentSeasonYes { .. } => "Yes"@,
        ButtonView::SetAsCurrentSeasonNo { .. } => "No"@,
        ButtonView::RegisterOrgYes { .. } => "Yes"@,
        ButtonView::RegisterOrgNo => "No"@,
        ButtonView::SeasonsPrev => "◀"@,
        ButtonView::SeasonsNext => "▶"@,
        ButtonView::SeasonSurvivor { .. } => "🏝️ Survivor"@,
        ButtonView::SeasonTraitors { .. } => "🔪 Traitors"@,
        ButtonView::SeasonBigBrother { .. } => "👁️ Big Brother"@,
        ButtonView::SeasonTheChallenge { .. } => "🏆 The Challenge"@,
        ButtonView::SeasonOther { .. } => "Other"@,
    }
}

pub open spec fn active_style(is_active: bool) -> ButtonStyle {
    if is_active {
        ButtonStyle::Primary
    } else {
        ButtonStyle::Secondary
    }
}

pub open spec fn button_style(b: ButtonView) -> ButtonStyle {
    match b {
        ButtonView::SetAsCurrentSeasonYes { .. } => ButtonStyle::Primary,
        ButtonView::RegisterOrgYes { .. } => ButtonStyle::Primary,
        ButtonView::SeasonSurvivor { is_active } => active_style(is_active),
        ButtonView::SeasonTraitors { is_active } => active_style(is_active),
        ButtonView::SeasonBigBrother { is_active } => active_style(is_active),
        ButtonView::SeasonTheChallenge { is_active } => active_style(is_active),
        ButtonView::SeasonOther { is_active } => active_style(is_active),
        _ => ButtonStyle::Secondary,
    }
}

/// `prefix:` followed by `rest`.
pub open spec fn tagged(prefix: Seq<char>, rest: Seq<char>) -> Seq<char> {
    prefix.push(':') + rest
}

pub open spec fn filter_id(kind: Seq<char>, is_active: bool) -> Seq<char> {
    tagged("seasons_filter"@, tagged(kind, bool_text(is_active)))
}

/// The custom id of a button.
pub open spec fn button_id(b: ButtonView) -> Seq<char> {
    match b {
        ButtonView::SetAsCurrentSeasonYes { season_uuid } => tagged(
            "set_as_current_season_yes"@,
            season_uuid,
        ),
        ButtonView::SetAsCurrentSeasonNo { season_uuid } => tagged(
            "set_as_current_season_no"@,
            season_uuid,
        ),
        ButtonView::RegisterOrgYes { org_name, guild_id, owner_id } => tagged(
            "register_org_yes"@,
            tagged(org_name, tagged(guild_id, owner_id)),
        ),
        ButtonView::RegisterOrgNo => "register_org_no"@,
        ButtonView::SeasonsPrev => "seasons_prev"@,
        ButtonView::SeasonsNext => "seasons_next"@,
        ButtonView::SeasonSurvivor { is_active } => filter_id("Survivor"@, is_active),
        ButtonView::SeasonTraitors { is_active } => filter_id("Traitors"@, is_active),
        ButtonView::SeasonBigBrother { is_active } => filter_id("BigBrother"@, is_active),
        ButtonView::SeasonTheChallenge { is_active } => filter_id("TheChallenge"@, is_active),
        ButtonView::SeasonOther { is_active } => filter_id("Other"@, is_active),
    }
}

/// The filter button of kind `kind`, once its activity flag is known.
pub open spec fn filter_button(kind: Seq<char>, is_active: bool) -> Option<ButtonView> {
    if kind == "Survivor"@ {
        Some(ButtonView::SeasonSurvivor { is_active })
    } else if kind == "BigBrother"@ {
        Some(ButtonView::SeasonBigBrother { is_active })
    } else if kind == "Traitors"@ {
        Some(ButtonView::SeasonTraitors { is_active })
    } else if kind == "TheChallenge"@ {
        Some(ButtonView::SeasonTheChallenge { is_active })
    } else if kind == "Other"@ {
        Some(ButtonView::SeasonOther { is_active })
    } else {
        None
    }
}

/// What `Button::from_str` makes of a custom id: the text is split on ':', the first
/// piece names the action and the following pieces are its parameters; a missing
/// parameter or an unreadable flag gives "Invalid".
pub open spec fn button_from_text(s: Seq<char>) -> Result<ButtonView, Seq<char>> {
    let parts = split_spec(s, ':');
    let action = parts[0];
    if action == "register_org_no"@ {
        Ok(ButtonView::RegisterOrgNo)
    } else if action == "set_as_current_season_yes"@ {
        if parts.len() > 1 {
            Ok(ButtonView::SetAsCurrentSeasonYes { season_uuid: parts[1] })
        } else {
            Err("Invalid"@)
        }
    } else if action == "set_as_current_season_no"@ {
        if parts.len() > 1 {
            Ok(ButtonView::SetAsCurrentSeasonNo { season_uuid: parts[1] })
        } else {
            Err("Invalid"@)
        }
    } else if action == "register_org_yes"@ {
        if parts.len() > 3 {
            Ok(ButtonView::RegisterOrgYes { org_name: parts[1], guild_id: parts[2], owner_id: parts[3] })
        } else {
            Err("Invalid"@)
        }
    } else if action == "seasons_prev"@ {
        Ok(ButtonView::SeasonsPrev)
    } else if action == "seasons_next"@ {
        Ok(ButtonView::SeasonsNext)
    } else if action == "seasons_filter"@ {
        if parts.len() > 2 {
            match bool_text_value(parts[2]) {
                Some(is_active) => match filter_button(parts[1], is_active) {
                    Some(b) => Ok(b),
                    None => Err("Invalid filter type"@),
                },
                None => Err("Invalid"@),
            }
        } else {
            Err("Invalid"@)
        }
    } else {
        Err("Invalid action"@)
    }
}

fn tagged_text(prefix: &str, rest: &str) -> (s: String)
    ensures
        s@ == tagged(prefix@, rest@),
{
    let mut s = String::from_str(prefix);
    push_char(&mut s, ':');
    s.append(rest);
    s
}

fn filter_id_text(kind: &str, is_active: bool) -> (s: String)
    ensures
        s@ == filter_id(kind@, is_active),
{
    let flag = bool_string(is_active);
    let inner = tagged_text(kind, flag.as_str());
    tagged_text("seasons_filter", inner.as_str())
}

impl Button {
    pub fn label(&self) -> (s: String)
        ensures
            s@ == button_label(self@),
    {
        match self {
            Button::SetAsCurrentSeasonYes { .. } => String::from_str("Yes"),
            Button::SetAsCurrentSeasonNo { .. } => String::from_str("No"),
            Button::RegisterOrgYes { .. } => String::from_str("Yes"),
            Button::RegisterOrgNo => String::from_str("No"),
            Button::SeasonsPrev => String::from_str("◀"),
            Button::SeasonsNext => String::from_str("▶"),
            Button::SeasonSurvivor { .. } => String::from_str("🏝️ Survivor"),
            Button::SeasonTraitors { .. } => String::from_str("🔪 Traitors"),
            Button::SeasonBigBrother { .. } => String::from_str("👁️ Big Brother"),
            Button::SeasonTheChallenge { .. } => String::from_str("🏆 The Challenge"),
            Button::SeasonOther { .. } => String::from_str("Other"),
        }
    }

    pub fn style(&self) -> (st: ButtonStyle)
        ensures
            st == button_style(self@),
    {
        match self {
            Button::SetAsCurrentSeasonYes { .. } => ButtonStyle::Primary,
            Button::SetAsCurrentSeasonNo { .. } => ButtonStyle::Secondary,
            Button::RegisterOrgYes { .. } => ButtonStyle::Primary,
            Button::RegisterOrgNo => ButtonStyle::Secondary,
            Button::SeasonsPrev => ButtonStyle::Secondary,
            Button::SeasonsNext => ButtonStyle::Secondary,
            Button::SeasonSurvivor { is_active }
            | Button::SeasonTraitors { is_active }
            | Button::SeasonBigBrother { is_active }
            | Button::SeasonTheChallenge { is_active }
            | Button::SeasonOther { is_active } => {
                if *is_active {
                    ButtonStyle::Primary
                } else {
                    ButtonStyle::Secondary
                }
            },
        }
    }

    /// The custom id under which the button is sent.
    pub fn id(&self) -> (s: String)
        ensures
            s@ == button_id(self@),
    {
        match self {
            Button::SetAsCurrentSeasonYes { season_uuid } => tagged_text(
                "set_as_current_season_yes",
                season_uuid.as_str(),
            ),
            Button::SetAsCurrentSeasonNo { season_uuid } => tagged_text(
                "set_as_current_season_no",
                season_uuid.as_str(),
            ),
            Button::RegisterOrgYes { org_name, guild_id, owner_id } => {
                let tail = tagged_text(guild_id.as_str(), owner_id.as_str());
                let params = tagged_text(org_name.as_str(), tail.as_str());
                tagged_text("register_org_yes", params.as_str())
            },
            Button::RegisterOrgNo => String::from_str("register_org_no"),
            Button::SeasonsPrev => String::from_str("seasons_prev"),
            Button::SeasonsNext => String::from_str("seasons_next"),
            Button::SeasonSurvivor { is_active } => filter_id_text("Survivor", *is_active),
            Button::SeasonTraitors { is_active } => filter_id_text("Traitors", *is_active),
            Button::SeasonBigBrother { is_active } => filter_id_text("BigBrother", *is_active),
            Button::SeasonTheChallenge { is_active } => filter_id_text("TheChallenge", *is_active),
            Button::SeasonOther { is_active } => filter_id_text("Other", *is_active),
        }
    }

    /// Reads a button back from its custom id.
    pub fn from_str(s: &str) -> (r: Result<Button, String>)
        ensures
            match r {
                Ok(b) => button_from_text(s@) == Ok::<ButtonView, Seq<char>>(b@),
                Err(e) => button_from_text(s@) == Err::<ButtonView, Seq<char>>(e@),
            },
    {
        let parts = split_text(s, ':');
        proof {
            lemma_split_nonempty(s@, ':');
        }
        let action = parts[0].as_str();
        if same_text(action, "register_org_no") {
            Ok(Button::RegisterOrgNo)
        } else if same_text(action, "set_as_current_season_yes") {
            if parts.len() > 1 {
                Ok(Button::SetAsCurrentSeasonYes { season_uuid: parts[1].clone() })
            } else {
                Err(String::from_str("Invalid"))
            }
        } else if same_text(action, "set_as_current_season_no") {
            if parts.len() > 1 {
                Ok(Button::SetAsCurrentSeasonNo { season_uuid: parts[1].clone() })
            } else {
                Err(String::from_str("Invalid"))
            }
        } else if same_text(action, "register_org_yes") {
            if parts.len() > 3 {
                Ok(
                    Button::RegisterOrgYes {
                        org_name: parts[1].clone(),
                        guild_id: parts[2].clone(),
                        owner_id: parts[3].clone(),
                    },
                )
            } else {
                Err(String::from_str("Invalid"))
            }
        } else if same_text(action, "seasons_prev") {
            Ok(Button::SeasonsPrev)
        } else if same_text(action, "seasons_next") {
            Ok(Button::SeasonsNext)
        } else if same_text(action, "seasons_filter") {
            if parts.len() > 2 {
                match parse_bool(parts[2].as_str()) {
                    Some(is_active) => {
                        let kind = parts[1].as_str();
                        if same_text(kind, "Survivor") {
                            Ok(Button::SeasonSurvivor { is_active })
                        } else if same_text(kind, "BigBrother") {
                            Ok(Button::SeasonBigBrother { is_active })
                        } else if same_text(kind, "Traitors") {
                            Ok(Button::SeasonTraitors { is_active })
                        } else if same_text(kind, "TheChallenge") {
                            Ok(Button::SeasonTheChallenge { is_active })
                        } else if same_text(kind, "Other") {
                            Ok(Button::SeasonOther { is_active })
                        } else {
                            Err(String::from_str("Invalid filter type"))
                        }
                    },
                    None => Err(String::from_str("Invalid")),
                }
            } else {
                Err(String::from_str("Invalid"))
            }
        } else {
            Err(String::from_str("Invalid action"))
        }
    }
}

impl std::str::FromStr for Button {
    type Err = String;

    fn from_str(s: &str) -> (r: Result<Button, String>)
        ensures
            match r {
                Ok(b) => button_from_text(s@) == Ok::<ButtonView, Seq<char>>(b@),
                Err(e) => button_from_text(s@) == Err::<ButtonView, Seq<char>>(e@),
            },
    {
        Button::from_str(s)
    }
}

} // verus!

verus! {

/// The text fields of a button hold no ':' (the separator of custom ids).
pub open spec fn button_fields_plain(b: ButtonView) -> bool {
    match b {
        ButtonView::SetAsCurrentSeasonYes { season_uuid } => !season_uuid.contains(':'),
        ButtonView::SetAsCurrentSeasonNo { season_uuid } => !season_uuid.contains(':'),
        ButtonView::RegisterOrgYes { org_name, guild_id, owner_id } => !org_name.contains(':')
            && !guild_id.contains(':') && !owner_id.contains(':'),
        _ => true,
    }
}

proof fn lemma_plain_literal(s: Seq<char>)
    requires
        forall|i: int| 0 <= i < s.len() ==> s[i] != ':',
    ensures
        split_spec(s, ':') == seq![s],
{
    assert(!s.contains(':'));
    crate::text::lemma_split_no_sep(s, ':');
}

proof fn lemma_action_texts()
    ensures
        split_spec("register_org_no"@, ':') == seq!["register_org_no"@],
        split_spec("set_as_current_season_yes"@, ':') == seq!["set_as_current_season_yes"@],
        split_spec("set_as_current_season_no"@, ':') == seq!["set_as_current_season_no"@],
        split_spec("register_org_yes"@, ':') == seq!["register_org_yes"@],
        split_spec("seasons_prev"@, ':') == seq!["seasons_prev"@],
        split_spec("seasons_next"@, ':') == seq!["seasons_next"@],
        split_spec("seasons_filter"@, ':') == seq!["seasons_filter"@],
        split_spec("Survivor"@, ':') == seq!["Survivor"@],
        split_spec("Traitors"@, ':') == seq!["Traitors"@],
        split_spec("BigBrother"@, ':') == seq!["BigBrother"@],
        split_spec("TheChallenge"@, ':') == seq!["TheChallenge"@],
        split_spec("Other"@, ':') == seq!["Other"@],
        split_spec("true"@, ':') == seq!["true"@],
        split_spec("false"@, ':') == seq!["false"@],
        "set_as_current_season_yes"@ != "register_org_no"@,
        "set_as_current_season_no"@ != "register_org_no"@,
        "set_as_current_season_no"@ != "set_as_current_season_yes"@,
        "register_org_yes"@ != "register_org_no"@,
        "register_org_yes"@ != "set_as_current_season_yes"@,
        "register_org_yes"@ != "set_as_current_season_no"@,
        "seasons_prev"@ != "register_org_no"@,
        "seasons_prev"@ != "set_as_current_season_yes"@,
        "seasons_prev"@ != "set_as_current_season_no"@,
        "seasons_prev"@ != "register_org_yes"@,
        "seasons_next"@ != "register_org_no"@,
        "seasons_next"@ != "set_as_current_season_yes"@,
        "seasons_next"@ != "set_as_current_season_no"@,
        "seasons_next"@ != "register_org_yes"@,
        "seasons_next"@ != "seasons_prev"@,
        "seasons_filter"@ != "register_org_no"@,
        "seasons_filter"@ != "set_as_current_season_yes"@,
        "seasons_filter"@ != "set_as_current_season_no"@,
        "seasons_filter"@ != "register_org_yes"@,
        "seasons_filter"@ != "seasons_prev"@,
        "seasons_filter"@ != "seasons_next"@,
        "BigBrother"@ != "Survivor"@,
        "Traitors"@ != "Survivor"@,
        "Traitors"@ != "BigBrother"@,
        "TheChallenge"@ != "Survivor"@,
        "TheChallenge"@ != "BigBrother"@,
        "TheChallenge"@ != "Traitors"@,
        "Other"@ != "Survivor"@,
        "Other"@ != "BigBrother"@,
        "Other"@ != "Traitors"@,
        "Other"@ != "TheChallenge"@,
{
    reveal_strlit("register_org_no");
    reveal_strlit("set_as_current_season_yes");
    reveal_strlit("set_as_current_season_no");
    reveal_strlit("register_org_yes");
    reveal_strlit("seasons_prev");
    reveal_strlit("seasons_next");
    reveal_strlit("seasons_filter");
    reveal_strlit("Survivor");
    reveal_strlit("Traitors");
    reveal_strlit("BigBrother");
    reveal_strlit("TheChallenge");
    reveal_strlit("Other");
    reveal_strlit("true");
    reveal_strlit("false");
    lemma_plain_literal("register_org_no"@);
    lemma_plain_literal("set_as_current_season_yes"@);
    lemma_plain_literal("set_as_current_season_no"@);
    lemma_plain_literal("register_org_yes"@);
    lemma_plain_literal("seasons_prev"@);
    lemma_plain_literal("seasons_next"@);
    lemma_plain_literal("seasons_filter"@);
    lemma_plain_literal("Survivor"@);
    lemma_plain_literal("Traitors"@);
    lemma_plain_literal("BigBrother"@);
    lemma_plain_literal("TheChallenge"@);
    lemma_plain_literal("Other"@);
    lemma_plain_literal("true"@);
    lemma_plain_literal("false"@);
    assert("set_as_current_season_yes"@[0] != "register_org_no"@[0]);
    assert("set_as_current_season_no"@[0] != "register_org_no"@[0]);
    assert("set_as_current_season_no"@.len() != "set_as_current_season_yes"@.len());
    assert("register_org_yes"@.len() != "register_org_no"@.len());
    assert("register_org_yes"@[0] != "set_as_current_season_yes"@[0]);
    assert("register_org_yes"@[0] != "set_as_current_season_no"@[0]);
    assert("seasons_prev"@[0] != "register_org_no"@[0]);
    assert("seasons_prev"@[2] != "set_as_current_season_yes"@[2]);
    assert("seasons_prev"@[2] != "set_as_current_season_no"@[2]);
    assert("seasons_prev"@[0] != "register_org_yes"@[0]);
    assert("seasons_next"@[0] != "register_org_no"@[0]);
    assert("seasons_next"@[2] != "set_as_current_season_yes"@[2]);
    assert("seasons_next"@[2] != "set_as_current_season_no"@[2]);
    assert("seasons_next"@[0] != "register_org_yes"@[0]);
    assert("seasons_next"@[8] != "seasons_prev"@[8]);
    assert("seasons_filter"@[0] != "register_org_no"@[0]);
    assert("seasons_filter"@[2] != "set_as_current_season_yes"@[2]);
    assert("seasons_filter"@[2] != "set_as_current_season_no"@[2]);
    assert("seasons_filter"@[0] != "register_org_yes"@[0]);
    assert("seasons_filter"@[8] != "seasons_prev"@[8]);
    assert("seasons_filter"@[8] != "seasons_next"@[8]);
    assert("BigBrother"@[0] != "Survivor"@[0]);
    assert("Traitors"@[0] != "Survivor"@[0]);
    assert("Traitors"@[0] != "BigBrother"@[0]);
    assert("TheChallenge"@[0] != "Survivor"@[0]);
    assert("TheChallenge"@[0] != "BigBrother"@[0]);
    assert("TheChallenge"@[1] != "Traitors"@[1]);
    assert("Other"@[0] != "Survivor"@[0]);
    assert("Other"@[0] != "BigBrother"@[0]);
    assert("Other"@[0] != "Traitors"@[0]);
    assert("Other"@[0] != "TheChallenge"@[0]);
}

proof fn lemma_split_tagged(prefix: Seq<char>, rest: Seq<char>)
    requires
        split_spec(prefix, ':') == seq![prefix],
    ensures
        split_spec(tagged(prefix, rest), ':') == seq![prefix] + split_spec(rest, ':'),
{
    crate::text::lemma_split_concat(prefix, rest, ':');
}

proof fn lemma_split_plain(s: Seq<char>)
    requires
        !s.contains(':'),
    ensures
        split_spec(s, ':') == seq![s],
{
    crate::text::lemma_split_no_sep(s, ':');
}

/// Every button reads back from its own custom id, provided its text fields hold no ':'.
pub proof fn lemma_button_id_roundtrip(b: ButtonView)
    requires
        button_fields_plain(b),
    ensures
        button_from_text(button_id(b)) == Ok::<ButtonView, Seq<char>>(b),
{
    lemma_action_texts();
    match b {
        ButtonView::SetAsCurrentSeasonYes { season_uuid } => {
            lemma_split_plain(season_uuid);
            lemma_split_tagged("set_as_current_season_yes"@, season_uuid);
        },
        ButtonView::SetAsCurrentSeasonNo { season_uuid } => {
            lemma_split_plain(season_uuid);
            lemma_split_tagged("set_as_current_season_no"@, season_uuid);
        },
        ButtonView::RegisterOrgYes { org_name, guild_id, owner_id } => {
            lemma_split_plain(org_name);
            lemma_split_plain(guild_id);
            lemma_split_plain(owner_id);
            lemma_split_tagged(guild_id, owner_id);
            lemma_split_tagged(org_name, tagged(guild_id, owner_id));
            lemma_split_tagged("register_org_yes"@, tagged(org_name, tagged(guild_id, owner_id)));
            let parts = split_spec(button_id(b), ':');
            assert(parts =~= seq!["register_org_yes"@, org_name, guild_id, owner_id]);
        },
        ButtonView::SeasonSurvivor { is_active } => {
            lemma_filter_roundtrip("Survivor"@, is_active);
        },
        ButtonView::SeasonTraitors { is_active } => {
            lemma_filter_roundtrip("Traitors"@, is_active);
        },
        ButtonView::SeasonBigBrother { is_active } => {
            lemma_filter_roundtrip("BigBrother"@, is_active);
        },
        ButtonView::SeasonTheChallenge { is_active } => {
            lemma_filter_roundtrip("TheChallenge"@, is_active);
        },
        ButtonView::SeasonOther { is_active } => {
            lemma_filter_roundtrip("Other"@, is_active);
        },
        _ => {},
    }
}

proof fn lemma_filter_roundtrip(kind: Seq<char>, is_active: bool)
    requires
        split_spec(kind, ':') == seq![kind],
    ensures
        split_spec(filter_id(kind, is_active), ':') == seq!["seasons_filter"@, kind, bool_text(
            is_active,
        )],
        bool_text_value(bool_text(is_active)) == Some(is_active),
{
    lemma_action_texts();
    crate::text::lemma_bool_text_roundtrip(is_active);
    let f = bool_text(is_active);
    assert(split_spec(f, ':') == seq![f]);
    lemma_split_tagged(kind, f);
    lemma_split_tagged("seasons_filter"@, tagged(kind, f));
    assert(split_spec(filter_id(kind, is_active), ':') =~= seq!["seasons_filter"@, kind, f]);
}

} // verus!

verus! {

/// The custom id of a member menu does not read as a button.
pub proof fn lemma_member_menu_is_no_button(season_uuid: Seq<char>)
    requires
        !season_uuid.contains(':'),
    ensures
        button_from_text(tagged("member_select_menu"@, season_uuid)) is Err,
{
    lemma_action_texts();
    reveal_strlit("member_select_menu");
    reveal_strlit("register_org_no");
    reveal_strlit("set_as_current_season_yes");
    reveal_strlit("set_as_current_season_no");
    reveal_strlit("register_org_yes");
    reveal_strlit("seasons_prev");
    reveal_strlit("seasons_next");
    reveal_strlit("seasons_filter");
    assert(!"member_select_menu"@.contains(':'));
    crate::text::lemma_split_no_sep("member_select_menu"@, ':');
    crate::text::lemma_split_no_sep(season_uuid, ':');
    crate::text::lemma_split_concat("member_select_menu"@, season_uuid, ':');
    let a = "member_select_menu"@;
    assert(a != "register_org_no"@) by { assert(a[0] != "register_org_no"@[0]); }
    assert(a != "set_as_current_season_yes"@) by { assert(a[0] != "set_as_current_season_yes"@[0]); }
    assert(a != "set_as_current_season_no"@) by { assert(a[0] != "set_as_current_season_no"@[0]); }
    assert(a != "register_org_yes"@) by { assert(a[0] != "register_org_yes"@[0]); }
    assert(a != "seasons_prev"@) by { assert(a[0] != "seasons_prev"@[0]); }
    assert(a != "seasons_next"@) by { assert(a[0] != "seasons_next"@[0]); }
    assert(a != "seasons_filter"@) by { assert(a[0] != "seasons_filter"@[0]); }
}

} // verus!

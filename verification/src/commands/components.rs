//! The component ids kept beside the season commands: the modal and
//! text fields are the shared ones, the buttons take exactly one parameter, and the
//! select menus list seasons or members by name.
use vstd::prelude::*;
use vstd::string::*;

use crate::components::button::{tagged, ButtonStyle};
use crate::components::select_menu::{SelectMenuKind, SelectOption};
use crate::date::date_text;
use crate::entity::{MemberModel, SeasonModel};
use crate::ids::{id_text, uuid_text};
use crate::text::{lemma_split_nonempty, push_char, same_text, split_spec, split_text};

pub use crate::components::input_text::InputText;
pub use crate::components::modal::Modal;

verus! {

#[derive(Clone, Debug, PartialEq, Eq)]
pub enum Button {
    SetAsCurrentSeasonYes { season_uuid: String },
    SetAsCurrentSeasonNo { season_uuid: String },
}

pub enum ButtonView {
    SetAsCurrentSeasonYes { season_uuid: Seq<char> },
    SetAsCurrentSeasonNo { season_uuid: Seq<char> },
}

impl View for Button {
    type V = ButtonView;

    open spec fn view(&self) -> ButtonView {
        match self {
            Button::SetAsCurrentSeasonYes { season_uuid } => ButtonView::SetAsCurrentSeasonYes {
                season_uuid: season_uuid@,
            },
            Button::SetAsCurrentSeasonNo { season_uuid } => ButtonView::SetAsCurrentSeasonNo {
                season_uuid: season_uuid@,
            },
        }
    }
}

pub open spec fn button_id(b: ButtonView) -> Seq<char> {
    match b {
        ButtonView::SetAsCurrentSeasonYes { season_uuid } => tagged(
            "set_as_current_season_yes"@,
            season_uuid,
        ),
        ButtonView::SetAsCurrentSeasonNo { season_uuid } => tagged(
            "set_as_current_season_no"@,
            season_uuid,
        ),
    }
}

/// What `Button::from_str` makes of a custom id: exactly two ':'-separated pieces, an
/// action and a season id.
pub open spec fn button_from_text(s: Seq<char>) -> Result<ButtonView, Seq<char>> {
    let parts = split_spec(s, ':');
    if parts.len() != 2 {
        Err("Invalid format"@)
    } else if parts[0] == "set_as_current_season_yes"@ {
        Ok(ButtonView::SetAsCurrentSeasonYes { season_uuid: parts[1] })
    } else if parts[0] == "set_as_current_season_no"@ {
        Ok(ButtonView::SetAsCurrentSeasonNo { season_uuid: parts[1] })
    } else {
        Err("Invalid action"@)
    }
}

impl Button {
    pub fn label(&self) -> (s: String)
        ensures
            s@ == (match self@ {
                ButtonView::SetAsCurrentSeasonYes { .. } => "Yes"@,
                ButtonView::SetAsCurrentSeasonNo { .. } => "No"@,
            }),
    {
        match self {
            Button::SetAsCurrentSeasonYes { .. } => String::from_str("Yes"),
            Button::SetAsCurrentSeasonNo { .. } => String::from_str("No"),
        }
    }

    pub fn style(&self) -> (st: ButtonStyle)
        ensures
            st == (match self@ {
                ButtonView::SetAsCurrentSeasonYes { .. } => ButtonStyle::Primary,
                ButtonView::SetAsCurrentSeasonNo { .. } => ButtonStyle::Secondary,
            }),
    {
        match self {
            Button::SetAsCurrentSeasonYes { .. } => ButtonStyle::Primary,
            Button::SetAsCurrentSeasonNo { .. } => ButtonStyle::Secondary,
        }
    }

    pub fn id(&self) -> (s: String)
        ensures
            s@ == button_id(self@),
    {
        let (action, season_uuid) = match self {
            Button::SetAsCurrentSeasonYes { season_uuid } => ("set_as_current_season_yes", season_uuid),
            Button::SetAsCurrentSeasonNo { season_uuid } => ("set_as_current_season_no", season_uuid),
        };
        let mut s = String::from_str(action);
        push_char(&mut s, ':');
        s.append(season_uuid.as_str());
        s
    }

    /// Reads a button back from its custom id.
    pub fn from_str(s: &str) -> (r: Result<Button, String>)
        ensures
            match r {
                Ok(b) => button_from_text(s@) == Ok::<ButtonView, Seq<char>>(b@),
                Err(e) => button_from_text(s@) == Err::<ButtonView, Seq<char>>(e@),
            },
    {
        let parts = split_text(s, ':');
        proof {
            lemma_split_nonempty(s@, ':');
        }
        if parts.len() != 2 {
            return Err(String::from_str("Invalid format"));
        }
        if same_text(parts[0].as_str(), "set_as_current_season_yes") {
            Ok(Button::SetAsCurrentSeasonYes { season_uuid: parts[1].clone() })
        } else if same_text(parts[0].as_str(), "set_as_current_season_no") {
            Ok(Button::SetAsCurrentSeasonNo { season_uuid: parts[1].clone() })
        } else {
            Err(String::from_str("Invalid action"))
        }
    }
}

impl std::str::FromStr for Button {
    type Err = String;

    fn from_str(s: &str) -> (r: Result<Button, String>)
        ensures
            match r {
                Ok(b) => button_from_text(s@) == Ok::<ButtonView, Seq<char>>(b@),
                Err(e) => button_from_text(s@) == Err::<ButtonView, Seq<char>>(e@),
            },
    {
        Button::from_str(s)
    }
}

/// Every button reads back from its own custom id, provided the season id holds no ':'.
pub proof fn lemma_button_id_roundtrip(b: ButtonView)
    requires
        match b {
            ButtonView::SetAsCurrentSeasonYes { season_uuid } => !season_uuid.contains(':'),
            ButtonView::SetAsCurrentSeasonNo { season_uuid } => !season_uuid.contains(':'),
        },
    ensures
        button_from_text(button_id(b)) == Ok::<ButtonView, Seq<char>>(b),
{
    reveal_strlit("set_as_current_season_yes");
    reveal_strlit("set_as_current_season_no");
    assert(!"set_as_current_season_yes"@.contains(':'));
    assert(!"set_as_current_season_no"@.contains(':'));
    crate::text::lemma_split_no_sep("set_as_current_season_yes"@, ':');
    crate::text::lemma_split_no_sep("set_as_current_season_no"@, ':');
    assert("set_as_current_season_no"@ != "set_as_current_season_yes"@) by {
        assert("set_as_current_season_no"@.len() != "set_as_current_season_yes"@.len());
    }
    match b {
        ButtonView::SetAsCurrentSeasonYes { season_uuid } => {
            crate::text::lemma_split_no_sep(season_uuid, ':');
            crate::text::lemma_split_concat("set_as_current_season_yes"@, season_uuid, ':');
        },
        ButtonView::SetAsCurrentSeasonNo { season_uuid } => {
            crate::text::lemma_split_no_sep(season_uuid, ':');
            crate::text::lemma_split_concat("set_as_current_season_no"@, season_uuid, ':');
        },
    }
}

/// Menus to pick one season or one member.
#[derive(Clone, Debug, PartialEq, Eq)]
pub enum SelectMenu {
    SeasonSelectMenu(Vec<SeasonModel>),
    MemberSelectMenu(Vec<MemberModel>),
}

/// How a season is offered: its title and start date.
pub open spec fn season_option_label(s: SeasonModel) -> Seq<char> {
    s.title@ + " (Started: "@ + date_text(s.start_date) + ")"@
}

impl SelectMenu {
    pub fn id(&self) -> (s: String)
        ensures
            s@ == (match self {
                SelectMenu::SeasonSelectMenu(_) => "season_select_menu"@,
                SelectMenu::MemberSelectMenu(_) => "member_select_menu"@,
            }),
    {
        match self {
            SelectMenu::SeasonSelectMenu(_) => String::from_str("season_select_menu"),
            SelectMenu::MemberSelectMenu(_) => String::from_str("member_select_menu"),
        }
    }

    pub fn placeholder(&self) -> (s: &'static str)
        ensures
            s@ == (match self {
                SelectMenu::SeasonSelectMenu(_) => "Select Season to register members to..."@,
                SelectMenu::MemberSelectMenu(_) => "Select Members to register to..."@,
            }),
    {
        match self {
            SelectMenu::SeasonSelectMenu(_) => "Select Season to register members to...",
            SelectMenu::MemberSelectMenu(_) => "Select Members to register to...",
        }
    }

    /// One choice per season (labelled by title and start date) or per member
    /// (labelled by id); the value of a choice is the record's id.
    pub fn options(&self) -> (v: Vec<SelectOption>)
        ensures
            match self {
                SelectMenu::SeasonSelectMenu(seasons) => v.len() == seasons.len() && forall|i: int|
                    0 <= i < seasons.len() ==> #[trigger] v[i]@ == (
                        season_option_label(seasons[i]),
                        uuid_text(seasons[i].id),
                    ),
                SelectMenu::MemberSelectMenu(members) => v.len() == members.len() && forall|i: int|
                    0 <= i < members.len() ==> #[trigger] v[i]@ == (
                        uuid_text(members[i].id),
                        uuid_text(members[i].id),
                    ),
            },
    {
        let mut v: Vec<SelectOption> = Vec::new();
        match self {
            SelectMenu::SeasonSelectMenu(seasons) => {
                let mut i: usize = 0;
                while i < seasons.len()
                    invariant
                        i <= seasons.len(),
                        v.len() == i,
                        forall|k: int|
                            0 <= k < i ==> #[trigger] v[k]@ == (
                                season_option_label(seasons[k]),
                                uuid_text(seasons[k].id),
                            ),
                    decreases seasons.len() - i,
                {
                    let season = &seasons[i];
                    let mut label = season.title.clone();
                    label.append(" (Started: ");
                    let d = season.start_date.text();
                    label.append(d.as_str());
                    label.append(")");
                    let value = id_text(season.id);
                    v.push(SelectOption { label, value });
                    i = i + 1;
                }
            },
            SelectMenu::MemberSelectMenu(members) => {
                let mut i: usize = 0;
                while i < members.len()
                    invariant
                        i <= members.len(),
                        v.len() == i,
                        forall|k: int|
                            0 <= k < i ==> #[trigger] v[k]@ == (
                                uuid_text(members[k].id),
                                uuid_text(members[k].id),
                            ),
                    decreases members.len() - i,
                {
                    let id = members[i].id;
                    v.push(SelectOption { label: id_text(id), value: id_text(id) });
                    i = i + 1;
                }
            },
        }
        v
    }

    /// Both menus offer fixed text choices: the options above.
    pub fn kind(&self) -> (k: SelectMenuKind)
        ensures
            k matches SelectMenuKind::String { options } && (match self {
                SelectMenu::SeasonSelectMenu(seasons) => options.len() == seasons.len()
                    && forall|i: int|
                    0 <= i < seasons.len() ==> #[trigger] options[i]@ == (
                        season_option_label(seasons[i]),
                        uuid_text(seasons[i].id),
                    ),
                SelectMenu::MemberSelectMenu(members) => options.len() == members.len()
                    && forall|i: int|
                    0 <= i < members.len() ==> #[trigger] options[i]@ == (
                        uuid_text(members[i].id),
                        uuid_text(members[i].id),
                    ),
            }),
    {
        SelectMenuKind::String { options: self.options() }
    }

    pub fn min_values(&self) -> (n: u8)
        ensures
            n == 1,
    {
        1
    }

    pub fn max_values(&self) -> (n: u8)
        ensures
            n == 1,
    {
        1
    }
}

} // verus!

//! Select menus: custom ids, placeholders, choices, and reading a menu back from its id.
use vstd::prelude::*;
use vstd::string::*;

use crate::components::button::tagged;
use crate::season_type::{
    all_season_types, lemma_season_type_value_roundtrip, season_type_of_value, season_type_value,
    SeasonType,
};
use crate::text::{lemma_split_nonempty, push_char, same_text, split_spec, split_text};

verus! {

/// One choice of a select menu: the text shown and the value sent back.
#[derive(Clone, Debug, PartialEq, Eq)]
pub struct SelectOption {
    pub label: String,
    pub value: String,
}

impl View for SelectOption {
    type V = (Seq<char>, Seq<char>);

    open spec fn view(&self) -> (Seq<char>, Seq<char>) {
        (self.label@, self.value@)
    }
}

/// What a select menu offers: members of the server, or fixed text choices.
#[derive(Clone, Debug, PartialEq, Eq)]
pub enum SelectMenuKind {
    User,
    String { options: Vec<SelectOption> },
}

#[derive(Clone, Debug, PartialEq, Eq)]
pub enum SelectMenu {
    MemberSelectMenu { season_uuid: String },
    SeasonTypeSelectMenu,
}

pub enum SelectMenuView {
    MemberSelectMenu { season_uuid: Seq<char> },
    SeasonTypeSelectMenu,
}

impl View for SelectMenu {
    type V = SelectMenuView;

    open spec fn view(&self) -> SelectMenuView {
        match self {
            SelectMenu::MemberSelectMenu { season_uuid } => SelectMenuView::MemberSelectMenu {
                season_uuid: season_uuid@,
            },
            SelectMenu::SeasonTypeSelectMenu => SelectMenuView::SeasonTypeSelectMenu,
        }
    }
}

pub open spec fn select_menu_id(m: SelectMenuView) -> Seq<char> {
    match m {
        SelectMenuView::MemberSelectMenu { season_uuid } => tagged(
            "member_select_menu"@,
            season_uuid,
        ),
        SelectMenuView::SeasonTypeSelectMenu => "season_type_select_menu"@,
    }
}

pub open spec fn select_menu_placeholder(m: SelectMenuView) -> Seq<char> {
    match m {
        SelectMenuView::MemberSelectMenu { .. } => "Select Members to register to..."@,
        SelectMenuView::SeasonTypeSelectMenu => "Select Season Type..."@,
    }
}

/// The choices of the season-type menu: every season type, shown and sent as its value.
pub open spec fn season_type_options() -> Seq<(Seq<char>, Seq<char>)> {
    all_season_types().map_values(|t: SeasonType| (season_type_value(t), season_type_value(t)))
}

pub open spec fn select_menu_options(m: SelectMenuView) -> Seq<(Seq<char>, Seq<char>)> {
    match m {
        SelectMenuView::MemberSelectMenu { .. } => Seq::empty(),
        SelectMenuView::SeasonTypeSelectMenu => season_type_options(),
    }
}

pub open spec fn select_menu_min_values(m: SelectMenuView) -> u8 {
    match m {
        SelectMenuView::MemberSelectMenu { .. } => 0,
        SelectMenuView::SeasonTypeSelectMenu => 1,
    }
}

pub open spec fn select_menu_max_values(m: SelectMenuView) -> u8 {
    match m {
        SelectMenuView::MemberSelectMenu { .. } => 20,
        SelectMenuView::SeasonTypeSelectMenu => 1,
    }
}

/// What `SelectMenu::from_str` makes of a custom id (split on ':', first piece the menu).
pub open spec fn select_menu_from_text(s: Seq<char>) -> Result<SelectMenuView, Seq<char>> {
    let parts = split_spec(s, ':');
    if parts[0] == "member_select_menu"@ {
        if parts.len() > 1 {
            Ok(SelectMenuView::MemberSelectMenu { season_uuid: parts[1] })
        } else {
            Err("Invalid"@)
        }
    } else if parts[0] == "season_type_select_menu"@ {
        Ok(SelectMenuView::SeasonTypeSelectMenu)
    } else {
        Err("Invalid select menu ID"@)
    }
}

impl SelectMenu {
    pub fn id(&self) -> (s: String)
        ensures
            s@ == select_menu_id(self@),
    {
        match self {
            SelectMenu::MemberSelectMenu { season_uuid } => {
                let mut s = String::from_str("member_select_menu");
                push_char(&mut s, ':');
                s.append(season_uuid.as_str());
                s
            },
            SelectMenu::SeasonTypeSelectMenu => String::from_str("season_type_select_menu"),
        }
    }

    pub fn placeholder(&self) -> (s: &'static str)
        ensures
            s@ == select_menu_placeholder(self@),
    {
        match self {
            SelectMenu::MemberSelectMenu { .. } => "Select Members to register to...",
            SelectMenu::SeasonTypeSelectMenu => "Select Season Type...",
        }
    }

    pub fn options(&self) -> (v: Vec<SelectOption>)
        ensures
            v@.map_values(|o: SelectOption| o@) == select_menu_options(self@),
    {
        match self {
            SelectMenu::MemberSelectMenu { .. } => {
                let v: Vec<SelectOption> = Vec::new();
                proof {
                    assert(v@.map_values(|o: SelectOption| o@) =~= Seq::<
                        (Seq<char>, Seq<char>),
                    >::empty());
                }
                v
            },
            SelectMenu::SeasonTypeSelectMenu => {
                let types = SeasonType::all();
                let mut v: Vec<SelectOption> = Vec::new();
                let mut i: usize = 0;
                while i < types.len()
                    invariant
                        i <= types.len(),
                        types@ == all_season_types(),
                        v@.map_values(|o: SelectOption| o@) == season_type_options().take(
                            i as int,
                        ),
                    decreases types.len() - i,
                {
                    let t = types[i];
                    let label = t.to_value();
                    let value = t.to_value();
                    let ghost before = v@.map_values(|o: SelectOption| o@);
                    v.push(SelectOption { label, value });
                    i = i + 1;
                    proof {
                        assert(season_type_options()[i - 1] == (
                            season_type_value(t),
                            season_type_value(t),
                        ));
                        assert(v@.map_values(|o: SelectOption| o@) =~= before.push(
                            (season_type_value(t), season_type_value(t)),
                        ));
                        assert(v@.map_values(|o: SelectOption| o@) =~= season_type_options().take(
                            i as int,
                        ));
                    }
                }
                proof {
                    assert(season_type_options().take(i as int) =~= season_type_options());
                }
                v
            },
        }
    }

    pub fn kind(&self) -> (k: SelectMenuKind)
        ensures
            match self@ {
                SelectMenuView::MemberSelectMenu { .. } => k is User,
                SelectMenuView::SeasonTypeSelectMenu => k matches SelectMenuKind::String { options }
                    && options@.map_values(|o: SelectOption| o@) == season_type_options(),
            },
    {
        match self {
            SelectMenu::MemberSelectMenu { .. } => SelectMenuKind::User,
            SelectMenu::SeasonTypeSelectMenu => SelectMenuKind::String { options: self.options() },
        }
    }

    pub fn min_values(&self) -> (n: u8)
        ensures
            n == select_menu_min_values(self@),
    {
        match self {
            SelectMenu::MemberSelectMenu { .. } => 0,
            SelectMenu::SeasonTypeSelectMenu => 1,
        }
    }

    pub fn max_values(&self) -> (n: u8)
        ensures
            n == select_menu_max_values(self@),
    {
        match self {
            SelectMenu::MemberSelectMenu { .. } => 20,
            SelectMenu::SeasonTypeSelectMenu => 1,
        }
    }

    /// Reads a select menu back from its custom id.
    pub fn from_str(s: &str) -> (r: Result<SelectMenu, String>)
        ensures
            match r {
                Ok(m) => select_menu_from_text(s@) == Ok::<SelectMenuView, Seq<char>>(m@),
                Err(e) => select_menu_from_text(s@) == Err::<SelectMenuView, Seq<char>>(e@),
            },
    {
        let parts = split_text(s, ':');
        proof {
            lemma_split_nonempty(s@, ':');
        }
        if same_text(parts[0].as_str(), "member_select_menu") {
            if parts.len() > 1 {
                Ok(SelectMenu::MemberSelectMenu { season_uuid: parts[1].clone() })
            } else {
                Err(String::from_str("Invalid"))
            }
        } else if same_text(parts[0].as_str(), "season_type_select_menu") {
            Ok(SelectMenu::SeasonTypeSelectMenu)
        } else {
            Err(String::from_str("Invalid select menu ID"))
        }
    }
}

impl std::str::FromStr for SelectMenu {
    type Err = String;

    fn from_str(s: &str) -> (r: Result<SelectMenu, String>)
        ensures
            match r {
                Ok(m) => select_menu_from_text(s@) == Ok::<SelectMenuView, Seq<char>>(m@),
                Err(e) => select_menu_from_text(s@) == Err::<SelectMenuView, Seq<char>>(e@),
            },
    {
        SelectMenu::from_str(s)
    }
}

/// Every select menu reads back from its own custom id, provided the season id it
/// carries holds no ':'.
pub proof fn lemma_select_menu_id_roundtrip(m: SelectMenuView)
    requires
        m matches SelectMenuView::MemberSelectMenu { season_uuid } ==> !season_uuid.contains(':'),
    ensures
        select_menu_from_text(select_menu_id(m)) == Ok::<SelectMenuView, Seq<char>>(m),
{
    reveal_strlit("member_select_menu");
    reveal_strlit("season_type_select_menu");
    assert(!"member_select_menu"@.contains(':'));
    assert(!"season_type_select_menu"@.contains(':'));
    crate::text::lemma_split_no_sep("member_select_menu"@, ':');
    crate::text::lemma_split_no_sep("season_type_select_menu"@, ':');
    assert("season_type_select_menu"@ != "member_select_menu"@) by {
        assert("season_type_select_menu"@[0] != "member_select_menu"@[0]);
    }
    match m {
        SelectMenuView::MemberSelectMenu { season_uuid } => {
            crate::text::lemma_split_no_sep(season_uuid, ':');
            crate::text::lemma_split_concat("member_select_menu"@, season_uuid, ':');
        },
        SelectMenuView::SeasonTypeSelectMenu => {},
    }
}

/// Every choice of the season-type menu sends back what it shows, and reading what it
/// sends gives the season type shown; every season type is offered.
pub proof fn lemma_season_type_options_send_what_they_show()
    ensures
        forall|i: int|
            0 <= i < season_type_options().len() ==> {
                let o = #[trigger] season_type_options()[i];
                &&& o.1 == o.0
                &&& season_type_of_value(o.1) matches Some(t) && season_type_value(t) == o.0
            },
        forall|t: SeasonType|
            #![trigger season_type_value(t)]
            exists|i: int|
                0 <= i < season_type_options().len() && #[trigger] season_type_options()[i].1
                    == season_type_value(t),
{
    let opts = season_type_options();
    assert forall|i: int| 0 <= i < opts.len() implies {
        let o = #[trigger] opts[i];
        &&& o.1 == o.0
        &&& season_type_of_value(o.1) matches Some(t) && season_type_value(t) == o.0
    } by {
        let t = all_season_types()[i];
        lemma_season_type_value_roundtrip(t);
    }
    assert forall|t: SeasonType|
        #![trigger season_type_value(t)]
        exists|i: int| 0 <= i < opts.len() && #[trigger] opts[i].1 == season_type_value(t) by {
        let i: int = match t {
            SeasonType::Survivor => 0,
            SeasonType::Traitors => 1,
            SeasonType::BigBrother => 2,
            SeasonType::TheChallenge => 3,
            SeasonType::Other => 4,
        };
        assert(opts[i].1 == season_type_value(t));
    }
}

} // verus!

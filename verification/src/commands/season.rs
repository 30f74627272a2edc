//! Browsing an organization's seasons page by page with type filters, and the season
//! overview with its standings.
use vstd::prelude::*;
use vstd::string::*;

use crate::components::button::{
    button_from_text, button_id, filter_id, lemma_button_id_roundtrip, Button, ButtonView,
};
use crate::date::date_text;
use crate::entity::SeasonModel;
use crate::season_type::{season_type_value, SeasonType};
use crate::service::SeasonMemberWithName;
use crate::text::{
    decimal, decimal_text, lemma_occurs_between, occurs_in, signed_decimal, signed_decimal_text,
};

verus! {

/// How many seasons one page of the listing shows.
pub const SEASONS_PER_PAGE: usize = 10;

/// A field of an embed: a name, a value, and whether it sits beside its neighbours.
#[derive(Clone, Debug, PartialEq, Eq)]
pub struct EmbedField {
    pub name: String,
    pub value: String,
    pub inline: bool,
}

/// The content of an embedded message.
#[derive(Clone, Debug, PartialEq, Eq)]
pub struct Embed {
    pub title: Option<String>,
    pub description: Option<String>,
    pub fields: Vec<EmbedField>,
}

/// A button placed in a row, possibly greyed out.
#[derive(Clone, Debug, PartialEq, Eq)]
pub struct RowButton {
    pub button: Button,
    pub disabled: bool,
}

/// The filter after pressing the button of season type `new`: pressing the active
/// filter clears it, any other press selects `new`.
pub open spec fn toggled(current: Option<SeasonType>, new: SeasonType) -> Option<SeasonType> {
    if current == Some(new) {
        None
    } else {
        Some(new)
    }
}

pub fn toggle_filter(current: Option<SeasonType>, new: SeasonType) -> (r: Option<SeasonType>)
    ensures
        r == toggled(current, new),
{
    match current {
        Some(filter) => {
            if filter == new {
                None
            } else {
                Some(new)
            }
        },
        None => Some(new),
    }
}

/// Whether a season shows under a filter.
pub open spec fn shown_under(s: SeasonModel, filter: Option<SeasonType>) -> bool {
    match filter {
        Some(t) => s.season_type == t,
        None => true,
    }
}

/// The seasons that show under a filter, in their original order.
pub open spec fn filtered(seasons: Seq<SeasonModel>, filter: Option<SeasonType>) -> Seq<SeasonModel>
    decreases seasons.len(),
{
    if seasons.len() == 0 {
        Seq::empty()
    } else {
        let r = filtered(seasons.drop_last(), filter);
        if shown_under(seasons.last(), filter) {
            r.push(seasons.last())
        } else {
            r
        }
    }
}

/// How many pages `n` seasons take: ten to a page, and at least one page.
pub open spec fn page_count(n: nat) -> nat {
    if n == 0 {
        1
    } else {
        ((n + 9) / 10) as nat
    }
}

/// `start - end`, or `start - Present` for a season still running.
pub open spec fn date_range(s: SeasonModel) -> Seq<char> {
    match s.end_date {
        Some(end) => date_text(s.start_date) + " - "@ + date_text(end),
        None => date_text(s.start_date) + " - Present"@,
    }
}

pub open spec fn listing_title(filter: Option<SeasonType>, page: nat, total_pages: nat) -> Seq<char> {
    match filter {
        Some(t) => "Seasons: ("@ + season_type_value(t) + ") ("@ + decimal(page + 1) + ")/("@
            + decimal(total_pages) + ")"@,
        None => "Seasons (All)"@,
    }
}

/// The field that lists the season at position `k` (counted from 0) of the listing.
pub open spec fn listing_field(k: nat, s: SeasonModel) -> (Seq<char>, Seq<char>) {
    (decimal(k + 1) + ". "@ + s.title@, "📅 "@ + date_range(s))
}

/// The start and end (exclusive) positions of a page.
pub open spec fn page_start(page: nat) -> nat {
    page * 10
}

pub open spec fn page_end(page: nat, n: nat) -> nat {
    if page * 10 + 10 <= n {
        page * 10 + 10
    } else {
        n
    }
}

fn date_range_text(s: &SeasonModel) -> (r: String)
    ensures
        r@ == date_range(*s),
{
    let mut r = s.start_date.text();
    match s.end_date {
        Some(end) => {
            r.append(" - ");
            let e = end.text();
            r.append(e.as_str());
        },
        None => {
            r.append(" - Present");
        },
    }
    r
}

/// The embed of one page of a listing: its title, and one field per season of the page,
/// numbered by position in the whole listing.
pub fn build_embed(
    seasons: &Vec<SeasonModel>,
    active_filter: Option<SeasonType>,
    page: usize,
    total_pages: usize,
) -> (e: Embed)
    requires
        page * 10 <= seasons.len(),
    ensures
        e.title matches Some(t) && t@ == listing_title(
            active_filter,
            page as nat,
            total_pages as nat,
        ),
        e.description is None,
        e.fields.len() == page_end(page as nat, seasons.len() as nat) - page_start(page as nat),
        forall|i: int|
            0 <= i < e.fields.len() ==> {
                &&& (#[trigger] e.fields[i]).name@ == listing_field(
                    (page * 10 + i) as nat,
                    seasons[page * 10 + i],
                ).0
                &&& e.fields[i].value@ == listing_field(
                    (page * 10 + i) as nat,
                    seasons[page * 10 + i],
                ).1
                &&& !e.fields[i].inline
            },
{
    let start = page * SEASONS_PER_PAGE;
    let end = if seasons.len() - start >= SEASONS_PER_PAGE {
        start + SEASONS_PER_PAGE
    } else {
        seasons.len()
    };
    let title = match active_filter {
        Some(ft) => {
            let mut t = String::from_str("Seasons: (");
            let v = ft.to_value();
            t.append(v.as_str());
            t.append(") (");
            let p = decimal_text((page + 1) as u64);
            t.append(p.as_str());
            t.append(")/(");
            let n = decimal_text(total_pages as u64);
            t.append(n.as_str());
            t.append(")");
            t
        },
        None => String::from_str("Seasons (All)"),
    };
    let mut fields: Vec<EmbedField> = Vec::new();
    let mut k = start;
    while k < end
        invariant
            start == page * 10,
            start <= k <= end <= seasons.len(),
            end == page_end(page as nat, seasons.len() as nat),
            fields.len() == k - start,
            forall|i: int|
                0 <= i < fields.len() ==> {
                    &&& (#[trigger] fields[i]).name@ == listing_field(
                        (page * 10 + i) as nat,
                        seasons[page * 10 + i],
                    ).0
                    &&& fields[i].value@ == listing_field(
                        (page * 10 + i) as nat,
                        seasons[page * 10 + i],
                    ).1
                    &&& !fields[i].inline
                },
        decreases end - k,
    {
        let season = &seasons[k];
        let mut name = decimal_text((k + 1) as u64);
        name.append(". ");
        name.append(season.title.as_str());
        let mut value = String::from_str("📅 ");
        let range = date_range_text(season);
        value.append(range.as_str());
        fields.push(EmbedField { name, value, inline: false });
        k = k + 1;
    }
    Embed { title: Some(title), description: None, fields }
}

/// The previous/next buttons: previous is greyed out on the first page, next on the last.
pub fn build_nav_row(page: usize, total_pages: usize) -> (row: Vec<RowButton>)
    requires
        total_pages >= 1,
    ensures
        row.len() == 2,
        row[0].button@ == ButtonView::SeasonsPrev,
        row[0].disabled == (page == 0),
        row[1].button@ == ButtonView::SeasonsNext,
        row[1].disabled == (page == total_pages - 1),
{
    let prev_disabled = page == 0;
    let next_disabled = page == total_pages - 1;
    let mut row = Vec::new();
    row.push(RowButton { button: Button::SeasonsPrev, disabled: prev_disabled });
    row.push(RowButton { button: Button::SeasonsNext, disabled: next_disabled });
    row
}

fn filter_is(active_filter: Option<SeasonType>, t: SeasonType) -> (b: bool)
    ensures
        b == (active_filter == Some(t)),
{
    match active_filter {
        Some(f) => f == t,
        None => false,
    }
}

/// The filter buttons, one per season type, the active filter's button marked active.
pub fn build_filter_row(active_filter: Option<SeasonType>) -> (row: Vec<Button>)
    ensures
        row.len() == 5,
        row[0]@ == (ButtonView::SeasonSurvivor {
            is_active: active_filter == Some(SeasonType::Survivor),
        }),
        row[1]@ == (ButtonView::SeasonBigBrother {
            is_active: active_filter == Some(SeasonType::BigBrother),
        }),
        row[2]@ == (ButtonView::SeasonTraitors {
            is_active: active_filter == Some(SeasonType::Traitors),
        }),
        row[3]@ == (ButtonView::SeasonTheChallenge {
            is_active: active_filter == Some(SeasonType::TheChallenge),
        }),
        row[4]@ == (ButtonView::SeasonOther {
            is_active: active_filter == Some(SeasonType::Other),
        }),
{
    let mut row = Vec::new();
    row.push(Button::SeasonSurvivor { is_active: filter_is(active_filter, SeasonType::Survivor) });
    row.push(
        Button::SeasonBigBrother { is_active: filter_is(active_filter, SeasonType::BigBrother) },
    );
    row.push(Button::SeasonTraitors { is_active: filter_is(active_filter, SeasonType::Traitors) });
    row.push(
        Button::SeasonTheChallenge {
            is_active: filter_is(active_filter, SeasonType::TheChallenge),
        },
    );
    row.push(Button::SeasonOther { is_active: filter_is(active_filter, SeasonType::Other) });
    row
}

/// Where a press moves the listing, given the seasons, the page count when the listing
/// was first sent, the page and the filter: `None` when the press is not one of the
/// listing's buttons. The page is then kept within the pages of the (new) view.
pub open spec fn browse_step(
    seasons: Seq<SeasonModel>,
    first_total: nat,
    page: nat,
    filter: Option<SeasonType>,
    pressed: Seq<char>,
) -> Option<(nat, Option<SeasonType>)> {
    let moved: Option<(nat, Option<SeasonType>)> = match button_from_text(pressed) {
        Ok(ButtonView::SeasonsNext) => Some(
            (
                if page + 1 <= first_total - 1 {
                    page + 1
                } else {
                    (first_total - 1) as nat
                },
                filter,
            ),
        ),
        Ok(ButtonView::SeasonsPrev) => Some(
            (
                if page > 0 {
                    (page - 1) as nat
                } else {
                    0
                },
                filter,
            ),
        ),
        Ok(ButtonView::SeasonTheChallenge { .. }) => Some(
            (0, toggled(filter, SeasonType::TheChallenge)),
        ),
        Ok(ButtonView::SeasonSurvivor { .. }) => Some((0, toggled(filter, SeasonType::Survivor))),
        Ok(ButtonView::SeasonBigBrother { .. }) => Some(
            (0, toggled(filter, SeasonType::BigBrother)),
        ),
        Ok(ButtonView::SeasonOther { .. }) => Some((0, toggled(filter, SeasonType::Other))),
        Ok(ButtonView::SeasonTraitors { .. }) => Some((0, toggled(filter, SeasonType::Traitors))),
        _ => None,
    };
    match moved {
        None => None,
        Some(m) => {
            let total = page_count(filtered(seasons, m.1).len());
            Some(
                (
                    if m.0 < total {
                        m.0
                    } else {
                        (total - 1) as nat
                    },
                    m.1,
                ),
            )
        },
    }
}

/// A season listing being browsed: all the organization's seasons (by start date), the
/// page shown, the active filter, and the page count when the listing was first sent.
#[derive(Clone, Debug, PartialEq, Eq)]
pub struct SeasonsBrowser {
    pub seasons: Vec<SeasonModel>,
    pub page: usize,
    pub active_filter: Option<SeasonType>,
    pub first_total_pages: usize,
}

proof fn lemma_filtered_len(seasons: Seq<SeasonModel>, filter: Option<SeasonType>)
    ensures
        filtered(seasons, filter).len() <= seasons.len(),
    decreases seasons.len(),
{
    if seasons.len() > 0 {
        lemma_filtered_len(seasons.drop_last(), filter);
    }
}

proof fn lemma_page_fits(page: nat, n: nat)
    requires
        page < page_count(n),
    ensures
        page * 10 <= n,
        n > 0 ==> page * 10 < n,
{
}

fn page_count_of(n: usize) -> (r: usize)
    ensures
        r == page_count(n as nat),
        r >= 1,
{
    if n == 0 {
        1
    } else if n % 10 == 0 {
        n / 10
    } else {
        n / 10 + 1
    }
}

impl SeasonsBrowser {
    /// The page shown lies within the pages of the view, and the first page count is
    /// that of the whole listing.
    pub open spec fn wf(&self) -> bool {
        &&& self.page < page_count(filtered(self.seasons@, self.active_filter).len())
        &&& self.first_total_pages == page_count(self.seasons@.len())
    }

    /// The listing as first sent: the first page of all seasons.
    pub fn new(seasons: Vec<SeasonModel>) -> (b: SeasonsBrowser)
        ensures
            b.wf(),
            b.seasons@ == seasons@,
            b.page == 0,
            b.active_filter is None,
    {
        let first_total_pages = page_count_of(seasons.len());
        SeasonsBrowser { seasons, page: 0, active_filter: None, first_total_pages }
    }

    /// The seasons shown under the active filter, in order.
    pub fn view(&self) -> (v: Vec<SeasonModel>)
        ensures
            v@ == filtered(self.seasons@, self.active_filter),
    {
        let mut v: Vec<SeasonModel> = Vec::new();
        let mut i: usize = 0;
        while i < self.seasons.len()
            invariant
                i <= self.seasons.len(),
                v@ == filtered(self.seasons@.take(i as int), self.active_filter),
            decreases self.seasons.len() - i,
        {
            proof {
                assert(self.seasons@.take(i + 1).drop_last() =~= self.seasons@.take(i as int));
                assert(self.seasons@.take(i + 1).last() == self.seasons@[i as int]);
            }
            let s = &self.seasons[i];
            let shown = match self.active_filter {
                Some(t) => s.season_type == t,
                None => true,
            };
            if shown {
                v.push(s.duplicate());
            }
            i = i + 1;
        }
        proof {
            assert(self.seasons@.take(i as int) =~= self.seasons@);
        }
        v
    }

    /// How many pages the view takes.
    pub fn total_pages(&self) -> (n: usize)
        ensures
            n == page_count(filtered(self.seasons@, self.active_filter).len()),
    {
        let v = self.view();
        page_count_of(v.len())
    }

    /// Applies a button press, given by the button's custom id; returns whether the
    /// press belongs to the listing (other presses leave it as it was).
    pub fn press(&mut self, custom_id: &str) -> (handled: bool)
        requires
            old(self).wf(),
        ensures
            final(self).wf(),
            final(self).seasons == old(self).seasons,
            final(self).first_total_pages == old(self).first_total_pages,
            match browse_step(
                old(self).seasons@,
                old(self).first_total_pages as nat,
                old(self).page as nat,
                old(self).active_filter,
                custom_id@,
            ) {
                Some(next) => handled && final(self).page == next.0 && final(self).active_filter
                    == next.1,
                None => !handled && final(self).page == old(self).page && final(self).active_filter
                    == old(self).active_filter,
            },
    {
        proof {
            lemma_filtered_len(self.seasons@, self.active_filter);
        }
        let (page, filter) = match Button::from_str(custom_id) {
            Ok(Button::SeasonsNext) => {
                let last = self.first_total_pages - 1;
                (if self.page + 1 <= last {
                    self.page + 1
                } else {
                    last
                }, self.active_filter)
            },
            Ok(Button::SeasonsPrev) => {
                (if self.page > 0 {
                    self.page - 1
                } else {
                    0
                }, self.active_filter)
            },
            Ok(Button::SeasonTheChallenge { .. }) => {
                (0, toggle_filter(self.active_filter, SeasonType::TheChallenge))
            },
            Ok(Button::SeasonSurvivor { .. }) => {
                (0, toggle_filter(self.active_filter, SeasonType::Survivor))
            },
            Ok(Button::SeasonBigBrother { .. }) => {
                (0, toggle_filter(self.active_filter, SeasonType::BigBrother))
            },
            Ok(Button::SeasonOther { .. }) => {
                (0, toggle_filter(self.active_filter, SeasonType::Other))
            },
            Ok(Button::SeasonTraitors { .. }) => {
                (0, toggle_filter(self.active_filter, SeasonType::Traitors))
            },
            _ => {
                return false;
            },
        };
        self.active_filter = filter;
        self.page = page;
        let total = self.total_pages();
        if self.page > total - 1 {
            self.page = total - 1;
        }
        true
    }

    /// The embed of the page shown.
    pub fn embed(&self) -> (e: Embed)
        requires
            self.wf(),
        ensures
            ({
                let view = filtered(self.seasons@, self.active_filter);
                let total = page_count(view.len());
                &&& e.title matches Some(t) && t@ == listing_title(
                    self.active_filter,
                    self.page as nat,
                    total,
                )
                &&& e.description is None
                &&& e.fields.len() == page_end(self.page as nat, view.len()) - page_start(
                    self.page as nat,
                )
                &&& forall|i: int|
                    0 <= i < e.fields.len() ==> {
                        &&& (#[trigger] e.fields[i]).name@ == listing_field(
                            (self.page * 10 + i) as nat,
                            view[self.page * 10 + i],
                        ).0
                        &&& e.fields[i].value@ == listing_field(
                            (self.page * 10 + i) as nat,
                            view[self.page * 10 + i],
                        ).1
                        &&& !e.fields[i].inline
                    }
            }),
    {
        let v = self.view();
        let total = page_count_of(v.len());
        proof {
            lemma_page_fits(self.page as nat, v.len() as nat);
        }
        build_embed(&v, self.active_filter, self.page, total)
    }

    /// The previous/next row for the page shown.
    pub fn nav_row(&self) -> (row: Vec<RowButton>)
        requires
            self.wf(),
        ensures
            row.len() == 2,
            row[0].button@ == ButtonView::SeasonsPrev,
            row[0].disabled == (self.page == 0),
            row[1].button@ == ButtonView::SeasonsNext,
            row[1].disabled == (self.page + 1 == page_count(
                filtered(self.seasons@, self.active_filter).len(),
            )),
    {
        let total = self.total_pages();
        build_nav_row(self.page, total)
    }

    /// The filter row for the active filter.
    pub fn filter_row(&self) -> (row: Vec<Button>)
        ensures
            row.len() == 5,
            row[0]@ == (ButtonView::SeasonSurvivor {
                is_active: self.active_filter == Some(SeasonType::Survivor),
            }),
            row[1]@ == (ButtonView::SeasonBigBrother {
                is_active: self.active_filter == Some(SeasonType::BigBrother),
            }),
            row[2]@ == (ButtonView::SeasonTraitors {
                is_active: self.active_filter == Some(SeasonType::Traitors),
            }),
            row[3]@ == (ButtonView::SeasonTheChallenge {
                is_active: self.active_filter == Some(SeasonType::TheChallenge),
            }),
            row[4]@ == (ButtonView::SeasonOther {
                is_active: self.active_filter == Some(SeasonType::Other),
            }),
    {
        build_filter_row(self.active_filter)
    }
}

/// The heading of a season overview: its number, title and dates.
pub open spec fn season_description(season_id: nat, s: SeasonModel) -> Seq<char> {
    "**"@ + decimal(season_id) + "** • "@ + s.title@ + " \n📅 "@ + date_range(s) + "\n\n"@
}

pub fn format_season_description(season_id: usize, season: &SeasonModel) -> (r: String)
    ensures
        r@ == season_description(season_id as nat, *season),
{
    let mut r = String::from_str("**");
    let n = decimal_text(season_id as u64);
    r.append(n.as_str());
    r.append("** • ");
    r.append(season.title.as_str());
    r.append(" \n📅 ");
    let range = date_range_text(season);
    r.append(range.as_str());
    r.append("\n\n");
    r
}

/// The season numbered `season_id` in a listing (numbers start at 1).
pub fn season_by_number(seasons: &Vec<SeasonModel>, season_id: usize) -> (r: Option<&SeasonModel>)
    requires
        season_id >= 1,
    ensures
        season_id <= seasons.len() ==> r == Some(&seasons[season_id - 1]),
        season_id > seasons.len() ==> r is None,
{
    if season_id - 1 < seasons.len() {
        Some(&seasons[season_id - 1])
    } else {
        None
    }
}

/// The line between a season overview's heading and its standings.
pub open spec fn standings_rule() -> Seq<char> {
    "---------------------------------------\n"@
}

pub open spec fn placement_text(p: Option<i32>) -> Seq<char> {
    match p {
        Some(p) => signed_decimal(p as int),
        None => "-"@,
    }
}

/// One line of the standings: the member's name, the place they finished in (or "-"),
/// and the number of players.
pub open spec fn standing_line(m: SeasonMemberWithName, num_players: i32) -> Seq<char> {
    "**"@ + (match m.display_name {
        Some(n) => n@,
        None => Seq::<char>::empty(),
    }) + "**: \t"@ + placement_text(m.season_member.placement) + "/"@ + signed_decimal(
        num_players as int,
    ) + "\n"@
}

pub open spec fn standing_lines(ms: Seq<SeasonMemberWithName>, num_players: i32) -> Seq<char>
    decreases ms.len(),
{
    if ms.len() == 0 {
        Seq::empty()
    } else {
        standing_lines(ms.drop_last(), num_players) + standing_line(ms.last(), num_players)
    }
}

/// The text of a season overview: the heading of the chosen season (when one was
/// found), the rule, and one standing line per entry of that season.
pub open spec fn season_info_text(
    selected: Option<(nat, SeasonModel)>,
    members: Seq<SeasonMemberWithName>,
) -> Seq<char> {
    match selected {
        Some(sel) => season_description(sel.0, sel.1) + standings_rule() + standing_lines(
            members,
            sel.1.num_players,
        ),
        None => standings_rule(),
    }
}

fn standing_line_text(m: &SeasonMemberWithName, num_players: i32) -> (r: String)
    ensures
        r@ == standing_line(*m, num_players),
{
    let mut r = String::from_str("**");
    match &m.display_name {
        Some(n) => {
            r.append(n.as_str());
        },
        None => {},
    }
    r.append("**: \t");
    match m.season_member.placement {
        Some(p) => {
            let t = signed_decimal_text(p as i64);
            r.append(t.as_str());
        },
        None => {
            r.append("-");
        },
    }
    r.append("/");
    let n = signed_decimal_text(num_players as i64);
    r.append(n.as_str());
    r.append("\n");
    r
}

/// Builds the text of a season overview. The entries are those of the chosen season;
/// without a chosen season there are none to show.
pub fn season_info_description(
    selected: Option<(usize, &SeasonModel)>,
    members: &Vec<SeasonMemberWithName>,
) -> (r: String)
    ensures
        r@ == season_info_text(
            match selected {
                Some(sel) => Some((sel.0 as nat, *sel.1)),
                None => None,
            },
            members@,
        ),
{
    match selected {
        None => String::from_str("---------------------------------------\n"),
        Some((season_id, season)) => {
            let mut r = format_season_description(season_id, season);
            r.append("---------------------------------------\n");
            let ghost head = r@;
            let mut i: usize = 0;
            while i < members.len()
                invariant
                    i <= members.len(),
                    r@ == head + standing_lines(members@.take(i as int), season.num_players),
                decreases members.len() - i,
            {
                proof {
                    assert(members@.take(i + 1).drop_last() =~= members@.take(i as int));
                    assert(members@.take(i + 1).last() == members@[i as int]);
                }
                let line = standing_line_text(&members[i], season.num_players);
                r.append(line.as_str());
                i = i + 1;
            }
            proof {
                assert(members@.take(i as int) =~= members@);
            }
            r
        },
    }
}

} // verus!

verus! {

/// Pressing a filter button twice from no filter, or from that same filter, brings the
/// filter back to where it was.
pub proof fn lemma_toggle_twice(f: Option<SeasonType>, t: SeasonType)
    requires
        f is None || f == Some(t),
    ensures
        toggled(toggled(f, t), t) == f,
{
}

/// Every season shown under a filter has the filter's type, and without a filter every
/// season shows, in order.
pub proof fn lemma_filtered_shows(seasons: Seq<SeasonModel>, f: Option<SeasonType>)
    ensures
        forall|k: int|
            0 <= k < filtered(seasons, f).len() ==> shown_under(#[trigger] filtered(seasons, f)[k], f),
        filtered(seasons, None) == seasons,
    decreases seasons.len(),
{
    if seasons.len() > 0 {
        lemma_filtered_shows(seasons.drop_last(), f);
        assert(seasons.drop_last().push(seasons.last()) =~= seasons);
        let r = filtered(seasons.drop_last(), f);
        assert forall|k: int| 0 <= k < filtered(seasons, f).len() implies shown_under(
            #[trigger] filtered(seasons, f)[k],
            f,
        ) by {
            if k < r.len() {
                assert(filtered(seasons, f)[k] == r[k]);
            }
        }
    } else {
        assert(filtered(seasons, None) =~= seasons);
    }
}

/// A season of the filter's type shows under the filter.
pub proof fn lemma_filtered_keeps(seasons: Seq<SeasonModel>, f: Option<SeasonType>, i: int)
    requires
        0 <= i < seasons.len(),
        shown_under(seasons[i], f),
    ensures
        filtered(seasons, f).contains(seasons[i]),
    decreases seasons.len(),
{
    if i < seasons.len() - 1 {
        lemma_filtered_keeps(seasons.drop_last(), f, i);
        let r = filtered(seasons.drop_last(), f);
        let k = choose|k: int| 0 <= k < r.len() && r[k] == seasons[i];
        if shown_under(seasons.last(), f) {
            assert(r.push(seasons.last())[k] == seasons[i]);
        }
    } else {
        let r = filtered(seasons.drop_last(), f);
        assert(r.push(seasons.last())[r.len() as int] == seasons[i]);
    }
}

/// The pages split the listing: position `k` of `n` lies on page `k / 10`, which is one
/// of the listing's pages.
pub proof fn lemma_page_of_position(k: nat, n: nat)
    requires
        k < n,
    ensures
        k / 10 < page_count(n),
        page_start(k / 10) <= k < page_end(k / 10, n),
{
}

/// Pressing the filter button of season type `t` (whose custom id carries `t`'s stored
/// value) goes back to the first page and toggles the filter on `t`, whatever the
/// listing, page and filter were; when `t` becomes the filter, every season shown has
/// type `t`.
pub proof fn lemma_filter_press(
    seasons: Seq<SeasonModel>,
    first_total: nat,
    page: nat,
    filter: Option<SeasonType>,
    t: SeasonType,
    is_active: bool,
)
    ensures
        browse_step(seasons, first_total, page, filter, filter_id(season_type_value(t), is_active))
            == Some((0nat, toggled(filter, t))),
        toggled(filter, t) == Some(t) ==> forall|k: int|
            0 <= k < filtered(seasons, Some(t)).len() ==> (#[trigger] filtered(
                seasons,
                Some(t),
            )[k]).season_type == t,
{
    let b = match t {
        SeasonType::Survivor => ButtonView::SeasonSurvivor { is_active },
        SeasonType::Traitors => ButtonView::SeasonTraitors { is_active },
        SeasonType::BigBrother => ButtonView::SeasonBigBrother { is_active },
        SeasonType::TheChallenge => ButtonView::SeasonTheChallenge { is_active },
        SeasonType::Other => ButtonView::SeasonOther { is_active },
    };
    lemma_button_id_roundtrip(b);
    assert(button_id(b) == filter_id(season_type_value(t), is_active));
    lemma_filtered_shows(seasons, Some(t));
}

proof fn lemma_standing_lines_concat(a: Seq<SeasonMemberWithName>, b: Seq<SeasonMemberWithName>, n: i32)
    ensures
        standing_lines(a + b, n) == standing_lines(a, n) + standing_lines(b, n),
    decreases b.len(),
{
    if b.len() == 0 {
        assert(a + b =~= a);
        assert(standing_lines(a, n) + standing_lines(b, n) =~= standing_lines(a, n));
    } else {
        lemma_standing_lines_concat(a, b.drop_last(), n);
        assert((a + b).drop_last() =~= a + b.drop_last());
        assert((a + b).last() == b.last());
        assert(standing_lines(a + b, n) =~= standing_lines(a, n) + standing_lines(b, n));
    }
}

/// A season overview holds one standing line per entry, in order: with no entries it is
/// the heading and the rule, one more entry adds exactly that entry's line at the end,
/// and every entry's line occurs in it.
pub proof fn lemma_standings_line_per_entry(
    sel: (nat, SeasonModel),
    members: Seq<SeasonMemberWithName>,
    m: SeasonMemberWithName,
)
    ensures
        season_info_text(Some(sel), Seq::empty()) == season_description(sel.0, sel.1)
            + standings_rule(),
        season_info_text(Some(sel), members.push(m)) == season_info_text(Some(sel), members)
            + standing_line(m, sel.1.num_players),
        forall|i: int|
            0 <= i < members.len() ==> occurs_in(
                standing_line(#[trigger] members[i], sel.1.num_players),
                season_info_text(Some(sel), members),
            ),
{
    let n = sel.1.num_players;
    let head = season_description(sel.0, sel.1) + standings_rule();
    assert(standing_lines(Seq::<SeasonMemberWithName>::empty(), n) =~= Seq::<char>::empty());
    assert(head + Seq::<char>::empty() =~= head);
    assert(members.push(m).drop_last() =~= members);
    assert(head + (standing_lines(members, n) + standing_line(m, n)) =~= (head + standing_lines(
        members,
        n,
    )) + standing_line(m, n));
    assert forall|i: int| 0 <= i < members.len() implies occurs_in(
        standing_line(#[trigger] members[i], n),
        season_info_text(Some(sel), members),
    ) by {
        let before = members.take(i);
        let after = members.skip(i + 1);
        assert(members =~= before.push(members[i]) + after);
        lemma_standing_lines_concat(before.push(members[i]), after, n);
        assert(before.push(members[i]).drop_last() =~= before);
        let x = head + standing_lines(before, n);
        assert(season_info_text(Some(sel), members) =~= x + standing_line(members[i], n)
            + standing_lines(after, n));
        lemma_occurs_between(x, standing_line(members[i], n), standing_lines(after, n));
    }
}

} // verus!

//! The season form: gathering the submitted text fields and reading them as a season.
use vstd::prelude::*;
use vstd::string::*;

use crate::components::input_text::{input_from_text, InputText};
use crate::date::{date_of, parsed_ymd, Date};
use crate::text::{blank, i32_text_value, is_blank, parse_i32};

verus! {

/// A component of a submitted form row: a text field with its custom id and the text
/// entered (if any), or some other component.
#[derive(Clone, Debug, PartialEq, Eq)]
pub enum RowComponent {
    InputText { custom_id: String, value: Option<String> },
    Other,
}

/// One row of a submitted form.
#[derive(Clone, Debug, PartialEq, Eq)]
pub struct ActionRow {
    pub components: Vec<RowComponent>,
}

pub enum ComponentView {
    InputText { custom_id: Seq<char>, value: Option<Seq<char>> },
    Other,
}

pub open spec fn opt_view(o: Option<String>) -> Option<Seq<char>> {
    match o {
        Some(s) => Some(s@),
        None => None,
    }
}

impl View for RowComponent {
    type V = ComponentView;

    open spec fn view(&self) -> ComponentView {
        match self {
            RowComponent::InputText { custom_id, value } => ComponentView::InputText {
                custom_id: custom_id@,
                value: opt_view(*value),
            },
            RowComponent::Other => ComponentView::Other,
        }
    }
}

impl View for ActionRow {
    type V = Seq<ComponentView>;

    open spec fn view(&self) -> Seq<ComponentView> {
        self.components@.map_values(|c: RowComponent| c@)
    }
}

/// The text of a season form, as entered.
#[derive(Clone, Debug, PartialEq, Eq)]
pub struct SeasonFormData {
    pub title: String,
    pub num_players: String,
    pub start_date: String,
    pub end_date: Option<String>,
}

/// A season form read as a season.
#[derive(Clone, Debug, PartialEq, Eq)]
pub struct SeasonParsedData {
    pub title: String,
    pub num_players: i32,
    pub start_date: Date,
    pub end_date: Option<Date>,
}

/// The fields gathered so far: title, number of players, start date, end date.
pub type FormFields = (Option<Seq<char>>, Option<Seq<char>>, Option<Seq<char>>, Option<Seq<char>>);

/// Records the text `value` of field `field`: a later entry replaces an earlier one,
/// except that an absent or blank end date is ignored.
pub open spec fn record_field(acc: FormFields, field: InputText, value: Option<Seq<char>>) -> FormFields {
    match field {
        InputText::SeasonEndDate => match value {
            Some(v) => if !is_blank(v) {
                (acc.0, acc.1, acc.2, Some(v))
            } else {
                acc
            },
            None => acc,
        },
        InputText::SeasonNumPlayers => (acc.0, value, acc.2, acc.3),
        InputText::SeasonStartDate => (acc.0, acc.1, value, acc.3),
        InputText::SeasonTitle => (value, acc.1, acc.2, acc.3),
    }
}

/// Takes in one component: text fields are recorded, an unknown field id stops the
/// gathering with its error, other components are passed over.
pub open spec fn gather_step(acc: Result<FormFields, Seq<char>>, c: ComponentView) -> Result<
    FormFields,
    Seq<char>,
> {
    match acc {
        Err(e) => Err(e),
        Ok(fields) => match c {
            ComponentView::InputText { custom_id, value } => match input_from_text(custom_id) {
                Ok(field) => Ok(record_field(fields, field, value)),
                Err(e) => Err(e),
            },
            ComponentView::Other => Ok(fields),
        },
    }
}

pub open spec fn gather_components(acc: Result<FormFields, Seq<char>>, cs: Seq<ComponentView>) -> Result<
    FormFields,
    Seq<char>,
>
    decreases cs.len(),
{
    if cs.len() == 0 {
        acc
    } else {
        gather_step(gather_components(acc, cs.drop_last()), cs.last())
    }
}

/// The fields of all rows, taken row by row and in order within a row.
pub open spec fn gather_rows(rows: Seq<Seq<ComponentView>>) -> Result<FormFields, Seq<char>>
    decreases rows.len(),
{
    if rows.len() == 0 {
        Ok((None, None, None, None))
    } else {
        gather_components(gather_rows(rows.drop_last()), rows.last())
    }
}

/// The form that the rows describe: the gathered fields, with title, number of players
/// and start date required.
pub open spec fn form_from_rows(rows: Seq<Seq<ComponentView>>) -> Result<
    (Seq<char>, Seq<char>, Seq<char>, Option<Seq<char>>),
    Seq<char>,
> {
    match gather_rows(rows) {
        Err(e) => Err(e),
        Ok(f) => if f.0 is None {
            Err("Title is required"@)
        } else if f.1 is None {
            Err("Num Players is required"@)
        } else if f.2 is None {
            Err("Start Date is required"@)
        } else {
            Ok((f.0->0, f.1->0, f.2->0, f.3))
        },
    }
}

proof fn lemma_gather_components_err(e: Seq<char>, cs: Seq<ComponentView>)
    ensures
        gather_components(Err(e), cs) == Err::<FormFields, Seq<char>>(e),
    decreases cs.len(),
{
    if cs.len() > 0 {
        lemma_gather_components_err(e, cs.drop_last());
    }
}

proof fn lemma_gather_rows_err(rows: Seq<Seq<ComponentView>>, i: int, e: Seq<char>)
    requires
        0 <= i <= rows.len(),
        gather_rows(rows.take(i)) == Err::<FormFields, Seq<char>>(e),
    ensures
        gather_rows(rows) == Err::<FormFields, Seq<char>>(e),
    decreases rows.len() - i,
{
    if i == rows.len() {
        assert(rows.take(i) =~= rows);
    } else {
        assert(rows.take(i + 1).drop_last() =~= rows.take(i));
        lemma_gather_components_err(e, rows.take(i + 1).last());
        lemma_gather_rows_err(rows, i + 1, e);
    }
}

pub open spec fn rows_view(rows: Seq<ActionRow>) -> Seq<Seq<ComponentView>> {
    rows.map_values(|r: ActionRow| r@)
}

/// The date of a text as `%Y-%m-%d`, if it reads as one.
pub open spec fn date_value(s: Seq<char>) -> Option<Date> {
    match parsed_ymd(s) {
        Some(t) => Some(date_of(t)),
        None => None,
    }
}

/// What a form reads as, given how its dates read (`None` for a date that does not
/// read as one; the end date is absent when the form has none): the start date must
/// read, then the end date must read and may not come before the start, then the
/// number of players must be an `i32`.
pub open spec fn season_of_parts(
    title: Seq<char>,
    num_players: Seq<char>,
    start_date: Option<Date>,
    end_date: Option<Option<Date>>,
) -> Result<(Seq<char>, i32, Date, Option<Date>), Seq<char>> {
    match start_date {
        None => Err("Invalid Start Date"@),
        Some(start) => {
            let end: Result<Option<Date>, Seq<char>> = match end_date {
                None => Ok(None),
                Some(None) => Err("Invalid End Date"@),
                Some(Some(d)) => if start.later_than(d) {
                    Err("End Date must be after Start Date"@)
                } else {
                    Ok(Some(d))
                },
            };
            match end {
                Err(m) => Err(m),
                Ok(end) => match i32_text_value(num_players) {
                    None => Err("Invalid number of players"@),
                    Some(n) => Ok((title, n, start, end)),
                },
            }
        },
    }
}

/// What `parsed_data` makes of a form: its dates read as `%Y-%m-%d`, then
/// `season_of_parts`.
pub open spec fn parse_form(
    title: Seq<char>,
    num_players: Seq<char>,
    start_date: Seq<char>,
    end_date: Option<Seq<char>>,
) -> Result<(Seq<char>, i32, Date, Option<Date>), Seq<char>> {
    season_of_parts(
        title,
        num_players,
        date_value(start_date),
        match end_date {
            None => None,
            Some(e) => Some(date_value(e)),
        },
    )
}

impl SeasonParsedData {
    /// Reads a season from the form's title and number of players and from how its
    /// dates read.
    pub fn from_parts(
        title: &str,
        num_players: &str,
        start_date: Option<Date>,
        end_date: Option<Option<Date>>,
    ) -> (r: Result<SeasonParsedData, String>)
        ensures
            match r {
                Ok(p) => season_of_parts(title@, num_players@, start_date, end_date) == Ok::<
                    (Seq<char>, i32, Date, Option<Date>),
                    Seq<char>,
                >((p.title@, p.num_players, p.start_date, p.end_date)),
                Err(e) => season_of_parts(title@, num_players@, start_date, end_date) == Err::<
                    (Seq<char>, i32, Date, Option<Date>),
                    Seq<char>,
                >(e@),
            },
    {
        let start_date = match start_date {
            Some(d) => d,
            None => {
                return Err(String::from_str("Invalid Start Date"));
            },
        };
        let end_date = match end_date {
            Some(Some(d)) => {
                if start_date.is_later_than(&d) {
                    return Err(String::from_str("End Date must be after Start Date"));
                }
                Some(d)
            },
            Some(None) => {
                return Err(String::from_str("Invalid End Date"));
            },
            None => None,
        };
        let num_players = match parse_i32(num_players) {
            Some(n) => n,
            None => {
                return Err(String::from_str("Invalid number of players"));
            },
        };
        Ok(SeasonParsedData { title: title.to_string(), num_players, start_date, end_date })
    }
}

impl SeasonFormData {
    /// Gathers the season form from the rows of a submitted modal.
    pub fn from_action_rows(components: &Vec<ActionRow>) -> (r: Result<SeasonFormData, String>)
        ensures
            match r {
                Ok(f) => form_from_rows(rows_view(components@)) == Ok::<
                    (Seq<char>, Seq<char>, Seq<char>, Option<Seq<char>>),
                    Seq<char>,
                >((f.title@, f.num_players@, f.start_date@, opt_view(f.end_date))),
                Err(e) => form_from_rows(rows_view(components@)) == Err::<
                    (Seq<char>, Seq<char>, Seq<char>, Option<Seq<char>>),
                    Seq<char>,
                >(e@),
            },
    {
        let ghost rows = rows_view(components@);
        let mut title: Option<String> = None;
        let mut num_players: Option<String> = None;
        let mut start_date: Option<String> = None;
        let mut end_date: Option<String> = None;
        let mut i: usize = 0;
        while i < components.len()
            invariant
                i <= components.len(),
                rows == rows_view(components@),
                gather_rows(rows.take(i as int)) == Ok::<FormFields, Seq<char>>(
                    (opt_view(title), opt_view(num_players), opt_view(start_date), opt_view(end_date)),
                ),
            decreases components.len() - i,
        {
            let row = &components[i];
            let ghost before = rows.take(i as int);
            let ghost cs = row@;
            proof {
                assert(rows.take(i + 1).drop_last() =~= before);
                assert(rows.take(i + 1).last() == cs);
            }
            let mut j: usize = 0;
            while j < row.components.len()
                invariant
                    j <= row.components.len(),
                    cs == row@,
                    i < components.len(),
                    rows == rows_view(components@),
                    before == rows.take(i as int),
                    rows.take(i + 1).drop_last() == before,
                    rows.take(i + 1).last() == cs,
                    gather_components(gather_rows(before), cs.take(j as int)) == Ok::<
                        FormFields,
                        Seq<char>,
                    >(
                        (
                            opt_view(title),
                            opt_view(num_players),
                            opt_view(start_date),
                            opt_view(end_date),
                        ),
                    ),
                decreases row.components.len() - j,
            {
                proof {
                    assert(cs.take(j + 1).drop_last() =~= cs.take(j as int));
                    assert(cs.take(j + 1).last() == row.components[j as int]@);
                }
                match &row.components[j] {
                    RowComponent::InputText { custom_id, value } => {
                        match InputText::from_str(custom_id.as_str()) {
                            Ok(InputText::SeasonEndDate) => {
                                match value {
                                    Some(v) => {
                                        if !blank(v.as_str()) {
                                            end_date = Some(v.clone());
                                        }
                                    },
                                    None => {},
                                }
                            },
                            Ok(InputText::SeasonNumPlayers) => {
                                num_players = value.clone();
                            },
                            Ok(InputText::SeasonStartDate) => {
                                start_date = value.clone();
                            },
                            Ok(InputText::SeasonTitle) => {
                                title = value.clone();
                            },
                            Err(e) => {
                                proof {
                                    assert(gather_components(gather_rows(before), cs.take(j + 1))
                                        == Err::<FormFields, Seq<char>>(e@));
                                    lemma_gather_components_err(
                                        e@,
                                        cs.subrange(j + 1, cs.len() as int),
                                    );
                                    lemma_gather_components_split(
                                        gather_rows(before),
                                        cs,
                                        j + 1,
                                    );
                                    assert(rows.take(i + 1).last() == cs);
                                    lemma_gather_rows_err(rows, i + 1, e@);
                                }
                                return Err(e);
                            },
                        }
                    },
                    RowComponent::Other => {},
                }
                j = j + 1;
            }
            proof {
                assert(cs.take(j as int) =~= cs);
            }
            i = i + 1;
        }
        proof {
            assert(rows.take(i as int) =~= rows);
        }
        let title = match title {
            Some(t) => t,
            None => {
                return Err(String::from_str("Title is required"));
            },
        };
        let num_players = match num_players {
            Some(n) => n,
            None => {
                return Err(String::from_str("Num Players is required"));
            },
        };
        let start_date = match start_date {
            Some(s) => s,
            None => {
                return Err(String::from_str("Start Date is required"));
            },
        };
        Ok(SeasonFormData { title, num_players, start_date, end_date })
    }

    /// Reads the form as a season.
    pub fn parsed_data(&self) -> (r: Result<SeasonParsedData, String>)
        ensures
            match r {
                Ok(p) => parse_form(
                    self.title@,
                    self.num_players@,
                    self.start_date@,
                    opt_view(self.end_date),
                ) == Ok::<(Seq<char>, i32, Date, Option<Date>), Seq<char>>(
                    (p.title@, p.num_players, p.start_date, p.end_date),
                ),
                Err(e) => parse_form(
                    self.title@,
                    self.num_players@,
                    self.start_date@,
                    opt_view(self.end_date),
                ) == Err::<(Seq<char>, i32, Date, Option<Date>), Seq<char>>(e@),
            },
    {
        let start_date = Date::parse(self.start_date.as_str());
        let end_date = match &self.end_date {
            Some(e) => Some(Date::parse(e.as_str())),
            None => None,
        };
        SeasonParsedData::from_parts(
            self.title.as_str(),
            self.num_players.as_str(),
            start_date,
            end_date,
        )
    }
}

proof fn lemma_gather_components_split(
    acc: Result<FormFields, Seq<char>>,
    cs: Seq<ComponentView>,
    k: int,
)
    requires
        0 <= k <= cs.len(),
    ensures
        gather_components(acc, cs) == gather_components(
            gather_components(acc, cs.take(k)),
            cs.subrange(k, cs.len() as int),
        ),
    decreases cs.len(),
{
    if cs.len() == k {
        assert(cs.take(k) =~= cs);
        assert(cs.subrange(k, cs.len() as int) =~= Seq::<ComponentView>::empty());
    } else {
        lemma_gather_components_split(acc, cs.drop_last(), k);
        assert(cs.drop_last().take(k) =~= cs.take(k));
        let rest = cs.subrange(k, cs.len() as int);
        assert(rest.drop_last() =~= cs.drop_last().subrange(k, cs.len() - 1));
        assert(rest.last() == cs.last());
    }
}

} // verus!

verus! {

/// A form that reads as a season never ends before it starts.
pub proof fn lemma_parsed_dates_ordered(
    title: Seq<char>,
    num_players: Seq<char>,
    start_date: Seq<char>,
    end_date: Option<Seq<char>>,
)
    ensures
        parse_form(title, num_players, start_date, end_date) matches Ok(p) ==> (p.3 matches Some(
            end,
        ) ==> !p.2.later_than(end)),
        parse_form(title, num_players, start_date, end_date) matches Ok(p) ==> p.0 == title,
{
}

/// A form is refused for its end date exactly when the end comes before the start; in
/// particular a season whose end falls in a later year than its start is never refused
/// for it, and with a readable number of players it is accepted with both dates.
pub proof fn lemma_end_date_refusal(
    title: Seq<char>,
    num_players: Seq<char>,
    start: Date,
    end: Date,
)
    ensures
        season_of_parts(title, num_players, Some(start), Some(Some(end))) == Err::<
            (Seq<char>, i32, Date, Option<Date>),
            Seq<char>,
        >("End Date must be after Start Date"@) <==> start.later_than(end),
        start.year < end.year ==> season_of_parts(title, num_players, Some(start), Some(Some(end)))
            != Err::<(Seq<char>, i32, Date, Option<Date>), Seq<char>>(
            "End Date must be after Start Date"@,
        ),
        !start.later_than(end) && i32_text_value(num_players) is Some ==> season_of_parts(
            title,
            num_players,
            Some(start),
            Some(Some(end)),
        ) == Ok::<(Seq<char>, i32, Date, Option<Date>), Seq<char>>(
            (title, i32_text_value(num_players)->0, start, Some(end)),
        ),
{
    reveal_strlit("End Date must be after Start Date");
    reveal_strlit("Invalid number of players");
    assert("End Date must be after Start Date"@[0] != "Invalid number of players"@[0]);
    crate::date::lemma_later_than_chronological(start, end, end);
}

} // verus!

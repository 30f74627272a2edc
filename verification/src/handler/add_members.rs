//! Adding the members picked in a menu to a season, and reporting how each went.
use vstd::prelude::*;
use vstd::string::*;

use crate::text::{lemma_occurs_between, occurs_in};

verus! {

/// How adding one picked user to the season went.
#[derive(Clone, Copy, Debug, PartialEq, Eq, Structural)]
pub enum MemberAddition {
    /// The user's membership was entered into the season.
    Added,
    /// The user is a member, but the entry was refused.
    AddFailed,
    /// The user is not a member of the server's organization.
    NotMember,
    /// Looking the member up failed.
    LookupFailed,
}

/// The report line of one user.
pub open spec fn addition_message(user_id: Seq<char>, o: MemberAddition) -> Seq<char> {
    match o {
        MemberAddition::Added => "Added "@ + user_id,
        MemberAddition::AddFailed => "Unable to add user with ID "@ + user_id,
        MemberAddition::NotMember => "Failed to get member with discord user_id: "@ + user_id,
        MemberAddition::LookupFailed => "Database error while fetching member with discord user_id: "@
            + user_id,
    }
}

/// The report lines of the users added, in order.
pub open spec fn success_messages(outcomes: Seq<(Seq<char>, MemberAddition)>) -> Seq<Seq<char>>
    decreases outcomes.len(),
{
    if outcomes.len() == 0 {
        Seq::empty()
    } else {
        let r = success_messages(outcomes.drop_last());
        let o = outcomes.last();
        if o.1 == MemberAddition::Added {
            r.push(addition_message(o.0, o.1))
        } else {
            r
        }
    }
}

/// The report lines of the users not added, in order.
pub open spec fn error_messages(outcomes: Seq<(Seq<char>, MemberAddition)>) -> Seq<Seq<char>>
    decreases outcomes.len(),
{
    if outcomes.len() == 0 {
        Seq::empty()
    } else {
        let r = error_messages(outcomes.drop_last());
        let o = outcomes.last();
        if o.1 != MemberAddition::Added {
            r.push(addition_message(o.0, o.1))
        } else {
            r
        }
    }
}

/// Each line after `mark`, each ending the line.
pub open spec fn bullets(mark: Seq<char>, lines: Seq<Seq<char>>) -> Seq<char>
    decreases lines.len(),
{
    if lines.len() == 0 {
        Seq::empty()
    } else {
        bullets(mark, lines.drop_last()) + mark + lines.last() + "\n"@
    }
}

/// The report: the users added under one heading, the failures under another (apart
/// by a blank line when both are present), or a note that no user was processed.
pub open spec fn addition_report(outcomes: Seq<(Seq<char>, MemberAddition)>) -> Seq<char> {
    let s = success_messages(outcomes);
    let e = error_messages(outcomes);
    if s.len() == 0 && e.len() == 0 {
        "No users were processed."@
    } else {
        (if s.len() > 0 {
            "**Successfully added:**\n"@ + bullets("✅ "@, s)
        } else {
            Seq::empty()
        }) + (if e.len() > 0 {
            (if s.len() > 0 {
                "\n"@
            } else {
                Seq::empty()
            }) + "**Errors:**\n"@ + bullets("❌ "@, e)
        } else {
            Seq::empty()
        })
    }
}

pub open spec fn outcomes_view(v: Seq<(String, MemberAddition)>) -> Seq<(Seq<char>, MemberAddition)> {
    v.map_values(|o: (String, MemberAddition)| (o.0@, o.1))
}

fn addition_message_text(user_id: &str, o: MemberAddition) -> (r: String)
    ensures
        r@ == addition_message(user_id@, o),
{
    match o {
        MemberAddition::Added => crate::text::join2("Added ", user_id),
        MemberAddition::AddFailed => crate::text::join2("Unable to add user with ID ", user_id),
        MemberAddition::NotMember => crate::text::join2(
            "Failed to get member with discord user_id: ",
            user_id,
        ),
        MemberAddition::LookupFailed => crate::text::join2(
            "Database error while fetching member with discord user_id: ",
            user_id,
        ),
    }
}

fn append_bullets(r: &mut String, mark: &str, lines: &Vec<String>)
    ensures
        final(r)@ == old(r)@ + bullets(mark@, lines@.map_values(|l: String| l@)),
{
    let ghost start = r@;
    let ghost all = lines@.map_values(|l: String| l@);
    let mut i: usize = 0;
    while i < lines.len()
        invariant
            i <= lines.len(),
            all == lines@.map_values(|l: String| l@),
            r@ == start + bullets(mark@, all.take(i as int)),
        decreases lines.len() - i,
    {
        proof {
            assert(all.take(i + 1).drop_last() =~= all.take(i as int));
            assert(all.take(i + 1).last() == lines@[i as int]@);
        }
        r.append(mark);
        r.append(lines[i].as_str());
        r.append("\n");
        i = i + 1;
        proof {
            assert(r@ =~= start + bullets(mark@, all.take(i as int)));
        }
    }
    proof {
        assert(all.take(i as int) =~= all);
    }
}

/// Builds the report of adding the picked users (each with its Discord id and how it
/// went) to a season.
pub fn addition_report_text(outcomes: &Vec<(String, MemberAddition)>) -> (r: String)
    ensures
        r@ == addition_report(outcomes_view(outcomes@)),
{
    let ghost os = outcomes_view(outcomes@);
    let mut successes: Vec<String> = Vec::new();
    let mut errors: Vec<String> = Vec::new();
    let mut i: usize = 0;
    while i < outcomes.len()
        invariant
            i <= outcomes.len(),
            os == outcomes_view(outcomes@),
            successes@.map_values(|l: String| l@) == success_messages(os.take(i as int)),
            errors@.map_values(|l: String| l@) == error_messages(os.take(i as int)),
        decreases outcomes.len() - i,
    {
        proof {
            assert(os.take(i + 1).drop_last() =~= os.take(i as int));
            assert(os.take(i + 1).last() == (outcomes@[i as int].0@, outcomes@[i as int].1));
        }
        let o = &outcomes[i];
        let ghost s_before = successes@.map_values(|l: String| l@);
        let ghost e_before = errors@.map_values(|l: String| l@);
        let message = addition_message_text(o.0.as_str(), o.1);
        if o.1 == MemberAddition::Added {
            successes.push(message);
            proof {
                assert(successes@.map_values(|l: String| l@) =~= s_before.push(
                    addition_message(o.0@, o.1),
                ));
            }
        } else {
            errors.push(message);
            proof {
                assert(errors@.map_values(|l: String| l@) =~= e_before.push(
                    addition_message(o.0@, o.1),
                ));
            }
        }
        i = i + 1;
    }
    proof {
        assert(os.take(i as int) =~= os);
    }
    let mut r = String::new();
    if successes.len() > 0 {
        r.append("**Successfully added:**\n");
        append_bullets(&mut r, "✅ ", &successes);
    }
    if errors.len() > 0 {
        if successes.len() > 0 {
            r.append("\n");
        }
        r.append("**Errors:**\n");
        append_bullets(&mut r, "❌ ", &errors);
    }
    if successes.len() == 0 && errors.len() == 0 {
        r = String::from_str("No users were processed.");
    }
    proof {
        assert(r@ =~= addition_report(os));
    }
    r
}

/// The follow-up sent for one picked user by the menu handler: "Success!" when the user
/// was added; when the entry was refused, a note naming the server id; otherwise a note
/// naming the user.
pub fn member_addition_notice(discord_guild_id: &str, discord_user_id: &str, o: MemberAddition) -> (r:
    String)
    ensures
        r@ == (match o {
            MemberAddition::Added => "Success!"@,
            MemberAddition::AddFailed => "Unable to add user with ID "@ + discord_guild_id@,
            _ => "Failed to get member with discord user_id: "@ + discord_user_id@,
        }),
{
    match o {
        MemberAddition::Added => String::from_str("Success!"),
        MemberAddition::AddFailed => crate::text::join2(
            "Unable to add user with ID ",
            discord_guild_id,
        ),
        _ => crate::text::join2("Failed to get member with discord user_id: ", discord_user_id),
    }
}

/// The follow-up when the menu answer is not a choice of users.
pub const UNEXPECTED_DATA_KIND: &'static str = "Unexpected interaction data kind";

/// The question sent after the picked users were handled.
pub const SET_AS_CURRENT_QUESTION: &'static str = "Set as current season?";

} // verus!

verus! {

/// Every picked user is reported exactly once: among the added or among the failures.
pub proof fn lemma_report_counts(outcomes: Seq<(Seq<char>, MemberAddition)>)
    ensures
        success_messages(outcomes).len() + error_messages(outcomes).len() == outcomes.len(),
    decreases outcomes.len(),
{
    if outcomes.len() > 0 {
        lemma_report_counts(outcomes.drop_last());
    }
}

proof fn lemma_success_listed(outcomes: Seq<(Seq<char>, MemberAddition)>, i: int) -> (j: int)
    requires
        0 <= i < outcomes.len(),
        outcomes[i].1 == MemberAddition::Added,
    ensures
        0 <= j < success_messages(outcomes).len(),
        success_messages(outcomes)[j] == addition_message(outcomes[i].0, outcomes[i].1),
    decreases outcomes.len(),
{
    if i == outcomes.len() - 1 {
        success_messages(outcomes.drop_last()).len() as int
    } else {
        let j = lemma_success_listed(outcomes.drop_last(), i);
        j
    }
}

proof fn lemma_error_listed(outcomes: Seq<(Seq<char>, MemberAddition)>, i: int) -> (j: int)
    requires
        0 <= i < outcomes.len(),
        outcomes[i].1 != MemberAddition::Added,
    ensures
        0 <= j < error_messages(outcomes).len(),
        error_messages(outcomes)[j] == addition_message(outcomes[i].0, outcomes[i].1),
    decreases outcomes.len(),
{
    if i == outcomes.len() - 1 {
        error_messages(outcomes.drop_last()).len() as int
    } else {
        let j = lemma_error_listed(outcomes.drop_last(), i);
        j
    }
}

proof fn lemma_bullets_concat(mark: Seq<char>, a: Seq<Seq<char>>, b: Seq<Seq<char>>)
    ensures
        bullets(mark, a + b) == bullets(mark, a) + bullets(mark, b),
    decreases b.len(),
{
    if b.len() == 0 {
        assert(a + b =~= a);
        assert(bullets(mark, a) + bullets(mark, b) =~= bullets(mark, a));
    } else {
        lemma_bullets_concat(mark, a, b.drop_last());
        assert((a + b).drop_last() =~= a + b.drop_last());
        assert((a + b).last() == b.last());
        assert(bullets(mark, a + b) =~= bullets(mark, a) + bullets(mark, b));
    }
}

/// The bullet of line `j` sits between the bullets before it and those after it.
proof fn lemma_bullet_at(mark: Seq<char>, lines: Seq<Seq<char>>, j: int)
    requires
        0 <= j < lines.len(),
    ensures
        bullets(mark, lines) == bullets(mark, lines.take(j)) + (mark + lines[j] + "\n"@) + bullets(
            mark,
            lines.skip(j + 1),
        ),
{
    let before = lines.take(j);
    let after = lines.skip(j + 1);
    assert(lines =~= before.push(lines[j]) + after);
    lemma_bullets_concat(mark, before.push(lines[j]), after);
    assert(before.push(lines[j]).drop_last() =~= before);
    assert(bullets(mark, before.push(lines[j])) =~= bullets(mark, before) + (mark + lines[j]
        + "\n"@));
}

proof fn lemma_report_parts(outcomes: Seq<(Seq<char>, MemberAddition)>)
    ensures
        ({
            let s = success_messages(outcomes);
            let e = error_messages(outcomes);
            let front: Seq<char> = if s.len() > 0 {
                "**Successfully added:**\n"@ + bullets("✅ "@, s)
            } else {
                Seq::empty()
            };
            let sep: Seq<char> = if s.len() > 0 {
                "\n"@
            } else {
                Seq::empty()
            };
            let tail: Seq<char> = if e.len() > 0 {
                sep + "**Errors:**\n"@ + bullets("❌ "@, e)
            } else {
                Seq::empty()
            };
            (s.len() > 0 || e.len() > 0) ==> addition_report(outcomes) == front + tail
        }),
{
}

proof fn lemma_report_names_added(outcomes: Seq<(Seq<char>, MemberAddition)>, i: int)
    requires
        0 <= i < outcomes.len(),
        outcomes[i].1 == MemberAddition::Added,
    ensures
        occurs_in("✅ "@ + "Added "@ + outcomes[i].0 + "\n"@, addition_report(outcomes)),
{
    let s = success_messages(outcomes);
    let e = error_messages(outcomes);
    lemma_report_parts(outcomes);
    let j = lemma_success_listed(outcomes, i);
    lemma_bullet_at("✅ "@, s, j);
    let needle = "✅ "@ + "Added "@ + outcomes[i].0 + "\n"@;
    assert(("✅ "@ + s[j] + "\n"@) =~= needle);
    let sep: Seq<char> = "\n"@;
    let tail: Seq<char> = if e.len() > 0 {
        sep + "**Errors:**\n"@ + bullets("❌ "@, e)
    } else {
        Seq::empty()
    };
    let x = "**Successfully added:**\n"@ + bullets("✅ "@, s.take(j));
    let y = bullets("✅ "@, s.skip(j + 1)) + tail;
    assert(addition_report(outcomes) =~= x + needle + y);
    lemma_occurs_between(x, needle, y);
}

proof fn lemma_report_names_failed(outcomes: Seq<(Seq<char>, MemberAddition)>, i: int)
    requires
        0 <= i < outcomes.len(),
        outcomes[i].1 != MemberAddition::Added,
    ensures
        occurs_in(
            "❌ "@ + addition_message(outcomes[i].0, outcomes[i].1) + "\n"@,
            addition_report(outcomes),
        ),
{
    let s = success_messages(outcomes);
    let e = error_messages(outcomes);
    lemma_report_parts(outcomes);
    let j = lemma_error_listed(outcomes, i);
    lemma_bullet_at("❌ "@, e, j);
    let needle = "❌ "@ + addition_message(outcomes[i].0, outcomes[i].1) + "\n"@;
    let front: Seq<char> = if s.len() > 0 {
        "**Successfully added:**\n"@ + bullets("✅ "@, s)
    } else {
        Seq::empty()
    };
    let sep: Seq<char> = if s.len() > 0 {
        "\n"@
    } else {
        Seq::empty()
    };
    let x = front + sep + "**Errors:**\n"@ + bullets("❌ "@, e.take(j));
    let y = bullets("❌ "@, e.skip(j + 1));
    assert(addition_report(outcomes) =~= x + needle + y);
    lemma_occurs_between(x, needle, y);
}

proof fn lemma_report_empty_iff(outcomes: Seq<(Seq<char>, MemberAddition)>)
    ensures
        addition_report(outcomes) == "No users were processed."@ <==> outcomes.len() == 0,
{
    let s = success_messages(outcomes);
    let e = error_messages(outcomes);
    lemma_report_counts(outcomes);
    lemma_report_parts(outcomes);
    reveal_strlit("No users were processed.");
    reveal_strlit("**Successfully added:**\n");
    reveal_strlit("**Errors:**\n");
    let succ_head = "**Successfully added:**\n"@;
    let err_head = "**Errors:**\n"@;
    if outcomes.len() > 0 {
        let r = addition_report(outcomes);
        if s.len() > 0 {
            assert(r[0] == succ_head[0]);
        } else {
            assert(r =~= err_head + bullets("❌ "@, e));
            assert(r[0] == err_head[0]);
        }
        assert(r[0] != "No users were processed."@[0]);
    } else {
        assert(s.len() == 0 && e.len() == 0);
    }
}

/// The report names every picked user: each one added appears as "✅ Added <id>" on a
/// line of its own, each one not added as "❌ " and its failure message; and the report
/// says that no user was processed exactly when no user was picked.
pub proof fn lemma_report_names_everyone(outcomes: Seq<(Seq<char>, MemberAddition)>)
    ensures
        forall|i: int|
            0 <= i < outcomes.len() && (#[trigger] outcomes[i]).1 == MemberAddition::Added
                ==> occurs_in(
                "✅ "@ + "Added "@ + outcomes[i].0 + "\n"@,
                addition_report(outcomes),
            ),
        forall|i: int|
            0 <= i < outcomes.len() && (#[trigger] outcomes[i]).1 != MemberAddition::Added
                ==> occurs_in(
                "❌ "@ + addition_message(outcomes[i].0, outcomes[i].1) + "\n"@,
                addition_report(outcomes),
            ),
        addition_report(outcomes) == "No users were processed."@ <==> outcomes.len() == 0,
{
    assert forall|i: int|
        0 <= i < outcomes.len() && (#[trigger] outcomes[i]).1 == MemberAddition::Added
            implies occurs_in("✅ "@ + "Added "@ + outcomes[i].0 + "\n"@, addition_report(outcomes)) by {
        lemma_report_names_added(outcomes, i);
    }
    assert forall|i: int|
        0 <= i < outcomes.len() && (#[trigger] outcomes[i]).1 != MemberAddition::Added
            implies occurs_in(
            "❌ "@ + addition_message(outcomes[i].0, outcomes[i].1) + "\n"@,
            addition_report(outcomes),
        ) by {
        lemma_report_names_failed(outcomes, i);
    }
    lemma_report_empty_iff(outcomes);
}

} // verus!

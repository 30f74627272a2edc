//! Record identifiers (UUIDs), held as 128-bit numbers: their text form, reading
//! them back from text, and drawing new random ones.
use vstd::prelude::*;
use vstd::string::*;

use crate::text::push_char;

verus! {

pub open spec fn hex_char(d: nat) -> char {
    if d < 10 {
        (d + 48) as char
    } else {
        (d + 87) as char
    }
}

/// The last `n` hexadecimal digits of `u`, lowercase, most significant first.
pub open spec fn hex_digits(u: nat, n: nat) -> Seq<char>
    decreases n,
{
    if n == 0 {
        Seq::<char>::empty()
    } else {
        hex_digits(u / 16, (n - 1) as nat).push(hex_char(u % 16))
    }
}

/// The hyphenated lowercase form of a UUID: 8-4-4-4-12 hexadecimal digits.
pub open spec fn uuid_text(u: u128) -> Seq<char> {
    let h = hex_digits(u as nat, 32);
    h.subrange(0, 8) + seq!['-'] + h.subrange(8, 12) + seq!['-'] + h.subrange(12, 16) + seq!['-']
        + h.subrange(16, 20) + seq!['-'] + h.subrange(20, 32)
}

pub proof fn lemma_hex_digits_len(u: nat, n: nat)
    ensures
        hex_digits(u, n).len() == n,
    decreases n,
{
    if n > 0 {
        lemma_hex_digits_len(u / 16, (n - 1) as nat);
    }
}

fn hex_digit_char(d: u128) -> (c: char)
    requires
        d < 16,
    ensures
        c == hex_char(d as nat),
{
    if d < 10 {
        let b: u8 = (d as u8) + 48;
        b as char
    } else {
        let b: u8 = (d as u8) + 87;
        b as char
    }
}

fn hex_digit_vec(u: u128, n: usize) -> (v: Vec<char>)
    ensures
        v@ == hex_digits(u as nat, n as nat),
    decreases n,
{
    if n == 0 {
        Vec::new()
    } else {
        let mut v = hex_digit_vec(u / 16, n - 1);
        v.push(hex_digit_char(u % 16));
        v
    }
}

/// The hyphenated lowercase text of an identifier, as the uuid crate displays it.
pub fn id_text(u: u128) -> (s: String)
    ensures
        s@ == uuid_text(u),
{
    let h = hex_digit_vec(u, 32);
    proof {
        lemma_hex_digits_len(u as nat, 32);
    }
    let mut s = String::new();
    let mut i: usize = 0;
    while i < 32
        invariant
            i <= 32,
            h@ == hex_digits(u as nat, 32),
            h@.len() == 32,
            s@ == (if i <= 8 {
                h@.subrange(0, i as int)
            } else if i <= 12 {
                h@.subrange(0, 8) + seq!['-'] + h@.subrange(8, i as int)
            } else if i <= 16 {
                h@.subrange(0, 8) + seq!['-'] + h@.subrange(8, 12) + seq!['-'] + h@.subrange(
                    12,
                    i as int,
                )
            } else if i <= 20 {
                h@.subrange(0, 8) + seq!['-'] + h@.subrange(8, 12) + seq!['-'] + h@.subrange(
                    12,
                    16,
                ) + seq!['-'] + h@.subrange(16, i as int)
            } else {
                h@.subrange(0, 8) + seq!['-'] + h@.subrange(8, 12) + seq!['-'] + h@.subrange(
                    12,
                    16,
                ) + seq!['-'] + h@.subrange(16, 20) + seq!['-'] + h@.subrange(20, i as int)
            }),
        decreases 32 - i,
    {
        if i == 8 || i == 12 || i == 16 || i == 20 {
            push_char(&mut s, '-');
        }
        push_char(&mut s, h[i]);
        i = i + 1;
        assert(s@ =~= (if i <= 8 {
            h@.subrange(0, i as int)
        } else if i <= 12 {
            h@.subrange(0, 8) + seq!['-'] + h@.subrange(8, i as int)
        } else if i <= 16 {
            h@.subrange(0, 8) + seq!['-'] + h@.subrange(8, 12) + seq!['-'] + h@.subrange(
                12,
                i as int,
            )
        } else if i <= 20 {
            h@.subrange(0, 8) + seq!['-'] + h@.subrange(8, 12) + seq!['-'] + h@.subrange(12, 16)
                + seq!['-'] + h@.subrange(16, i as int)
        } else {
            h@.subrange(0, 8) + seq!['-'] + h@.subrange(8, 12) + seq!['-'] + h@.subrange(12, 16)
                + seq!['-'] + h@.subrange(16, 20) + seq!['-'] + h@.subrange(20, i as int)
        }));
    }
    s
}

/// What `uuid::Uuid::parse_str(s)` reads from `s`, as its 128-bit value, or `None` when
/// it rejects `s`.
pub uninterp spec fn parsed_uuid(s: Seq<char>) -> Option<u128>;

/// Calls `uuid::Uuid::parse_str` and takes the parsed UUID's `as_u128` value. The result
/// is named by `parsed_uuid`. The crate parses back every text that its hyphenated
/// lowercase display produces (`uuid_text`), to the same value.
#[verifier::external_body]
fn uuid_parse(s: &str) -> (r: Option<u128>)
    ensures
        r == parsed_uuid(s@),
        forall|u: u128| s@ == uuid_text(u) ==> r == Some(u),
{
    match uuid::Uuid::parse_str(s) {
        Ok(u) => Some(u.as_u128()),
        Err(_) => None,
    }
}

/// Reads an identifier written in any of the forms the uuid crate accepts.
pub fn parse_id(s: &str) -> (r: Option<u128>)
    ensures
        r == parsed_uuid(s@),
        forall|u: u128| s@ == uuid_text(u) ==> r == Some(u),
{
    uuid_parse(s)
}

/// Calls `uuid::Uuid::new_v4()`: a fresh random identifier. Nothing is promised of
/// the value beyond its type; it differs from call to call.
#[verifier::external_body]
pub(crate) fn new_random_id() -> (r: u128) {
    uuid::Uuid::new_v4().as_u128()
}

} // verus!

verus! {

proof fn lemma_hex_digits_no_colon(u: nat, n: nat)
    ensures
        !hex_digits(u, n).contains(':'),
    decreases n,
{
    if n > 0 {
        lemma_hex_digits_no_colon(u / 16, (n - 1) as nat);
        let s = hex_digits(u, n);
        let t = hex_digits(u / 16, (n - 1) as nat);
        assert(s == t.push(hex_char(u % 16)));
        assert forall|i: int| 0 <= i < s.len() implies s[i] != ':' by {
            if i < t.len() {
                assert(s[i] == t[i]);
                assert(!t.contains(':'));
            }
        }
    }
}

/// The text of an identifier holds no ':', so it can stand as a parameter of a custom id.
pub proof fn lemma_id_text_no_colon(u: u128)
    ensures
        !uuid_text(u).contains(':'),
{
    let h = hex_digits(u as nat, 32);
    lemma_hex_digits_len(u as nat, 32);
    lemma_hex_digits_no_colon(u as nat, 32);
    let t = uuid_text(u);
    assert forall|i: int| 0 <= i < t.len() implies t[i] != ':' by {
        if i < 8 {
            assert(t[i] == h[i]);
        } else if i == 8 || i == 13 || i == 18 || i == 23 {
        } else if i < 13 {
            assert(t[i] == h[i - 1]);
        } else if i < 18 {
            assert(t[i] == h[i - 2]);
        } else if i < 23 {
            assert(t[i] == h[i - 3]);
        } else {
            assert(t[i] == h[i - 4]);
        }
    }
}


} // verus!

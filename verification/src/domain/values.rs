use vstd::prelude::*;

use crate::error::{is_validation, AppError};
use crate::text::{char_is_ws, is_ws, trim, trimmed};

verus! {

pub open spec fn is_ascii_digit(c: char) -> bool {
    '0' <= c && c <= '9'
}

pub open spec fn is_ascii_lower(c: char) -> bool {
    'a' <= c && c <= 'z'
}

pub open spec fn is_ascii_alnum(c: char) -> bool {
    ||| is_ascii_digit(c)
    ||| is_ascii_lower(c)
    ||| ('A' <= c && c <= 'Z')
}

pub open spec fn is_slug_char(c: char) -> bool {
    is_ascii_lower(c) || is_ascii_digit(c) || c == '-'
}

pub open spec fn count_char(s: Seq<char>, c: char) -> nat
    decreases s.len(),
{
    if s.len() == 0 {
        0
    } else {
        count_char(s.drop_last(), c) + if s.last() == c { 1nat } else { 0nat }
    }
}

/// Largest score a team can be given in one match.
pub const MAX_SCORE: u8 = 99;

/// Goals scored by one side of a match.
#[derive(Debug, Clone, Copy, PartialEq, Eq, Structural)]
pub struct Score {
    pub value: u8,
}

impl Score {
    /// What every value of this type satisfies.
    pub open spec fn wf(&self) -> bool {
        self.value <= MAX_SCORE
    }

    pub fn new(value: u8) -> (r: Result<Score, AppError>)
        ensures
            r is Ok <==> value <= MAX_SCORE,
            r matches Ok(s) ==> s.value == value,
            r matches Ok(s) ==> s.wf(),
            r matches Err(e) ==> is_validation(e, "score must be between 0 and 99"@),
    {
        if value > MAX_SCORE {
            return Err(AppError::validation("score must be between 0 and 99"));
        }
        Ok(Score { value })
    }

    pub fn value(&self) -> (r: u8)
        ensures
            r == self.value,
    {
        self.value
    }
}

/// A text that is not blank, kept without its surrounding white space.
#[derive(Debug, Clone)]
pub struct NonEmptyString {
    pub value: String,
}

pub open spec fn must_not_be_empty(field: Seq<char>) -> Seq<char> {
    field + " must not be empty"@
}

/// The message that refuses a name, if any: blank, or longer than `max`
/// characters once trimmed.
pub open spec fn bounded_name_error(v: Seq<char>, field: Seq<char>, max: int, too_long: Seq<char>) -> Option<
    Seq<char>,
> {
    if trimmed(v).len() == 0 {
        Some(must_not_be_empty(field))
    } else if trimmed(v).len() > max {
        Some(too_long)
    } else {
        None
    }
}

impl NonEmptyString {
    /// What every value of this type satisfies.
    pub open spec fn wf(&self) -> bool {
        self.value@.len() > 0
    }

    pub fn new(value: String, field: &str) -> (r: Result<NonEmptyString, AppError>)
        ensures
            r is Ok <==> trimmed(value@).len() > 0,
            r matches Ok(s) ==> s.value@ == trimmed(value@),
            r matches Ok(s) ==> s.wf(),
            r matches Err(e) ==> is_validation(e, must_not_be_empty(field@)),
    {
        let t = trim(value.as_str());
        if t.unicode_len() == 0 {
            return Err(AppError::Validation(String::from_str(field).concat(" must not be empty")));
        }
        Ok(NonEmptyString { value: t })
    }

    pub fn as_str(&self) -> (r: &str)
        ensures
            r@ == self.value@,
    {
        self.value.as_str()
    }
}

/// A plausible e-mail address: one `@` with text on both sides, no white
/// space, and a dot inside the part after the `@`.
pub open spec fn email_shape(t: Seq<char>) -> bool {
    &&& count_char(t, '@') == 1
    &&& exists|k: int, d: int|
        0 < k && k + 1 < d && d + 1 < t.len() && #[trigger] t[k] == '@' && #[trigger] t[d] == '.'
    &&& forall|i: int| 0 <= i < t.len() ==> !is_ws(#[trigger] t[i])
}

#[derive(Debug, Clone)]
pub struct Email {
    pub value: String,
}

proof fn lemma_count_char_take(s: Seq<char>, c: char, i: int)
    requires
        0 <= i < s.len(),
    ensures
        count_char(s.take(i + 1), c) == count_char(s.take(i), c) + if s[i] == c {
            1nat
        } else {
            0nat
        },
{
    assert(s.take(i + 1).drop_last() =~= s.take(i));
}

impl Email {
    /// What every value of this type satisfies.
    pub open spec fn wf(&self) -> bool {
        email_shape(self.value@)
    }

    pub fn new(value: String) -> (r: Result<Email, AppError>)
        ensures
            r is Ok <==> email_shape(trimmed(value@)),
            r matches Ok(s) ==> s.value@ == trimmed(value@),
            r matches Ok(s) ==> s.wf(),
            r matches Err(e) ==> is_validation(e, "email must be a valid address"@),
    {
        let t = trim(value.as_str());
        let n = t.unicode_len();
        let ghost ts = t@;
        let mut ats: usize = 0;
        let mut at: usize = 0;
        let mut has_ws = false;
        let mut i: usize = 0;
        while i < n
            invariant
                n == ts.len(),
                ts == t@,
                i <= n,
                ats == count_char(ts.take(i as int), '@'),
                ats <= i,
                ats > 0 ==> at < i && ts[at as int] == '@',
                ats == 0 ==> forall|j: int| 0 <= j < i ==> ts[j] != '@',
                ats == 1 ==> forall|j: int| 0 <= j < i && j != at ==> ts[j] != '@',
                has_ws == exists|j: int| 0 <= j < i && is_ws(#[trigger] ts[j]),
            decreases n - i,
        {
            let c = t.as_str().get_char(i);
            proof {
                lemma_count_char_take(ts, '@', i as int);
            }
            if c == '@' {
                if ats == 0 {
                    at = i;
                }
                ats = ats + 1;
            }
            if char_is_ws(c) {
                has_ws = true;
            }
            i = i + 1;
        }
        assert(ts.take(n as int) =~= ts);
        let mut ok = ats == 1 && !has_ws && at > 0 && at + 1 < n;
        if ok {
            // look for a dot strictly inside the domain part
            let mut found = false;
            let mut d: usize = at + 2;
            while d < n - 1
                invariant
                    n == ts.len(),
                    ts == t@,
                    at + 2 <= d,
                    at + 1 < n,
                    found == exists|j: int| at + 2 <= j < d && j + 1 < n && ts[j] == '.',
                decreases n - d,
            {
                if t.as_str().get_char(d) == '.' {
                    found = true;
                }
                d = d + 1;
            }
            ok = found;
            proof {
                if found {
                    let j = choose|j: int| at + 2 <= j < d && j + 1 < n && ts[j] == '.';
                    assert(ts[at as int] == '@' && ts[j] == '.');
                    assert(count_char(ts, '@') == 1);
                    assert(forall|i: int| 0 <= i < ts.len() ==> !is_ws(#[trigger] ts[i]));
                    assert(email_shape(ts));
                } else {
                    assert forall|k: int, dd: int|
                        0 < k && k + 1 < dd && dd + 1 < ts.len() && #[trigger] ts[k] == '@'
                            && #[trigger] ts[dd] == '.' implies false by {
                        assert(k == at);
                    }
                }
            }
        } else {
            proof {
                if ats == 1 && !has_ws {
                    assert forall|k: int, dd: int|
                        0 < k && k + 1 < dd && dd + 1 < ts.len() && #[trigger] ts[k] == '@'
                            && #[trigger] ts[dd] == '.' implies false by {
                        assert(k == at);
                    }
                }
                if has_ws {
                    let j = choose|j: int| 0 <= j < n && is_ws(#[trigger] ts[j]);
                    assert(!(forall|i: int| 0 <= i < ts.len() ==> !is_ws(#[trigger] ts[i])));
                }
            }
        }
        if !ok {
            return Err(AppError::validation("email must be a valid address"));
        }
        Ok(Email { value: t })
    }

    pub fn as_str(&self) -> (r: &str)
        ensures
            r@ == self.value@,
    {
        self.value.as_str()
    }
}

pub fn char_is_ascii_alnum(c: char) -> (r: bool)
    ensures
        r == is_ascii_alnum(c),
{
    ('0' <= c && c <= '9') || ('a' <= c && c <= 'z') || ('A' <= c && c <= 'Z')
}

/// Whether every character of `s` is an ASCII letter or digit.
pub fn all_ascii_alnum(s: &str) -> (r: bool)
    ensures
        r == forall|i: int| 0 <= i < s@.len() ==> is_ascii_alnum(#[trigger] s@[i]),
{
    let n = s.unicode_len();
    let mut i: usize = 0;
    while i < n
        invariant
            n == s@.len(),
            i <= n,
            forall|j: int| 0 <= j < i ==> is_ascii_alnum(#[trigger] s@[j]),
        decreases n - i,
    {
        if !char_is_ascii_alnum(s.get_char(i)) {
            assert(!is_ascii_alnum(s@[i as int]));
            return false;
        }
        i = i + 1;
    }
    true
}

/// Whether every character of `s` is a lowercase ASCII letter, a digit or `-`.
pub fn all_slug_chars(s: &str) -> (r: bool)
    ensures
        r == forall|i: int| 0 <= i < s@.len() ==> is_slug_char(#[trigger] s@[i]),
{
    let n = s.unicode_len();
    let mut i: usize = 0;
    while i < n
        invariant
            n == s@.len(),
            i <= n,
            forall|j: int| 0 <= j < i ==> is_slug_char(#[trigger] s@[j]),
        decreases n - i,
    {
        let c = s.get_char(i);
        if !(('a' <= c && c <= 'z') || ('0' <= c && c <= '9') || c == '-') {
            assert(!is_slug_char(s@[i as int]));
            return false;
        }
        i = i + 1;
    }
    true
}

/// An invitation code: 6 to 32 ASCII letters or digits.
pub open spec fn invite_code_shape(t: Seq<char>) -> bool {
    &&& 6 <= t.len() <= 32
    &&& forall|i: int| 0 <= i < t.len() ==> is_ascii_alnum(#[trigger] t[i])
}

#[derive(Debug, Clone)]
pub struct InviteCode {
    pub value: String,
}

impl InviteCode {
    /// What every value of this type satisfies.
    pub open spec fn wf(&self) -> bool {
        invite_code_shape(self.value@)
    }

    pub fn new(value: &str) -> (r: Result<InviteCode, AppError>)
        ensures
            r is Ok <==> invite_code_shape(trimmed(value@)),
            r matches Ok(c) ==> c.value@ == trimmed(value@),
            r matches Ok(c) ==> c.wf(),
            r matches Err(e) ==> is_validation(
                e,
                "invite code must be 6 to 32 letters or digits"@,
            ),
    {
        let t = trim(value);
        let n = t.unicode_len();
        if n < 6 || n > 32 || !all_ascii_alnum(t.as_str()) {
            return Err(AppError::validation("invite code must be 6 to 32 letters or digits"));
        }
        Ok(InviteCode { value: t })
    }

    pub fn as_str(&self) -> (r: &str)
        ensures
            r@ == self.value@,
    {
        self.value.as_str()
    }
}

/// A URL slug: 1 to 80 lowercase ASCII letters, digits or dashes, neither
/// starting nor ending with a dash.
pub open spec fn slug_shape(t: Seq<char>) -> bool {
    &&& 1 <= t.len() <= 80
    &&& forall|i: int| 0 <= i < t.len() ==> is_slug_char(#[trigger] t[i])
    &&& t[0] != '-'
    &&& t[t.len() - 1] != '-'
}

#[derive(Debug, Clone)]
pub struct Slug {
    pub value: String,
}

impl Slug {
    /// What every value of this type satisfies.
    pub open spec fn wf(&self) -> bool {
        slug_shape(self.value@)
    }

    pub fn new(value: String) -> (r: Result<Slug, AppError>)
        ensures
            r is Ok <==> slug_shape(trimmed(value@)),
            r matches Ok(c) ==> c.value@ == trimmed(value@),
            r matches Ok(c) ==> c.wf(),
            r matches Err(e) ==> is_validation(
                e,
                "slug must be 1 to 80 lowercase letters, digits or inner dashes"@,
            ),
    {
        let t = trim(value.as_str());
        let n = t.unicode_len();
        if n < 1 || n > 80 || !all_slug_chars(t.as_str()) || t.as_str().get_char(0) == '-'
            || t.as_str().get_char(n - 1) == '-' {
            return Err(
                AppError::validation(
                    "slug must be 1 to 80 lowercase letters, digits or inner dashes",
                ),
            );
        }
        Ok(Slug { value: t })
    }

    pub fn as_str(&self) -> (r: &str)
        ensures
            r@ == self.value@,
    {
        self.value.as_str()
    }
}

/// A team code: 2 to 8 ASCII letters or digits.
pub open spec fn team_code_shape(t: Seq<char>) -> bool {
    &&& 2 <= t.len() <= 8
    &&& forall|i: int| 0 <= i < t.len() ==> is_ascii_alnum(#[trigger] t[i])
}

#[derive(Debug, Clone)]
pub struct TeamCode {
    pub value: String,
}

impl TeamCode {
    /// What every value of this type satisfies.
    pub open spec fn wf(&self) -> bool {
        team_code_shape(self.value@)
    }

    pub fn new(value: String) -> (r: Result<TeamCode, AppError>)
        ensures
            r is Ok <==> team_code_shape(trimmed(value@)),
            r matches Ok(c) ==> c.value@ == trimmed(value@),
            r matches Ok(c) ==> c.wf(),
            r matches Err(e) ==> is_validation(
                e,
                "team code must be 2 to 8 letters or digits"@,
            ),
    {
        let t = trim(value.as_str());
        let n = t.unicode_len();
        if n < 2 || n > 8 || !all_ascii_alnum(t.as_str()) {
            return Err(AppError::validation("team code must be 2 to 8 letters or digits"));
        }
        Ok(TeamCode { value: t })
    }

    pub fn as_str(&self) -> (r: &str)
        ensures
            r@ == self.value@,
    {
        self.value.as_str()
    }
}

pub open spec fn digit_value(c: char) -> int {
    (c as int) - ('0' as int)
}

pub open spec fn is_leap_year(y: int) -> bool {
    (y % 4 == 0 && y % 100 != 0) || y % 400 == 0
}

pub open spec fn days_in_month(y: int, m: int) -> int {
    if m == 2 {
        if is_leap_year(y) {
            29
        } else {
            28
        }
    } else if m == 4 || m == 6 || m == 9 || m == 11 {
        30
    } else {
        31
    }
}

/// A calendar date written `YYYY-MM-DD` that exists in the Gregorian calendar.
pub open spec fn calendar_date_shape(t: Seq<char>) -> bool {
    &&& t.len() == 10
    &&& t[4] == '-'
    &&& t[7] == '-'
    &&& forall|i: int| 0 <= i < 10 && i != 4 && i != 7 ==> is_ascii_digit(#[trigger] t[i])
    &&& {
        let y = digit_value(t[0]) * 1000 + digit_value(t[1]) * 100 + digit_value(t[2]) * 10
            + digit_value(t[3]);
        let m = digit_value(t[5]) * 10 + digit_value(t[6]);
        let d = digit_value(t[8]) * 10 + digit_value(t[9]);
        1 <= m <= 12 && 1 <= d <= days_in_month(y, m)
    }
}

fn digit_at(s: &str, i: usize) -> (r: u32)
    requires
        i < s@.len(),
        is_ascii_digit(s@[i as int]),
    ensures
        r == digit_value(s@[i as int]),
        r <= 9,
{
    let c = s.get_char(i);
    (c as u32) - ('0' as u32)
}

#[derive(Debug, Clone)]
pub struct CalendarDate {
    pub value: String,
}

impl CalendarDate {
    /// What every value of this type satisfies.
    pub open spec fn wf(&self) -> bool {
        calendar_date_shape(self.value@)
    }

    pub fn new(value: String) -> (r: Result<CalendarDate, AppError>)
        ensures
            r is Ok <==> calendar_date_shape(trimmed(value@)),
            r matches Ok(c) ==> c.value@ == trimmed(value@),
            r matches Ok(c) ==> c.wf(),
            r matches Err(e) ==> is_validation(e, "date must be a valid YYYY-MM-DD date"@),
    {
        let t = trim(value.as_str());
        let s = t.as_str();
        let n = s.unicode_len();
        if n != 10 || s.get_char(4) != '-' || s.get_char(7) != '-' {
            return Err(AppError::validation("date must be a valid YYYY-MM-DD date"));
        }
        let mut i: usize = 0;
        while i < 10
            invariant
                n == 10,
                s@ == t@,
                t@ == trimmed(value@),
                s@.len() == 10,
                i <= 10,
                forall|j: int| 0 <= j < i && j != 4 && j != 7 ==> is_ascii_digit(#[trigger] s@[j]),
            decreases 10 - i,
        {
            if i != 4 && i != 7 {
                let c = s.get_char(i);
                if !('0' <= c && c <= '9') {
                    assert(!is_ascii_digit(s@[i as int]));
                    return Err(AppError::validation("date must be a valid YYYY-MM-DD date"));
                }
            }
            i = i + 1;
        }
        let y = digit_at(s, 0) * 1000 + digit_at(s, 1) * 100 + digit_at(s, 2) * 10 + digit_at(
            s,
            3,
        );
        let m = digit_at(s, 5) * 10 + digit_at(s, 6);
        let d = digit_at(s, 8) * 10 + digit_at(s, 9);
        let leap = (y % 4 == 0 && y % 100 != 0) || y % 400 == 0;
        assert(leap == is_leap_year(y as int));
        let dim: u32 = if m == 2 {
            if leap {
                29
            } else {
                28
            }
        } else if m == 4 || m == 6 || m == 9 || m == 11 {
            30
        } else {
            31
        };
        assert(dim == days_in_month(y as int, m as int));
        if m < 1 || m > 12 || d < 1 || d > dim {
            assert(!calendar_date_shape(s@));
            return Err(AppError::validation("date must be a valid YYYY-MM-DD date"));
        }
        Ok(CalendarDate { value: t })
    }

    pub fn as_str(&self) -> (r: &str)
        ensures
            r@ == self.value@,
    {
        self.value.as_str()
    }
}

/// An identifier given by the client: any text that is not blank.
#[derive(Debug, Clone)]
pub struct DomainId {
    pub value: String,
}

impl DomainId {
    /// What every value of this type satisfies.
    pub open spec fn wf(&self) -> bool {
        self.value@.len() > 0
    }

    pub fn new(value: String) -> (r: Result<DomainId, AppError>)
        ensures
            r is Ok <==> trimmed(value@).len() > 0,
            r matches Ok(c) ==> c.value@ == trimmed(value@),
            r matches Ok(c) ==> c.wf(),
            r matches Err(e) ==> is_validation(e, "id must not be empty"@),
    {
        let t = trim(value.as_str());
        if t.unicode_len() == 0 {
            return Err(AppError::validation("id must not be empty"));
        }
        Ok(DomainId { value: t })
    }

    pub fn as_str(&self) -> (r: &str)
        ensures
            r@ == self.value@,
    {
        self.value.as_str()
    }
}

/// A UTC timestamp as the clock writes it.
#[derive(Debug, Clone)]
pub struct UtcDateTime {
    pub value: String,
}

impl UtcDateTime {
    pub fn as_str(&self) -> (r: &str)
        ensures
            r@ == self.value@,
    {
        self.value.as_str()
    }
}

} // verus!

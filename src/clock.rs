//! Times of day typed as `H:M:S` text.
use vstd::prelude::*;
use crate::error::{Error, ErrorView};

verus! {

#[verifier::external_type_specification]
#[verifier::external_body]
pub struct ExNaiveTime(chrono::NaiveTime);

/// Relies on `chrono::NaiveTime::from_hms_opt`: a time exists exactly for an
/// hour below 24, a minute below 60 and a second below 60.
pub assume_specification[ chrono::NaiveTime::from_hms_opt ](hour: u32, min: u32, sec: u32) -> (r:
    Option<chrono::NaiveTime>)
    ensures
        r is Some <==> (hour < 24 && min < 60 && sec < 60),
;

/// The `:`-separated pieces of a text, empty ones included; there is always
/// at least one.
pub open spec fn pieces(s: Seq<char>) -> Seq<Seq<char>>
    decreases s.len(),
{
    if s.len() == 0 {
        seq![Seq::empty()]
    } else {
        let p = pieces(s.drop_last());
        if s.last() == ':' {
            p.push(Seq::empty())
        } else {
            p.update(p.len() - 1, p.last().push(s.last()))
        }
    }
}

pub open spec fn str_views(v: Seq<&str>) -> Seq<Seq<char>> {
    v.map_values(|p: &str| p@)
}

pub fn split_colons(s: &str) -> (r: Vec<&str>)
    ensures
        str_views(r@) == pieces(s@),
{
    let n = s.unicode_len();
    let mut r: Vec<&str> = Vec::new();
    let mut start: usize = 0;
    let mut i: usize = 0;
    assert(s@.subrange(0, 0) =~= Seq::<char>::empty());
    assert(str_views(r@).push(s@.subrange(0, 0)) =~= seq![Seq::<char>::empty()]);
    while i < n
        invariant
            n == s@.len(),
            start <= i <= n,
            str_views(r@).push(s@.subrange(start as int, i as int)) == pieces(s@.subrange(0, i as int)),
        decreases n - i,
    {
        let c = s.get_char(i);
        let ghost prefix = s@.subrange(0, i + 1);
        let ghost before = str_views(r@);
        assert(prefix.drop_last() =~= s@.subrange(0, i as int));
        assert(prefix.last() == c);
        if c == ':' {
            let ghost old_start = start;
            r.push(s.substring_char(start, i));
            start = i + 1;
            assert(str_views(r@) =~= before.push(s@.subrange(old_start as int, i as int)));
            assert(s@.subrange(start as int, i + 1) =~= Seq::<char>::empty());
        } else {
            assert(s@.subrange(start as int, i as int).push(c) =~= s@.subrange(start as int, i + 1));
            assert(before.push(s@.subrange(start as int, i as int)).update(
                before.len() as int,
                s@.subrange(start as int, i + 1),
            ) =~= before.push(s@.subrange(start as int, i + 1)));
        }
        i = i + 1;
    }
    assert(s@.subrange(0, n as int) =~= s@);
    r.push(s.substring_char(start, n));
    assert(str_views(r@) =~= str_views(r@.drop_last()).push(s@.subrange(start as int, n as int)));
    r
}


pub open spec fn is_digit(c: char) -> bool {
    '0' <= c <= '9'
}

pub open spec fn digit_value(c: char) -> nat {
    (c as u32 - '0' as u32) as nat
}

/// The number that a run of decimal digits writes.
pub open spec fn digits_value(s: Seq<char>) -> nat
    decreases s.len(),
{
    if s.len() == 0 {
        0
    } else {
        digits_value(s.drop_last()) * 10 + digit_value(s.last())
    }
}

/// A text without its one optional leading `+`.
pub open spec fn unsigned_part(s: Seq<char>) -> Seq<char> {
    if s.len() > 0 && s[0] == '+' {
        s.drop_first()
    } else {
        s
    }
}

/// The `u32` that a text writes in decimal, with an optional leading `+`:
/// at least one digit, nothing else, and no more than `u32::MAX`.
pub open spec fn decimal_u32(s: Seq<char>) -> Option<u32> {
    let d = unsigned_part(s);
    if d.len() > 0 && (forall|i: int| 0 <= i < d.len() ==> is_digit(d[i])) && digits_value(d)
        <= u32::MAX {
        Some(digits_value(d) as u32)
    } else {
        None
    }
}

pub fn parse_decimal_u32(s: &str) -> (r: Option<u32>)
    ensures
        r == decimal_u32(s@),
{
    let n = s.unicode_len();
    let mut first: usize = 0;
    if n > 0 && s.get_char(0) == '+' {
        first = 1;
    }
    let ghost d = unsigned_part(s@);
    assert(d =~= s@.subrange(first as int, n as int));
    if first == n {
        return None;
    }
    let mut value: u64 = 0;
    let mut too_big = false;
    let mut i: usize = first;
    assert(d.subrange(0, 0) =~= Seq::<char>::empty());
    while i < n
        invariant
            n == s@.len(),
            first <= i <= n,
            d == s@.subrange(first as int, n as int),
            d == unsigned_part(s@),
            forall|j: int| 0 <= j < i - first ==> is_digit(d[j]),
            too_big ==> digits_value(d.subrange(0, i - first)) > u32::MAX,
            !too_big ==> value == digits_value(d.subrange(0, i - first)) && value <= u32::MAX,
        decreases n - i,
    {
        let c = s.get_char(i);
        assert(d[i - first] == c);
        if !('0' <= c && c <= '9') {
            assert(!is_digit(d[i - first]));
            return None;
        }
        let ghost k = i - first;
        assert(d.subrange(0, k + 1).drop_last() =~= d.subrange(0, k));
        assert(d.subrange(0, k + 1).last() == c);
        if !too_big {
            value = value * 10 + (c as u64 - '0' as u64);
            if value > 4294967295 {
                too_big = true;
            }
        }
        i = i + 1;
    }
    assert(d.subrange(0, n - first) =~= d);
    if too_big {
        None
    } else {
        Some(value as u32)
    }
}

/// Piece `k` of the text read as a `u32`; a missing piece reads as nothing.
pub open spec fn field_value(s: Seq<char>, k: int) -> Option<u32> {
    if k < pieces(s).len() {
        decimal_u32(pieces(s)[k])
    } else {
        None
    }
}

pub open spec fn parse_failure(role: Seq<char>, unit: Seq<char>) -> ErrorView {
    ErrorView::Client("Failed to parse "@ + role + " "@ + unit)
}

/// Hour, minute and second of an `H:M:S` text (pieces past the third are
/// ignored), or the first one that does not read as a number. `role` names
/// the time in the error.
pub open spec fn clock_fields(s: Seq<char>, role: Seq<char>) -> Result<(u32, u32, u32), ErrorView> {
    match field_value(s, 0) {
        None => Err(parse_failure(role, "hour"@)),
        Some(h) => match field_value(s, 1) {
            None => Err(parse_failure(role, "minute"@)),
            Some(m) => match field_value(s, 2) {
                None => Err(parse_failure(role, "second"@)),
                Some(sec) => Ok((h, m, sec)),
            },
        },
    }
}

fn failure(prefix: &str, role: &str, unit: &str) -> (e: Error)
    ensures
        e@ == ErrorView::Client(prefix@ + role@ + " "@ + unit@),
{
    let mut m = String::from_str(prefix);
    m.append(role);
    m.append(" ");
    m.append(unit);
    Error::Client(m)
}

fn field(pieces_of: &Vec<&str>, k: usize) -> (r: Option<u32>)
    ensures
        r == (if k < pieces_of@.len() { decimal_u32(pieces_of@[k as int]@) } else { None }),
{
    if k < pieces_of.len() {
        parse_decimal_u32(pieces_of[k])
    } else {
        None
    }
}

pub fn parse_clock_fields(text: &str, role: &str) -> (r: Result<(u32, u32, u32), Error>)
    ensures
        match clock_fields(text@, role@) {
            Ok(f) => r matches Ok(g) && g == f,
            Err(e) => r matches Err(x) && x@ == e,
        },
{
    let p = split_colons(text);
    assert(forall|k: int| 0 <= k < p@.len() ==> p@[k]@ == pieces(text@)[k]) by {
        assert forall|k: int| 0 <= k < p@.len() implies p@[k]@ == pieces(text@)[k] by {
            assert(str_views(p@)[k] == p@[k]@);
        }
    }
    let h = match field(&p, 0) {
        Some(h) => h,
        None => {
            return Err(failure("Failed to parse ", role, "hour"));
        },
    };
    let m = match field(&p, 1) {
        Some(m) => m,
        None => {
            return Err(failure("Failed to parse ", role, "minute"));
        },
    };
    let s = match field(&p, 2) {
        Some(s) => s,
        None => {
            return Err(failure("Failed to parse ", role, "second"));
        },
    };
    Ok((h, m, s))
}

/// What an `H:M:S` text gives as a time of day.
pub open spec fn time_of_day_result(s: Seq<char>, role: Seq<char>) -> Result<(u32, u32, u32), ErrorView> {
    match clock_fields(s, role) {
        Ok((h, m, sec)) => if h < 24 && m < 60 && sec < 60 {
            Ok((h, m, sec))
        } else {
            Err(ErrorView::Client("Failed to create "@ + role))
        },
        Err(e) => Err(e),
    }
}

/// A time of day: an hour below 24, a minute and a second below 60.
#[derive(Debug)]
pub struct TimeOfDay {
    hour: u32,
    minute: u32,
    second: u32,
}

impl View for TimeOfDay {
    type V = (u32, u32, u32);

    closed spec fn view(&self) -> (u32, u32, u32) {
        (self.hour, self.minute, self.second)
    }
}

impl TimeOfDay {
    #[verifier::type_invariant]
    spec fn in_range(self) -> bool {
        self.hour < 24 && self.minute < 60 && self.second < 60
    }

    pub fn hour(&self) -> (r: u32)
        ensures
            r == self@.0,
            r < 24,
    {
        proof {
            use_type_invariant(self);
        }
        self.hour
    }

    pub fn minute(&self) -> (r: u32)
        ensures
            r == self@.1,
            r < 60,
    {
        proof {
            use_type_invariant(self);
        }
        self.minute
    }

    pub fn second(&self) -> (r: u32)
        ensures
            r == self@.2,
            r < 60,
    {
        proof {
            use_type_invariant(self);
        }
        self.second
    }

    /// The same time as chrono represents it.
    pub fn to_naive_time(&self) -> chrono::NaiveTime {
        proof {
            use_type_invariant(self);
        }
        chrono::NaiveTime::from_hms_opt(self.hour, self.minute, self.second).unwrap()
    }
}

/// Reads an `H:M:S` text as a time of day, naming it `role` in errors.
pub fn parse_time_of_day(text: &str, role: &str) -> (r: Result<TimeOfDay, Error>)
    ensures
        match time_of_day_result(text@, role@) {
            Ok(f) => r matches Ok(t) && t@ == f,
            Err(e) => r matches Err(x) && x@ == e,
        },
{
    let (h, m, s) = parse_clock_fields(text, role)?;
    match chrono::NaiveTime::from_hms_opt(h, m, s) {
        Some(_) => Ok(TimeOfDay { hour: h, minute: m, second: s }),
        None => {
            let mut msg = String::from_str("Failed to create ");
            msg.append(role);
            Err(Error::Client(msg))
        },
    }
}

} // verus!

use vstd::prelude::*;

verus! {

/// A date and time as the database stores it: whole seconds since the Unix
/// epoch, and the nanoseconds past that second.
#[derive(Clone, Copy, Debug, PartialEq, Eq, Structural)]
pub struct DbTime {
    pub secs: i64,
    pub nanos: u32,
}

impl DbTime {
    /// `self` is a later instant than `other`.
    pub open spec fn is_after(self, other: DbTime) -> bool {
        self.secs > other.secs || (self.secs == other.secs && self.nanos > other.nanos)
    }

    /// Returns whether `self` is a later instant than `other`.
    pub fn after(&self, other: &DbTime) -> (b: bool)
        ensures
            b == self.is_after(*other),
    {
        self.secs > other.secs || (self.secs == other.secs && self.nanos > other.nanos)
    }
}

/// A poll no longer takes part in the service's life once its status reads
/// `closed`, or once `now` lies past its closing time.
pub open spec fn poll_closed(status: Seq<char>, closes_at: Option<DbTime>, now: DbTime) -> bool {
    status == "closed"@ || closing_passed(closes_at, now)
}

/// `now` lies past the closing time, when there is one.
pub open spec fn closing_passed(closes_at: Option<DbTime>, now: DbTime) -> bool {
    closes_at matches Some(t) && now.is_after(t)
}

/// Returns whether `now` lies past the closing time, when there is one.
pub fn has_closing_passed(closes_at: Option<DbTime>, now: DbTime) -> (b: bool)
    ensures
        b == closing_passed(closes_at, now),
{
    match closes_at {
        Some(t) => now.after(&t),
        None => false,
    }
}

/// Time only closes polls: a poll closed at `now` is still closed at any later
/// time `later`.
pub proof fn law_closed_poll_stays_closed(status: Seq<char>, closes_at: Option<DbTime>, now: DbTime, later: DbTime)
    requires
        poll_closed(status, closes_at, now),
        later == now || later.is_after(now),
    ensures
        poll_closed(status, closes_at, later),
{
}

/// Returns whether a poll with this status and closing time is closed at `now`.
pub fn is_poll_closed(status: &String, closes_at: Option<DbTime>, now: DbTime) -> (b: bool)
    ensures
        b == poll_closed(status@, closes_at, now),
{
    let closed = String::from_str("closed");
    if *status == closed {
        true
    } else {
        has_closing_passed(closes_at, now)
    }
}

/// The text that chrono's `NaiveDateTime` displays for the UTC date and time
/// `secs` seconds and `nanos` nanoseconds after the Unix epoch, such as
/// `2024-05-01 12:00:00`; `None` where chrono holds no such date and time.
pub uninterp spec fn utc_datetime_text(secs: i64, nanos: u32) -> Option<Seq<char>>;

/// The decimal digit `d` (0 to 9) as a character.
pub open spec fn digit_char(d: int) -> char {
    if d == 0 {
        '0'
    } else if d == 1 {
        '1'
    } else if d == 2 {
        '2'
    } else if d == 3 {
        '3'
    } else if d == 4 {
        '4'
    } else if d == 5 {
        '5'
    } else if d == 6 {
        '6'
    } else if d == 7 {
        '7'
    } else if d == 8 {
        '8'
    } else {
        '9'
    }
}

/// The value of a decimal digit character; other characters count as 0.
pub open spec fn digit_value(c: char) -> int {
    if c == '1' {
        1
    } else if c == '2' {
        2
    } else if c == '3' {
        3
    } else if c == '4' {
        4
    } else if c == '5' {
        5
    } else if c == '6' {
        6
    } else if c == '7' {
        7
    } else if c == '8' {
        8
    } else if c == '9' {
        9
    } else {
        0
    }
}

/// The number that a text of decimal digits reads as.
pub open spec fn decimal_value(digits: Seq<char>) -> int
    decreases digits.len(),
{
    if digits.len() == 0 {
        0
    } else {
        decimal_value(digits.drop_last()) * 10 + digit_value(digits.last())
    }
}

/// `v` written with exactly `width` decimal digits, padded with leading zeros.
pub open spec fn zero_padded(v: int, width: nat) -> Seq<char>
    decreases width,
{
    if width == 0 {
        Seq::empty()
    } else {
        zero_padded(v / 10, (width - 1) as nat).push(digit_char(v % 10))
    }
}

/// The fraction of a second as chrono shows it: nothing for a whole second,
/// else a point and 3, 6 or 9 digits, the fewest that hold it exactly.
pub open spec fn fraction_text(nanos: int) -> Seq<char> {
    if nanos == 0 {
        Seq::empty()
    } else if nanos % 1_000_000 == 0 {
        seq!['.'] + zero_padded(nanos / 1_000_000, 3)
    } else if nanos % 1_000 == 0 {
        seq!['.'] + zero_padded(nanos / 1_000, 6)
    } else {
        seq!['.'] + zero_padded(nanos, 9)
    }
}

/// The time of day, `HH:MM:SS` and the fraction, of the instant `secs` seconds
/// and `nanos` nanoseconds after the epoch, in UTC. Nanoseconds from one
/// billion on stand for a leap second, shown as second 60.
pub open spec fn time_of_day_text(secs: i64, nanos: u32) -> Seq<char> {
    let of_day = (secs as int) % 86400;
    let leap = nanos >= 1_000_000_000;
    let second = of_day % 60 + if leap {
        1int
    } else {
        0int
    };
    let fraction = if leap {
        nanos - 1_000_000_000
    } else {
        nanos as int
    };
    zero_padded(of_day / 3600, 2) + seq![':'] + zero_padded(of_day % 3600 / 60, 2) + seq![':']
        + zero_padded(second, 2) + fraction_text(fraction)
}

/// `text` ends with a space and the time of day of the instant.
pub open spec fn ends_with_time_of_day(text: Seq<char>, secs: i64, nanos: u32) -> bool {
    let tail = seq![' '] + time_of_day_text(secs, nanos);
    tail.len() <= text.len() && text.subrange(text.len() - tail.len(), text.len() as int) == tail
}

/// chrono places no date and time at these nanoseconds: two billion and more,
/// or a leap second anywhere but at the end of a minute.
pub open spec fn invalid_nanos(secs: i64, nanos: u32) -> bool {
    nanos >= 2_000_000_000 || (nanos >= 1_000_000_000 && (secs as int) % 60 != 59)
}

/// Renders a stored date and time the way the service shows it to clients.
///
/// Trusted: calls `chrono::DateTime::from_timestamp`, takes its naive UTC
/// value and formats it with `Display`. The contract names that text and states
/// what chrono's source shows of it in a few lines: it ends with a space and the
/// time of day (`NaiveTime`'s `Display`, with `hms` from the seconds of the day
/// and the fraction in 3, 6 or 9 digits), and invalid nanoseconds give no text
/// (`NaiveTime::from_num_seconds_from_midnight_opt`). The date before the space
/// is a calendar computation and is left to the name.
#[verifier::external_body]
pub(crate) fn datetime_text(t: DbTime) -> (text: Option<String>)
    ensures
        match text {
            Some(s) => utc_datetime_text(t.secs, t.nanos) == Some(s@),
            None => utc_datetime_text(t.secs, t.nanos) is None,
        },
        text matches Some(s) ==> ends_with_time_of_day(s@, t.secs, t.nanos),
        invalid_nanos(t.secs, t.nanos) ==> text is None,
{
    match chrono::DateTime::from_timestamp(t.secs, t.nanos) {
        Some(d) => Some(d.naive_utc().to_string()),
        None => None,
    }
}

/// The text shown for an optional closing time.
pub open spec fn closing_text(closes_at: Option<DbTime>) -> Option<Seq<char>> {
    match closes_at {
        Some(t) => utc_datetime_text(t.secs, t.nanos),
        None => None,
    }
}

/// Renders an optional closing time; a time chrono cannot place renders as none.
pub fn closing_time_text(closes_at: Option<DbTime>) -> (text: Option<String>)
    ensures
        match text {
            Some(s) => closing_text(closes_at) == Some(s@),
            None => closing_text(closes_at) is None,
        },
        text matches Some(s) ==> (closes_at matches Some(t) && ends_with_time_of_day(s@, t.secs, t.nanos)),
        closes_at matches Some(t) && invalid_nanos(t.secs, t.nanos) ==> text is None,
{
    match closes_at {
        Some(t) => datetime_text(t),
        None => None,
    }
}

proof fn lemma_two_digits(v: int)
    requires
        0 <= v < 100,
    ensures
        zero_padded(v, 2).len() == 2,
        decimal_value(zero_padded(v, 2)) == v,
{
    let d = zero_padded(v, 2);
    let hi = zero_padded(v / 10, 1);
    assert(zero_padded(v / 10 / 10, 0) =~= Seq::<char>::empty());
    assert(hi =~= seq![digit_char(v / 10 % 10)]);
    assert(d =~= seq![digit_char(v / 10 % 10), digit_char(v % 10)]);
    assert(d.drop_last() =~= seq![digit_char(v / 10 % 10)]);
    assert(d.drop_last().drop_last() =~= Seq::<char>::empty());
    assert(digit_value(digit_char(v / 10 % 10)) == v / 10 % 10);
    assert(digit_value(digit_char(v % 10)) == v % 10);
    assert(decimal_value(d.drop_last().drop_last()) == 0);
    assert(decimal_value(d.drop_last()) == v / 10 % 10);
    assert(v / 10 % 10 == v / 10);
    assert(decimal_value(d) == (v / 10) * 10 + v % 10);
}

/// The time of day shown for an instant is that instant's time of day: its
/// hour, minute and second fields stand at fixed places between colons, lie
/// within a day, an hour and a minute, and read back as exactly the seconds
/// since midnight (UTC); a whole second shows no fraction.
pub proof fn law_shown_time_is_time_of_day(secs: i64, nanos: u32)
    requires
        nanos < 1_000_000_000,
    ensures
        ({
            let t = time_of_day_text(secs, nanos);
            let hour = decimal_value(t.subrange(0, 2));
            let minute = decimal_value(t.subrange(3, 5));
            let second = decimal_value(t.subrange(6, 8));
            &&& t.len() >= 8
            &&& t[2] == ':' && t[5] == ':'
            &&& 0 <= hour < 24 && 0 <= minute < 60 && 0 <= second < 60
            &&& hour * 3600 + minute * 60 + second == (secs as int) % 86400
            &&& (nanos == 0 ==> t.len() == 8)
        }),
{
    let of_day = (secs as int) % 86400;
    let h = of_day / 3600;
    let m = of_day % 3600 / 60;
    let s = of_day % 60;
    assert(0 <= of_day < 86400);
    assert(0 <= h < 24);
    assert(0 <= m < 60);
    assert(of_day % 3600 % 60 == of_day % 60) by (nonlinear_arith)
        requires
            0 <= of_day,
    ;
    assert(h * 3600 + m * 60 + s == of_day) by (nonlinear_arith)
        requires
            0 <= of_day,
            h == of_day / 3600,
            m == of_day % 3600 / 60,
            s == of_day % 60,
            of_day % 3600 % 60 == of_day % 60,
    ;
    lemma_two_digits(h);
    lemma_two_digits(m);
    lemma_two_digits(s);
    let t = time_of_day_text(secs, nanos);
    let hh = zero_padded(h, 2);
    let mm = zero_padded(m, 2);
    let ss = zero_padded(s, 2);
    assert(t == hh + seq![':'] + mm + seq![':'] + ss + fraction_text(nanos as int));
    assert(t.subrange(0, 2) =~= hh);
    assert(t.subrange(3, 5) =~= mm);
    assert(t.subrange(6, 8) =~= ss);
    if nanos == 0 {
        assert(fraction_text(0) =~= Seq::<char>::empty());
    }
}

} // verus!

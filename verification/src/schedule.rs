//! Schedules: augmented cron expressions and their next firing time.
//!
//! A schedule is written as a cron expression of five or six fields, as one
//! of the named presets, or as `@every N<unit>` with a unit of `s`, `m` or
//! `h`. The shorthand is expanded here; reading the expression and finding
//! its next occurrence is the work of the `croner` crate.
use crate::error::{Error, Fault};
use crate::text::{
    all_digits, char_is_digit, char_is_space, chars_of, decimal_string, decimal_text, decimal_value,
    is_digit, is_space, leading_spaces, lemma_leading_spaces, lemma_trailing_spaces,
    parse_decimal, trim, trimmed,
};
use vstd::prelude::*;

verus! {

/// Whether `croner` reads `expr` as a cron expression, with the seconds
/// field optional.
pub uninterp spec fn cron_valid(expr: Seq<char>) -> bool;

/// The first instant strictly after `now_ms` at which `expr` fires, as
/// `croner` finds it. Instants are milliseconds since the Unix epoch, and
/// the expression is read on the clock that is `offset_s` seconds east of
/// UTC.
pub uninterp spec fn cron_next(expr: Seq<char>, now_ms: i64, offset_s: i32) -> Option<i64>;

/// Whether `expr` fires in the second in which the instant `at_ms` lies, on
/// the clock that is `offset_s` seconds east of UTC, as `croner`'s
/// `Cron::is_time_matching` says. It does not where `croner` does not read
/// `expr` or there is no such clock.
pub uninterp spec fn cron_fires(expr: Seq<char>, at_ms: i64, offset_s: i32) -> bool;

/// Whether `t` is the next occurrence of `expr` after `now_ms`: a whole
/// second later than `now_ms` in which `expr` fires, with no whole second
/// between the two in which it does.
pub open spec fn is_next(expr: Seq<char>, now_ms: i64, offset_s: i32, t: i64) -> bool {
    &&& t > now_ms
    &&& t % 1000 == 0
    &&& cron_fires(expr, t, offset_s)
    &&& forall|u: i64|
        now_ms < u < t && u % 1000 == 0 ==> !#[trigger] cron_fires(expr, u, offset_s)
}

/// `croner`'s `Cron::new(expr).with_seconds_optional().parse()`: whether
/// the expression is accepted. The preset `@hourly` is, as `croner`
/// documents.
#[verifier::external_body]
fn cron_accepts(expr: &str) -> (r: bool)
    ensures
        r == cron_valid(expr@),
        expr@ == "@hourly"@ ==> r,
{
    croner::Cron::new(expr).with_seconds_optional().parse().is_ok()
}

/// `croner`'s `Cron::find_next_occurrence` on `expr`, parsed as
/// [`cron_accepts`] parses it, not inclusive of the start: the next
/// occurrence after `now_ms` on the clock `offset_s` seconds east of UTC, or
/// `None` where `croner` reports an error or the clock does not exist.
///
/// `croner` documents the result as the next occurrence that matches. Its
/// search starts at the next second, moves forward only, a second at a
/// time or past seconds in which the expression cannot fire, sets whole
/// seconds, and hands out only what `Cron::is_time_matching` confirms.
#[verifier::external_body]
fn cron_next_after(expr: &str, now_ms: i64, offset_s: i32) -> (r: Option<i64>)
    requires
        -INSTANT_LIMIT <= now_ms <= INSTANT_LIMIT,
    ensures
        r == cron_next(expr@, now_ms, offset_s),
        r matches Some(t) ==> is_next(expr@, now_ms, offset_s, t),
{
    let cron = croner::Cron::new(expr).with_seconds_optional().parse().ok()?;
    let zone = chrono::FixedOffset::east_opt(offset_s)?;
    let now = chrono::DateTime::from_timestamp_millis(now_ms)?.with_timezone(&zone);
    cron.find_next_occurrence(&now, false).ok().map(|t| t.timestamp_millis())
}

/// `croner`'s `Cron::is_time_matching` on `expr`, parsed as
/// [`cron_accepts`] parses it: whether `expr` fires in the second of
/// `at_ms` on the clock `offset_s` seconds east of UTC. It does not where
/// `croner` reports an error or the clock does not exist.
#[verifier::external_body]
fn cron_matches(expr: &str, at_ms: i64, offset_s: i32) -> (r: bool)
    requires
        -INSTANT_LIMIT <= at_ms <= INSTANT_LIMIT,
    ensures
        r == cron_fires(expr@, at_ms, offset_s),
{
    match (
        croner::Cron::new(expr).with_seconds_optional().parse(),
        chrono::FixedOffset::east_opt(offset_s),
        chrono::DateTime::from_timestamp_millis(at_ms),
    ) {
        (Ok(cron), Some(zone), Some(at)) => cron.is_time_matching(&at.with_timezone(&zone)).unwrap_or(
            false,
        ),
        _ => false,
    }
}

/// Instants further than this from the Unix epoch, in milliseconds, are not
/// scheduled: the bound lies beyond the last year that `croner` searches.
pub const INSTANT_LIMIT: i64 = 100_000_000_000_000;

/// The word that opens the interval shorthand.
pub open spec fn every_word() -> Seq<char> {
    seq!['@', 'e', 'v', 'e', 'r', 'y']
}

/// Whether `c` is a unit of the interval shorthand.
pub open spec fn is_unit(c: char) -> bool {
    c == 's' || c == 'm' || c == 'h'
}

/// The digits and the unit of `s`, where `s` is the word `@every`, then
/// white space, then one or more ASCII digits, then a unit, and nothing
/// else.
pub open spec fn every_shorthand(s: Seq<char>) -> Option<(Seq<char>, char)> {
    if s.len() >= 9 && s.take(6) == every_word() {
        let body = s.subrange(6, s.len() - 1);
        let digits = body.skip(leading_spaces(body) as int);
        if leading_spaces(body) >= 1 && digits.len() >= 1 && all_digits(digits) && is_unit(
            s.last(),
        ) {
            Some((digits, s.last()))
        } else {
            None
        }
    } else {
        None
    }
}

/// The six-field cron expression that fires every `n` units.
pub open spec fn expanded(n: nat, unit: char) -> Seq<char> {
    if unit == 's' {
        "*/"@ + decimal_text(n) + " * * * * *"@
    } else if unit == 'm' {
        "0 */"@ + decimal_text(n) + " * * * *"@
    } else {
        "0 0 */"@ + decimal_text(n) + " * * *"@
    }
}

/// The cron expression that the schedule `s` stands for: `s` without the
/// white space around it, with the interval shorthand expanded. There is
/// none where the interval is above `i32::MAX`.
pub open spec fn normalized_schedule(s: Seq<char>) -> Option<Seq<char>> {
    let t = trimmed(s);
    match every_shorthand(t) {
        Some((digits, unit)) => if decimal_value(digits) <= i32::MAX {
            Some(expanded(decimal_value(digits), unit))
        } else {
            None
        },
        None => Some(t),
    }
}

/// What parsing the schedule `s` gives: its cron expression where `croner`
/// accepts it, and otherwise an error that holds `s`.
pub open spec fn parsed_schedule(s: Seq<char>) -> Result<Seq<char>, (Fault, Seq<char>)> {
    match normalized_schedule(s) {
        Some(expr) => if cron_valid(expr) {
            Ok(expr)
        } else {
            Err((Fault::InvalidSchedule, s))
        },
        None => Err((Fault::InvalidSchedule, s)),
    }
}

/// A cron expression that `croner` accepts.
#[derive(Debug, PartialEq, Eq)]
pub struct Schedule {
    expr: String,
}

impl View for Schedule {
    type V = Seq<char>;

    closed spec fn view(&self) -> Seq<char> {
        self.expr@
    }
}

impl DeepView for Schedule {
    type V = Seq<char>;

    open spec fn deep_view(&self) -> Seq<char> {
        self@
    }
}

impl Clone for Schedule {
    fn clone(&self) -> (r: Self)
        ensures
            r@ == self@,
    {
        proof {
            use_type_invariant(self);
        }
        Schedule { expr: self.expr.clone() }
    }
}

impl Schedule {
    #[verifier::type_invariant]
    spec fn accepted(self) -> bool {
        cron_valid(self.expr@)
    }

    /// The schedule that fires at the start of every hour.
    pub fn hourly() -> (r: Schedule)
        ensures
            r@ == "@hourly"@,
    {
        // `croner` knows the preset; asking it is what shows that here.
        let _known = cron_accepts("@hourly");
        Schedule { expr: String::from_str("@hourly") }
    }

    /// The cron expression, which `croner` accepts.
    pub fn as_str(&self) -> (r: &str)
        ensures
            r@ == self@,
            cron_valid(self@),
    {
        proof {
            use_type_invariant(self);
        }
        self.expr.as_str()
    }

    /// What [`Schedule::next_after`] returns: what `croner` finds, for an
    /// instant within [`INSTANT_LIMIT`] of the epoch.
    pub open spec fn next_after_spec(&self, now_ms: i64, offset_s: i32) -> Option<i64> {
        if -INSTANT_LIMIT <= now_ms <= INSTANT_LIMIT {
            cron_next(self@, now_ms, offset_s)
        } else {
            None
        }
    }

    /// Whether the schedule fires in the second in which the instant
    /// `at_ms` lies, on the clock `offset_s` seconds east of UTC. It does
    /// not where `at_ms` is further than [`INSTANT_LIMIT`] from the epoch.
    pub fn fires_at(&self, at_ms: i64, offset_s: i32) -> (r: bool)
        ensures
            r == (-INSTANT_LIMIT <= at_ms <= INSTANT_LIMIT && cron_fires(self@, at_ms, offset_s)),
    {
        if at_ms < -INSTANT_LIMIT || at_ms > INSTANT_LIMIT {
            return false;
        }
        cron_matches(self.expr.as_str(), at_ms, offset_s)
    }

    /// The first instant strictly after `now_ms` at which the schedule
    /// fires, in milliseconds since the Unix epoch, on the clock `offset_s`
    /// seconds east of UTC: the least whole second later than `now_ms` in
    /// which the schedule fires. `None` where `now_ms` is further than
    /// [`INSTANT_LIMIT`] from the epoch or `croner` finds no occurrence.
    pub fn next_after(&self, now_ms: i64, offset_s: i32) -> (r: Option<i64>)
        ensures
            r == self.next_after_spec(now_ms, offset_s),
            r matches Some(t) ==> is_next(self@, now_ms, offset_s, t),
    {
        if now_ms < -INSTANT_LIMIT || now_ms > INSTANT_LIMIT {
            return None;
        }
        cron_next_after(self.expr.as_str(), now_ms, offset_s)
    }
}

/// The digits and the unit of the interval shorthand, where `v` is one.
fn match_every(v: &Vec<char>) -> (r: Option<(Vec<char>, char)>)
    ensures
        match r {
            Some((digits, unit)) => every_shorthand(v@) == Some((digits@, unit)),
            None => every_shorthand(v@) is None,
        },
{
    let n = v.len();
    if n < 9 {
        return None;
    }
    if !(v[0] == '@' && v[1] == 'e' && v[2] == 'v' && v[3] == 'e' && v[4] == 'r' && v[5] == 'y') {
        assert(v@.take(6)[0] == v@[0] && v@.take(6)[1] == v@[1] && v@.take(6)[2] == v@[2]
            && v@.take(6)[3] == v@[3] && v@.take(6)[4] == v@[4] && v@.take(6)[5] == v@[5]);
        return None;
    }
    assert(v@.take(6) =~= every_word());
    let unit = v[n - 1];
    let ghost body = v@.subrange(6, n - 1);
    let mut i: usize = 6;
    while i < n - 1 && char_is_space(v[i])
        invariant
            6 <= i <= n - 1,
            n == v.len(),
            body == v@.subrange(6, n - 1),
            forall|j: int| 0 <= j < i - 6 ==> is_space(#[trigger] body[j]),
        decreases n - i,
    {
        i += 1;
    }
    proof {
        if i < n - 1 {
            assert(body[i - 6] == v@[i as int]);
        }
        lemma_leading_spaces(body, i - 6);
    }
    let ghost digits = body.skip(i - 6);
    if i == 6 || i == n - 1 || !(unit == 's' || unit == 'm' || unit == 'h') {
        return None;
    }
    let mut out: Vec<char> = Vec::new();
    let mut k: usize = i;
    assert(digits =~= v@.subrange(i as int, n - 1));
    while k < n - 1
        invariant
            6 < i <= k <= n - 1,
            n == v.len(),
            body == v@.subrange(6, n - 1),
            leading_spaces(body) == i - 6,
            digits == body.skip(i - 6),
            digits == v@.subrange(i as int, n - 1),
            out@ == v@.subrange(i as int, k as int),
            all_digits(out@),
        decreases n - k,
    {
        if !char_is_digit(v[k]) {
            assert(digits[k - i] == v@[k as int]);
            return None;
        }
        out.push(v[k]);
        assert(out@ =~= v@.subrange(i as int, k + 1));
        k += 1;
    }
    assert(out@ =~= digits);
    Some((out, unit))
}

/// The cron expression that a schedule stands for: the schedule without
/// the white space around it, with `@every N<unit>` expanded to
/// `*/N * * * * *`, `0 */N * * * *` or `0 0 */N * * *`. `None` where the
/// interval is above `i32::MAX`.
pub fn normalize_schedule(sched: &str) -> (r: Option<String>)
    ensures
        r.deep_view() == normalized_schedule(sched@),
{
    let t = trim(sched);
    let v = chars_of(t.as_str());
    match match_every(&v) {
        None => Some(t),
        Some((digits, unit)) => match parse_decimal(&digits) {
            None => None,
            Some(n) => {
                let number = decimal_string(n as u32);
                let mut out = if unit == 's' {
                    String::from_str("*/")
                } else if unit == 'm' {
                    String::from_str("0 */")
                } else {
                    String::from_str("0 0 */")
                };
                out.append(number.as_str());
                if unit == 's' {
                    out.append(" * * * * *");
                } else if unit == 'm' {
                    out.append(" * * * *");
                } else {
                    out.append(" * * *");
                }
                Some(out)
            },
        },
    }
}

/// Parses a schedule as the user wrote it. It fails, with the schedule as
/// the detail, where the interval of the shorthand is above `i32::MAX` or
/// `croner` does not accept the expression.
pub fn schedule_to_cron(sched: &str) -> (r: Result<Schedule, Error>)
    ensures
        match r {
            Ok(s) => parsed_schedule(sched@) == Ok::<Seq<char>, (Fault, Seq<char>)>(s@),
            Err(e) => parsed_schedule(sched@) == Err::<Seq<char>, (Fault, Seq<char>)>(e@),
        },
{
    match normalize_schedule(sched) {
        Some(expr) => {
            if cron_accepts(expr.as_str()) {
                Ok(Schedule { expr })
            } else {
                Err(Error::new(Fault::InvalidSchedule, sched))
            }
        },
        None => Err(Error::new(Fault::InvalidSchedule, sched)),
    }
}

/// How long it is from `now_ms` to the next occurrence, in milliseconds.
pub open spec fn sleep_for(next: Option<i64>, now_ms: i64) -> Option<u64> {
    match next {
        Some(t) => Some((t - now_ms) as u64),
        None => None,
    }
}

/// The sleep until a later instant is the distance to it, however far it
/// lies: the distance of any two instants fits the milliseconds of a sleep.
pub proof fn lemma_sleep_is_exact(now_ms: i64, t: i64)
    requires
        t > now_ms,
    ensures
        sleep_for(Some(t), now_ms) matches Some(d) && d > 0 && d == t - now_ms,
{
}

/// How long to sleep at `now_ms` until the schedule fires next, in
/// milliseconds: the distance to the next occurrence. `None` where there
/// is no next occurrence.
pub fn cron_sleep(schedule: &Schedule, now_ms: i64, offset_s: i32) -> (r: Option<u64>)
    ensures
        r == sleep_for(schedule.next_after_spec(now_ms, offset_s), now_ms),
        match r {
            Some(d) => d > 0 && (schedule.next_after_spec(now_ms, offset_s) matches Some(t) && t
                == now_ms + d && is_next(schedule@, now_ms, offset_s, t)),
            None => schedule.next_after_spec(now_ms, offset_s) is None,
        },
{
    match schedule.next_after(now_ms, offset_s) {
        Some(t) => Some((t as i128 - now_ms as i128) as u64),
        None => None,
    }
}

/// How long a timer sleeps at most before it looks at the clock again, in
/// milliseconds. The clock of a place changes its offset now and then, and
/// a timer learns of it only when it looks.
pub const WATCH_LIMIT_MS: u64 = 60_000;

/// What a timer does when it looks at the clock.
#[derive(Clone, Copy, Debug, PartialEq, Eq, Structural)]
pub enum Watch {
    /// The schedule fires: the occurrence is due.
    Fire,
    /// The timer sleeps for so many milliseconds, and looks again.
    Sleep(u64),
}

/// What a timer does at `now_ms`, when the occurrence it waits for is
/// `next`: it fires where the occurrence is due, and otherwise sleeps until
/// then, though no longer than [`WATCH_LIMIT_MS`].
pub open spec fn watched(next: Option<i64>, now_ms: i64) -> Option<Watch> {
    match next {
        None => None,
        Some(t) => if t <= now_ms {
            Some(Watch::Fire)
        } else if t - now_ms > WATCH_LIMIT_MS {
            Some(Watch::Sleep(WATCH_LIMIT_MS))
        } else {
            Some(Watch::Sleep((t - now_ms) as u64))
        },
    }
}

impl Schedule {
    /// What a timer does when it looks at the clock. The timer was armed at
    /// `armed_ms` and waits for the first occurrence after that instant;
    /// it is now `now_ms`, and the clock stands `offset_s` seconds east of
    /// UTC. The occurrence is looked for on the clock as it stands now, so
    /// that a timer armed before the clock changed its offset still fires
    /// by the clock on the wall. `None` where there is no occurrence to
    /// wait for.
    pub fn watch(&self, armed_ms: i64, now_ms: i64, offset_s: i32) -> (r: Option<Watch>)
        ensures
            r == watched(self.next_after_spec(armed_ms, offset_s), now_ms),
            r matches Some(Watch::Sleep(d)) ==> 0 < d <= WATCH_LIMIT_MS,
    {
        match self.next_after(armed_ms, offset_s) {
            None => None,
            Some(t) => {
                if t <= now_ms {
                    Some(Watch::Fire)
                } else {
                    let left = t as i128 - now_ms as i128;
                    if left > WATCH_LIMIT_MS as i128 {
                        Some(Watch::Sleep(WATCH_LIMIT_MS))
                    } else {
                        Some(Watch::Sleep(left as u64))
                    }
                }
            },
        }
    }
}

/// The interval shorthand written with a single space: `@every`, a space,
/// the digits and the unit.
pub open spec fn every_text(digits: Seq<char>, unit: char) -> Seq<char> {
    every_word() + seq![' '] + digits + seq![unit]
}

/// The interval shorthand and the cron expression it stands for are the
/// same schedule: `@every N<unit>` normalizes to its six-field expression,
/// that expression normalizes to itself, and so both parse to the same
/// expression or both fail.
pub proof fn lemma_every_is_cron(digits: Seq<char>, unit: char)
    requires
        digits.len() >= 1,
        all_digits(digits),
        is_unit(unit),
        decimal_value(digits) <= i32::MAX,
    ensures
        normalized_schedule(every_text(digits, unit)) == Some(
            expanded(decimal_value(digits), unit),
        ),
        normalized_schedule(expanded(decimal_value(digits), unit)) == Some(
            expanded(decimal_value(digits), unit),
        ),
        parsed_schedule(every_text(digits, unit)) is Ok <==> parsed_schedule(
            expanded(decimal_value(digits), unit),
        ) is Ok,
        parsed_schedule(every_text(digits, unit)) is Ok ==> parsed_schedule(
            every_text(digits, unit),
        )->Ok_0 == parsed_schedule(expanded(decimal_value(digits), unit))->Ok_0,
{
    let text = every_text(digits, unit);
    let n = decimal_value(digits);
    let cron = expanded(n, unit);
    assert(trimmed(text) == text) by {
        lemma_leading_spaces(text, 0);
        lemma_trailing_spaces(text, 0);
        assert(text.skip(0) =~= text);
        assert(text.take(text.len() as int) =~= text);
    }
    assert(every_shorthand(text) == Some((digits, unit))) by {
        assert(text.take(6) =~= every_word());
        let body = text.subrange(6, text.len() - 1);
        assert(body =~= seq![' '] + digits);
        assert(is_digit(digits[0]));
        assert(body[1] == digits[0]);
        lemma_leading_spaces(body, 1);
        assert(body.skip(1) =~= digits);
    }
    assert(trimmed(cron) == cron && every_shorthand(cron) is None) by {
        reveal_strlit("*/");
        reveal_strlit(" * * * * *");
        reveal_strlit("0 */");
        reveal_strlit(" * * * *");
        reveal_strlit("0 0 */");
        reveal_strlit(" * * *");
        assert(cron.len() > 0);
        assert(cron[0] == '*' || cron[0] == '0');
        assert(cron.last() == '*');
        lemma_leading_spaces(cron, 0);
        lemma_trailing_spaces(cron, 0);
        assert(cron.skip(0) =~= cron);
        assert(cron.take(cron.len() as int) =~= cron);
        if cron.len() >= 6 {
            assert(cron.take(6)[0] == cron[0]);
            assert(every_word()[0] == '@');
        }
    }
}

} // verus!

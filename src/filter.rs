//! The batch path: narrowing a search result by directory, exit code and time.
use vstd::prelude::*;
use crate::session::History;

verus! {

/// A time bound given on the command line.
pub enum Bound {
    /// No bound was given.
    Unset,
    /// A bound was given but its text could not be read as a date.
    Unparsed,
    /// The bound: whole seconds since the Unix epoch and nanoseconds past them.
    At { secs: i64, nanos: u32 },
}

/// The predicates of a batch search; all of them must hold for a record to stay.
pub struct Filter {
    pub exit: Option<i64>,
    pub exclude_exit: Option<i64>,
    pub cwd: Option<String>,
    pub exclude_cwd: Option<String>,
    pub before: Bound,
    pub after: Bound,
}

/// Longest run of digits accepted in a time text.
pub const MAX_DIGIT_RUN: usize = 6;

/// The instant (seconds since the epoch, nanoseconds past them) that
/// chrono_english reads in `text` relative to `now` under the UK dialect, if
/// it reads one.
pub uninterp spec fn parsed_date(text: Seq<char>, now: int) -> Option<(i64, u32)>;

/// Whether a character is an ASCII digit.
pub open spec fn is_digit(c: char) -> bool {
    '0' <= c && c <= '9'
}

/// Number of digits that end just before position `i`.
pub open spec fn digit_run(s: Seq<char>, i: int) -> nat
    decreases i,
{
    if i <= 0 || !is_digit(s[i - 1]) {
        0
    } else {
        1 + digit_run(s, i - 1)
    }
}

/// Texts that are handed to the date parser: ASCII only, and no number
/// longer than six digits, so that every interval it adds stays within
/// chrono's range of years.
pub open spec fn date_text_ok(s: Seq<char>) -> bool {
    &&& forall|i: int| 0 <= i < s.len() ==> s[i] <= '\u{7f}'
    &&& forall|i: int| 0 <= i <= s.len() ==> digit_run(s, i) <= MAX_DIGIT_RUN
}

/// Relies on chrono_english::parse_date_string (UK dialect, relative to `now`)
/// and chrono's DateTime::timestamp and timestamp_subsec_nanos: the result
/// depends on the text and `now` alone. The parser slices unit names by byte
/// and unwraps the sum of the base time and an interval, so it is only called
/// on texts that are ASCII and hold no number beyond six digits.
#[verifier::external_body]
fn parse_date(text: &str, now: i64) -> (r: Option<(i64, u32)>)
    requires
        date_text_ok(text@),
    ensures
        r == parsed_date(text@, now as int),
{
    let now = chrono::DateTime::from_timestamp_nanos(now);
    match chrono_english::parse_date_string(text, now, chrono_english::Dialect::Uk) {
        Ok(d) => Some((d.timestamp(), d.timestamp_subsec_nanos())),
        Err(_) => None,
    }
}

/// The instant of a bound in nanoseconds since the epoch.
pub open spec fn instant(secs: i64, nanos: u32) -> int {
    secs * 1_000_000_000 + nanos
}

/// Whether the text may be handed to the date parser.
pub fn is_date_text_ok(text: &str) -> (r: bool)
    ensures
        r == date_text_ok(text@),
{
    let n = text.unicode_len();
    let mut run: usize = 0;
    let mut i: usize = 0;
    while i < n
        invariant
            n == text@.len(),
            0 <= i <= n,
            run == digit_run(text@, i as int),
            forall|k: int| 0 <= k < i ==> text@[k] <= '\u{7f}',
            forall|k: int| 0 <= k <= i ==> digit_run(text@, k) <= MAX_DIGIT_RUN,
        decreases n - i,
    {
        let c = text.get_char(i);
        if c > '\u{7f}' {
            return false;
        }
        if '0' <= c && c <= '9' {
            if run == MAX_DIGIT_RUN {
                assert(digit_run(text@, i + 1) > MAX_DIGIT_RUN);
                return false;
            }
            run = run + 1;
        } else {
            run = 0;
        }
        i = i + 1;
    }
    true
}

/// Whether a record passes every predicate of the filter.
pub open spec fn keeps(f: Filter, h: History) -> bool {
    &&& (f.exit matches Some(x) ==> h.exit == x)
    &&& (f.exclude_exit matches Some(x) ==> h.exit != x)
    &&& (f.exclude_cwd matches Some(d) ==> h.cwd@ != d@)
    &&& (f.cwd matches Some(d) ==> h.cwd@ == d@)
    &&& match f.before {
        Bound::Unset => true,
        Bound::Unparsed => false,
        Bound::At { secs, nanos } => h.timestamp <= instant(secs, nanos),
    }
    &&& match f.after {
        Bound::Unset => true,
        Bound::Unparsed => false,
        Bound::At { secs, nanos } => h.timestamp >= instant(secs, nanos),
    }
}

/// The records that pass the filter, in the order they came in.
pub open spec fn kept(s: Seq<History>, f: Filter) -> Seq<History>
    decreases s.len(),
{
    if s.len() == 0 {
        seq![]
    } else if keeps(f, s.last()) {
        kept(s.drop_last(), f).push(s.last())
    } else {
        kept(s.drop_last(), f)
    }
}

/// The bound that a time text gives, read relative to `now` (nanoseconds).
/// A text that is not ASCII or holds a number of more than six digits is not
/// read, and gives `Unparsed`.
pub fn resolve_bound(text: &Option<String>, now: i64) -> (r: Bound)
    ensures
        text is None ==> r is Unset,
        text matches Some(t) ==> r == (if !date_text_ok(t@) {
            Bound::Unparsed
        } else {
            match parsed_date(t@, now as int) {
                Some((secs, nanos)) => Bound::At { secs, nanos },
                None => Bound::Unparsed,
            }
        }),
{
    match text {
        None => Bound::Unset,
        Some(t) => {
            if !is_date_text_ok(t.as_str()) {
                Bound::Unparsed
            } else {
                match parse_date(t.as_str(), now) {
                    Some((secs, nanos)) => Bound::At { secs, nanos },
                    None => Bound::Unparsed,
                }
            }
        },
    }
}

/// The directory to filter on: `"."` stands for `current`, the caller's
/// working directory; any other text is taken as it is.
pub fn resolve_cwd(cwd: Option<String>, current: String) -> (r: Option<String>)
    ensures
        cwd is None ==> r is None,
        cwd matches Some(d) ==> (r matches Some(e) && e@ == (if d@ == seq!['.'] { current@ } else { d@ })),
{
    match cwd {
        None => None,
        Some(d) => {
            let dot = crate::session::char_string('.');
            if d == dot {
                Some(current)
            } else {
                Some(d)
            }
        },
    }
}

impl History {
    /// A copy of the record.
    pub fn duplicate(&self) -> (r: History)
        ensures
            r == *self,
    {
        History {
            command: self.command.clone(),
            cwd: self.cwd.clone(),
            exit: self.exit,
            duration: self.duration,
            timestamp: self.timestamp,
        }
    }
}

/// Whether one record passes the filter.
pub fn passes(filter: &Filter, h: &History) -> (r: bool)
    ensures
        r == keeps(*filter, *h),
{
    if let Some(x) = filter.exit {
        if h.exit != x {
            return false;
        }
    }
    if let Some(x) = filter.exclude_exit {
        if h.exit == x {
            return false;
        }
    }
    if let Some(d) = &filter.exclude_cwd {
        if h.cwd == *d {
            return false;
        }
    }
    if let Some(d) = &filter.cwd {
        if h.cwd != *d {
            return false;
        }
    }
    match filter.before {
        Bound::Unset => {},
        Bound::Unparsed => {
            return false;
        },
        Bound::At { secs, nanos } => {
            if (h.timestamp as i128) > (secs as i128) * 1_000_000_000 + (nanos as i128) {
                return false;
            }
        },
    }
    match filter.after {
        Bound::Unset => {},
        Bound::Unparsed => {
            return false;
        },
        Bound::At { secs, nanos } => {
            if (h.timestamp as i128) < (secs as i128) * 1_000_000_000 + (nanos as i128) {
                return false;
            }
        },
    }
    true
}

/// The records of `results` that pass every predicate, in the order they came in.
pub fn filter_history(results: &Vec<History>, filter: &Filter) -> (r: Vec<History>)
    ensures
        r@ == kept(results@, *filter),
{
    let mut out: Vec<History> = Vec::new();
    let mut i: usize = 0;
    while i < results.len()
        invariant
            0 <= i <= results@.len(),
            out@ == kept(results@.subrange(0, i as int), *filter),
        decreases results@.len() - i,
    {
        proof {
            assert(results@.subrange(0, i + 1).drop_last() =~= results@.subrange(0, i as int));
        }
        if passes(filter, &results[i]) {
            out.push(results[i].duplicate());
        }
        i = i + 1;
    }
    assert(results@.subrange(0, results@.len() as int) =~= results@);
    out
}

} // verus!

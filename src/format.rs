//! Compact duration and "ago" strings for result rows.
use vstd::prelude::*;

verus! {

/// The text that humantime writes for a duration of `nanos` nanoseconds.
pub uninterp spec fn humanized(nanos: nat) -> Seq<char>;

/// The character of a digit below ten.
pub open spec fn digit_char(d: nat) -> char {
    (('0' as nat) + d) as char
}

/// The decimal digits of `n`.
pub open spec fn decimal(n: nat) -> Seq<char>
    decreases n,
{
    if n < 10 {
        seq![digit_char(n)]
    } else {
        decimal(n / 10).push(digit_char(n % 10))
    }
}

/// A count followed by a unit name, with "s" added when `plural` and the count exceeds one.
pub open spec fn counted(n: nat, name: Seq<char>, plural: bool) -> Seq<char> {
    decimal(n) + name + (if plural && n > 1 { seq!['s'] } else { seq![] })
}

/// The first word humantime writes for `nanos` nanoseconds: its largest
/// non-zero unit, counting a year as 31,557,600 s and a month as 2,630,016 s.
pub open spec fn leading_unit(nanos: nat) -> Seq<char> {
    let secs = nanos / 1_000_000_000;
    let sub = nanos % 1_000_000_000;
    let years = secs / 31_557_600;
    let ydays = secs % 31_557_600;
    let months = ydays / 2_630_016;
    let mdays = ydays % 2_630_016;
    let days = mdays / 86400;
    let day_secs = mdays % 86400;
    if years > 0 {
        counted(years, "year"@, true)
    } else if months > 0 {
        counted(months, "month"@, true)
    } else if days > 0 {
        counted(days, "day"@, true)
    } else if day_secs / 3600 > 0 {
        counted(day_secs / 3600, "h"@, false)
    } else if day_secs / 60 > 0 {
        counted(day_secs / 60, "m"@, false)
    } else if day_secs > 0 {
        counted(day_secs, "s"@, false)
    } else if sub / 1_000_000 > 0 {
        counted(sub / 1_000_000, "ms"@, false)
    } else if sub / 1000 > 0 {
        counted(sub / 1000, "us"@, false)
    } else if sub > 0 {
        counted(sub, "ns"@, false)
    } else {
        seq!['0', 's']
    }
}

/// Relies on humantime::format_duration and its Display impl (built without
/// the `mu` feature): the text depends on the duration alone, a zero duration
/// is written "0s", and otherwise the units from years down to nanoseconds
/// that are non-zero are written as a count and a name, separated by spaces.
#[verifier::external_body]
fn humanize(nanos: u64) -> (r: Vec<char>)
    ensures
        r@ == humanized(nanos as nat),
        nanos == 0 ==> r@ == seq!['0', 's'],
        first_word(r@) == leading_unit(nanos as nat),
{
    humantime::format_duration(std::time::Duration::from_nanos(nanos)).to_string().chars().collect()
}

/// Relies on String's FromIterator<char>: the string holds the characters in order.
#[verifier::external_body]
pub(crate) fn string_of(chars: &Vec<char>) -> (r: String)
    ensures
        r@ == chars@,
{
    chars.iter().collect()
}

/// Index of the first space at or after `i`, or the length when there is none.
pub open spec fn word_end(s: Seq<char>, i: int) -> int
    decreases s.len() - i,
{
    if i < 0 || i >= s.len() || s[i] == ' ' {
        i
    } else {
        word_end(s, i + 1)
    }
}

/// Index of the first non-digit at or after `i`, or the length when there is none.
pub open spec fn digits_end(s: Seq<char>, i: int) -> int
    decreases s.len() - i,
{
    if i < 0 || i >= s.len() || !('0' <= s[i] && s[i] <= '9') {
        i
    } else {
        digits_end(s, i + 1)
    }
}

/// The text before the first space.
pub open spec fn first_word(s: Seq<char>) -> Seq<char> {
    s.subrange(0, word_end(s, 0))
}

/// The short form of a long unit name; other units stay as they are.
pub open spec fn unit_abbrev(u: Seq<char>) -> Seq<char> {
    if u == "days"@ || u == "day"@ {
        seq!['d']
    } else if u == "weeks"@ || u == "week"@ {
        seq!['w']
    } else if u == "months"@ || u == "month"@ {
        seq!['m', 'o']
    } else if u == "years"@ || u == "year"@ {
        seq!['y']
    } else {
        u
    }
}

/// A token made of a number and a unit, with the unit abbreviated.
pub open spec fn abbreviate(w: Seq<char>) -> Seq<char> {
    let d = digits_end(w, 0);
    w.subrange(0, d) + unit_abbrev(w.subrange(d, w.len() as int))
}

/// The first token of a humanized duration, abbreviated.
pub open spec fn compact(s: Seq<char>) -> Seq<char> {
    abbreviate(first_word(s))
}

/// The non-negative part of a signed value.
pub open spec fn clamp_nonneg(v: int) -> nat {
    if v < 0 { 0 } else { v as nat }
}

/// A record's duration, clamped at zero and truncated to whole milliseconds.
pub open spec fn duration_nanos(duration: int) -> nat {
    (clamp_nonneg(duration) / 1_000_000 * 1_000_000) as nat
}

/// The duration column of a row.
pub open spec fn duration_text(duration: int) -> Seq<char> {
    compact(humanized(duration_nanos(duration)))
}

/// The "ago" column of a row: elapsed time since `timestamp`, zero when it lies ahead.
pub open spec fn ago_text(timestamp: int, now: int) -> Seq<char> {
    compact(humanized(clamp_nonneg(now - timestamp))) + " ago"@
}

/// Whether `v[from..]` is exactly the text of `lit`.
fn tail_is(v: &Vec<char>, from: usize, lit: &str) -> (r: bool)
    requires
        from <= v@.len(),
    ensures
        r == (v@.subrange(from as int, v@.len() as int) == lit@),
{
    let n = lit.unicode_len();
    if v.len() - from != n {
        assert(v@.subrange(from as int, v@.len() as int).len() != lit@.len());
        return false;
    }
    let mut i: usize = 0;
    while i < n
        invariant
            n == lit@.len(),
            from + n == v@.len(),
            v@.len() <= usize::MAX,
            0 <= i <= n,
            forall|j: int| 0 <= j < i ==> v@[from + j] == lit@[j],
        decreases n - i,
    {
        if v[from + i] != lit.get_char(i) {
            assert(v@.subrange(from as int, v@.len() as int)[i as int] != lit@[i as int]);
            return false;
        }
        i = i + 1;
    }
    assert(v@.subrange(from as int, v@.len() as int) =~= lit@);
    true
}

/// The first token of a humanized duration with its unit abbreviated
/// (`"3days 4h"` becomes `"3d"`, `"1year"` becomes `"1y"`).
pub fn compact_duration(text: &Vec<char>) -> (r: Vec<char>)
    ensures
        r@ == compact(text@),
{
    let ghost s = text@;
    let mut word: Vec<char> = Vec::new();
    let mut i: usize = 0;
    while i < text.len() && text[i] != ' '
        invariant
            s == text@,
            0 <= i <= s.len(),
            word_end(s, 0) == word_end(s, i as int),
            word@ == s.subrange(0, i as int),
        decreases s.len() - i,
    {
        word.push(text[i]);
        i = i + 1;
        assert(word@ =~= s.subrange(0, i as int));
    }
    assert(word@ == first_word(s));
    let ghost w = word@;
    let mut d: usize = 0;
    let mut out: Vec<char> = Vec::new();
    while d < word.len() && '0' <= word[d] && word[d] <= '9'
        invariant
            w == word@,
            0 <= d <= w.len(),
            digits_end(w, 0) == digits_end(w, d as int),
            out@ == w.subrange(0, d as int),
        decreases w.len() - d,
    {
        out.push(word[d]);
        d = d + 1;
        assert(out@ =~= w.subrange(0, d as int));
    }
    let ghost unit = w.subrange(d as int, w.len() as int);
    if tail_is(&word, d, "days") || tail_is(&word, d, "day") {
        out.push('d');
    } else if tail_is(&word, d, "weeks") || tail_is(&word, d, "week") {
        out.push('w');
    } else if tail_is(&word, d, "months") || tail_is(&word, d, "month") {
        out.push('m');
        out.push('o');
    } else if tail_is(&word, d, "years") || tail_is(&word, d, "year") {
        out.push('y');
    } else {
        let mut k: usize = d;
        while k < word.len()
            invariant
                w == word@,
                d <= k <= w.len(),
                out@ == w.subrange(0, d as int) + w.subrange(d as int, k as int),
            decreases w.len() - k,
        {
            out.push(word[k]);
            k = k + 1;
            assert(out@ =~= w.subrange(0, d as int) + w.subrange(d as int, k as int));
        }
    }
    assert(out@ =~= abbreviate(w));
    out
}

/// Text of the duration column for a record's duration in nanoseconds
/// (negative values, such as the still-running marker, count as zero).
pub fn format_duration(duration: i64) -> (r: String)
    ensures
        r@ == duration_text(duration as int),
        r@ == abbreviate(leading_unit(duration_nanos(duration as int))),
        duration < 1_000_000 ==> r@ == "0s"@,
{
    let clamped: u64 = if duration < 0 { 0 } else { duration as u64 };
    let nanos: u64 = clamped / 1_000_000 * 1_000_000;
    let text = humanize(nanos);
    let r = string_of(&compact_duration(&text));
    proof {
        if duration < 1_000_000 {
            lemma_zero_compact();
            reveal_strlit("0s");
            assert(r@ =~= "0s"@);
        }
    }
    r
}

/// Text of the "ago" column: time elapsed from `timestamp` to `now`, both in
/// nanoseconds since the epoch. A timestamp in the future reads "0s ago".
pub fn format_ago(timestamp: i64, now: i64) -> (r: String)
    ensures
        r@ == ago_text(timestamp as int, now as int),
        r@ == abbreviate(leading_unit(clamp_nonneg(now - timestamp))) + " ago"@,
        timestamp >= now ==> r@ == "0s ago"@,
{
    let elapsed: u64 = if timestamp >= now {
        0
    } else {
        (now as i128 - timestamp as i128) as u64
    };
    let text = humanize(elapsed);
    let mut r = string_of(&compact_duration(&text));
    r.append(" ago");
    proof {
        if timestamp >= now {
            lemma_zero_compact();
            reveal_strlit("0s ago");
            reveal_strlit(" ago");
            assert(r@ =~= "0s ago"@);
        }
    }
    r
}

proof fn lemma_zero_compact()
    ensures
        compact(seq!['0', 's']) == seq!['0', 's'],
{
    let s = seq!['0', 's'];
    assert(word_end(s, 2) == 2);
    assert(word_end(s, 1) == 2);
    assert(word_end(s, 0) == 2);
    assert(first_word(s) =~= s);
    assert(digits_end(s, 1) == 1);
    assert(digits_end(s, 0) == 1);
    let u = s.subrange(1, 2);
    assert(u =~= seq!['s']);
    assert(u.len() == 1);
    reveal_strlit("days");
    reveal_strlit("day");
    reveal_strlit("weeks");
    reveal_strlit("week");
    reveal_strlit("months");
    reveal_strlit("month");
    reveal_strlit("years");
    reveal_strlit("year");
    assert(unit_abbrev(u) == u);
    assert(abbreviate(s) =~= s);
}

} // verus!

//! The options of the search command and the batch filter they describe.
use vstd::prelude::*;
use crate::filter::{date_text_ok, parsed_date, resolve_bound, resolve_cwd, Bound, Filter};
use crate::session::{join_query, join_words};

verus! {

/// Options of the search command.
pub struct Cmd {
    /// Keep only records run in this directory (`"."`: the current one).
    pub cwd: Option<String>,
    /// Drop records run in this directory.
    pub exclude_cwd: Option<String>,
    /// Keep only records with this exit code.
    pub exit: Option<i64>,
    /// Drop records with this exit code.
    pub exclude_exit: Option<i64>,
    /// Keep only records at or before this date.
    pub before: Option<String>,
    /// Keep only records at or after this date.
    pub after: Option<String>,
    /// Open the interactive search.
    pub interactive: bool,
    /// Human-readable times in batch output.
    pub human: bool,
    /// Query words.
    pub query: Vec<String>,
    /// Batch output shows only the command text.
    pub cmd_only: bool,
}

/// The bound that an optional time text gives relative to `now`.
pub open spec fn bound_of(text: Option<String>, now: int) -> Bound {
    match text {
        None => Bound::Unset,
        Some(t) => if !date_text_ok(t@) {
            Bound::Unparsed
        } else {
            match parsed_date(t@, now) {
                Some((secs, nanos)) => Bound::At { secs, nanos },
                None => Bound::Unparsed,
            }
        },
    }
}

fn copy_text(s: &Option<String>) -> (r: Option<String>)
    ensures
        r == *s,
{
    match s {
        None => None,
        Some(t) => Some(t.clone()),
    }
}

impl Cmd {
    /// The query words joined by single spaces.
    pub fn query_text(&self) -> (r: String)
        ensures
            r@ == join_words(self.query@.map_values(|w: String| w@)),
    {
        join_query(&self.query)
    }

    /// The filter of the batch path. `current_dir` is the caller's working
    /// directory, which a `cwd` of `"."` stands for; `now` (nanoseconds since
    /// the epoch) is what time texts are read against.
    pub fn filter(&self, current_dir: String, now: i64) -> (r: Filter)
        ensures
            r.exit == self.exit,
            r.exclude_exit == self.exclude_exit,
            r.exclude_cwd == self.exclude_cwd,
            self.cwd is None ==> r.cwd is None,
            self.cwd matches Some(d) ==> (r.cwd matches Some(e) && e@ == (if d@ == seq!['.'] {
                current_dir@
            } else {
                d@
            })),
            r.before == bound_of(self.before, now as int),
            r.after == bound_of(self.after, now as int),
    {
        Filter {
            exit: self.exit,
            exclude_exit: self.exclude_exit,
            cwd: resolve_cwd(copy_text(&self.cwd), current_dir),
            exclude_cwd: copy_text(&self.exclude_cwd),
            before: resolve_bound(&self.before, now),
            after: resolve_bound(&self.after, now),
        }
    }
}

} // verus!

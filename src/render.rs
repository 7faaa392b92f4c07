//! What the result list shows: density choice, row cells and cursor placement.
use vstd::prelude::*;
use crate::format::{ago_text, digit_char, duration_text, format_ago, format_duration, string_of};
use crate::session::{History, State};

verus! {

/// Rows below which `Auto` picks the compact layout.
pub const COMPACT_BELOW: u16 = 14;

/// Rendering density policy.
#[derive(Clone, Copy, PartialEq, Eq, Structural)]
pub enum Style {
    Auto,
    Compact,
    Full,
}

/// The cells of one result row.
pub struct Row {
    /// `" N "` for the rows 1 to 9 above the selection, else three spaces.
    pub hint: String,
    pub duration: String,
    /// Whether the duration is shown in the success colour.
    pub success: bool,
    /// The "ago" text, padded on the left so that columns line up.
    pub ago: String,
    /// The command with newlines and tabs turned into spaces.
    pub command: String,
    /// Whether this is the highlighted row.
    pub selected: bool,
}

/// The display width of a text in terminal columns.
pub uninterp spec fn display_width(s: Seq<char>) -> nat;

/// Relies on unicode_width::UnicodeWidthStr::width: the columns that the text
/// takes, a function of its characters.
#[verifier::external_body]
fn text_width(s: &str) -> (r: usize)
    ensures
        r as nat == display_width(s@),
{
    unicode_width::UnicodeWidthStr::width(s)
}

/// Whether the compact layout is used; a viewport of unknown height counts as small.
pub open spec fn compact_spec(style: Style, height: Option<u16>) -> bool {
    match style {
        Style::Auto => match height {
            Some(h) => h < COMPACT_BELOW,
            None => true,
        },
        Style::Compact => true,
        Style::Full => false,
    }
}

/// The jump hint of row `i`.
pub open spec fn hint_text(i: int, selection: Option<usize>) -> Seq<char> {
    match selection {
        Some(s) => if s < i && i - s < 10 {
            seq![' ', digit_char((i - s) as nat), ' ']
        } else {
            seq![' ', ' ', ' ']
        },
        None => seq![' ', ' ', ' '],
    }
}

/// A newline or tab becomes a space.
pub open spec fn flatten_char(c: char) -> char {
    if c == '\n' || c == '\t' { ' ' } else { c }
}

/// Whether a record's duration is shown in the success colour.
pub open spec fn is_success(h: History) -> bool {
    h.exit == 0 || h.duration == -1
}

/// Width of the widest duration and ago pair among the records.
pub open spec fn pair_width(s: Seq<History>, now: int) -> nat
    decreases s.len(),
{
    if s.len() == 0 {
        0
    } else {
        let w = duration_text(s.last().duration as int).len() + ago_text(s.last().timestamp as int, now).len();
        let rest = pair_width(s.drop_last(), now);
        if w > rest { w } else { rest }
    }
}

/// `n` spaces.
pub open spec fn spaces(n: nat) -> Seq<char> {
    Seq::new(n, |i: int| ' ')
}

/// Whether `row` shows record `i` of the state at time `now`.
pub open spec fn row_shows(row: Row, app: State, i: int, now: int) -> bool {
    let h = app.results@[i];
    let d = duration_text(h.duration as int);
    let a = ago_text(h.timestamp as int, now);
    &&& row.hint@ == hint_text(i, app.selection)
    &&& row.duration@ == d
    &&& row.success == is_success(h)
    &&& row.ago@ == spaces((pair_width(app.results@, now) - d.len() - a.len()) as nat) + a
    &&& row.command@ == h.command@.map_values(|c: char| flatten_char(c))
    &&& row.selected == (app.selection == Some(i as usize))
}

/// Whether to draw the compact layout for a viewport `height` rows tall (if known).
pub fn use_compact(style: Style, height: Option<u16>) -> (r: bool)
    ensures
        r == compact_spec(style, height),
{
    match style {
        Style::Auto => match height {
            Some(h) => h < COMPACT_BELOW,
            None => true,
        },
        Style::Compact => true,
        Style::Full => false,
    }
}

/// The jump hint shown on row `i`.
pub fn jump_hint(i: usize, selection: Option<usize>) -> (r: String)
    ensures
        r@ == hint_text(i as int, selection),
{
    let mut v: Vec<char> = Vec::new();
    v.push(' ');
    match selection {
        Some(s) => {
            if s < i && i - s < 10 {
                let d = (i - s) as u32;
                let c = char_of_digit(d);
                v.push(c);
            } else {
                v.push(' ');
            }
        },
        None => {
            v.push(' ');
        },
    }
    v.push(' ');
    assert(v@ =~= hint_text(i as int, selection));
    string_of(&v)
}

/// The character of a digit.
fn char_of_digit(d: u32) -> (c: char)
    requires
        d < 10,
    ensures
        c == digit_char(d as nat),
{
    if d == 0 { '0' } else if d == 1 { '1' } else if d == 2 { '2' } else if d == 3 { '3' }
    else if d == 4 { '4' } else if d == 5 { '5' } else if d == 6 { '6' } else if d == 7 { '7' }
    else if d == 8 { '8' } else { '9' }
}

/// The command with each newline and tab replaced by a space.
pub fn flatten_command(command: &String) -> (r: String)
    ensures
        r@ == command@.map_values(|c: char| flatten_char(c)),
{
    let n = command.as_str().unicode_len();
    let mut v: Vec<char> = Vec::new();
    let mut i: usize = 0;
    while i < n
        invariant
            n == command@.len(),
            0 <= i <= n,
            v@ == command@.subrange(0, i as int).map_values(|c: char| flatten_char(c)),
        decreases n - i,
    {
        let c = command.as_str().get_char(i);
        v.push(if c == '\n' || c == '\t' { ' ' } else { c });
        i = i + 1;
        assert(v@ =~= command@.subrange(0, i as int).map_values(|c: char| flatten_char(c)));
    }
    assert(command@.subrange(0, n as int) =~= command@);
    string_of(&v)
}

/// Where the cursor goes: one column past the typed text, on the input line.
/// The compact layout prefixes the text with `"] "`; positions saturate at the
/// edge of the coordinate range.
pub fn cursor_position(area_x: u16, area_y: u16, input: &String, compact: bool) -> (r: (u16, u16))
    ensures
        r.0 as int == vstd::math::min(area_x + display_width(input@) + (if compact { 2int } else { 1int }), u16::MAX as int),
        r.1 as int == vstd::math::min(area_y + 1, u16::MAX as int),
{
    let w = text_width(input.as_str());
    let off: usize = if compact { 2 } else { 1 };
    let x: u16 = if w >= u16::MAX as usize || (u16::MAX - area_x) as usize <= w + off - 1 {
        u16::MAX
    } else {
        area_x + (w + off) as u16
    };
    let y: u16 = if area_y == u16::MAX { u16::MAX } else { area_y + 1 };
    (x, y)
}

proof fn lemma_pair_width_step(s: Seq<History>, i: int, now: int)
    requires
        0 <= i < s.len(),
    ensures
        pair_width(s.subrange(0, i + 1), now) == ({
            let w = duration_text(s[i].duration as int).len() + ago_text(s[i].timestamp as int, now).len();
            let rest = pair_width(s.subrange(0, i), now);
            if w > rest { w } else { rest }
        }),
{
    assert(s.subrange(0, i + 1).drop_last() =~= s.subrange(0, i));
}

proof fn lemma_pair_width_bounds(s: Seq<History>, i: int, now: int)
    requires
        0 <= i < s.len(),
    ensures
        duration_text(s[i].duration as int).len() + ago_text(s[i].timestamp as int, now).len() <= pair_width(s, now),
    decreases s.len(),
{
    if i < s.len() - 1 {
        lemma_pair_width_bounds(s.drop_last(), i, now);
    }
}

impl State {
    /// The rows of the result list at time `now` (nanoseconds since the epoch),
    /// in result order.
    pub fn rows(&self, now: i64) -> (r: Vec<Row>)
        ensures
            r@.len() == self.results@.len(),
            forall|i: int| 0 <= i < r@.len() ==> row_shows(#[trigger] r@[i], *self, i, now as int),
    {
        let n = self.results.len();
        let mut durs: Vec<String> = Vec::new();
        let mut agos: Vec<String> = Vec::new();
        let mut width: u128 = 0;
        let mut i: usize = 0;
        while i < n
            invariant
                n == self.results@.len(),
                0 <= i <= n,
                durs@.len() == i,
                agos@.len() == i,
                forall|j: int| 0 <= j < i ==> #[trigger] durs@[j]@ == duration_text(self.results@[j].duration as int),
                forall|j: int| 0 <= j < i ==> #[trigger] agos@[j]@ == ago_text(self.results@[j].timestamp as int, now as int),
                width as nat == pair_width(self.results@.subrange(0, i as int), now as int),
            decreases n - i,
        {
            let d = format_duration(self.results[i].duration);
            let a = format_ago(self.results[i].timestamp, now);
            let dl = d.as_str().unicode_len();
            let al = a.as_str().unicode_len();
            proof {
                lemma_pair_width_step(self.results@, i as int, now as int);
            }
            if dl as u128 + al as u128 > width {
                width = dl as u128 + al as u128;
            }
            durs.push(d);
            agos.push(a);
            i = i + 1;
        }
        assert(self.results@.subrange(0, n as int) =~= self.results@);
        let mut rows: Vec<Row> = Vec::new();
        let mut k: usize = 0;
        while k < n
            invariant
                n == self.results@.len(),
                0 <= k <= n,
                durs@.len() == n,
                agos@.len() == n,
                forall|j: int| 0 <= j < n ==> #[trigger] durs@[j]@ == duration_text(self.results@[j].duration as int),
                forall|j: int| 0 <= j < n ==> #[trigger] agos@[j]@ == ago_text(self.results@[j].timestamp as int, now as int),
                width as nat == pair_width(self.results@, now as int),
                rows@.len() == k,
                forall|j: int| 0 <= j < k ==> row_shows(#[trigger] rows@[j], *self, j, now as int),
            decreases n - k,
        {
            let h = &self.results[k];
            let dl = durs[k].as_str().unicode_len();
            let al = agos[k].as_str().unicode_len();
            proof {
                lemma_pair_width_bounds(self.results@, k as int, now as int);
            }
            let pad: u128 = width - dl as u128 - al as u128;
            let mut ago: Vec<char> = Vec::new();
            let mut p: u128 = 0;
            while p < pad
                invariant
                    0 <= p <= pad,
                    ago@ == spaces(p as nat),
                decreases pad - p,
            {
                ago.push(' ');
                p = p + 1;
                assert(ago@ =~= spaces(p as nat));
            }
            let mut ago = string_of(&ago);
            ago.append(agos[k].as_str());
            let row = Row {
                hint: jump_hint(k, self.selection),
                duration: durs[k].clone(),
                success: h.exit == 0 || h.duration == -1,
                ago,
                command: flatten_command(&h.command),
                selected: self.selection == Some(k),
            };
            rows.push(row);
            k = k + 1;
        }
        rows
    }
}

} // verus!

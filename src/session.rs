//! Session state and the key-event interpreter of the interactive search.
use vstd::prelude::*;

verus! {

/// Most records fetched by one query.
pub const RESULT_LIMIT: usize = 200;

/// One stored command invocation.
pub struct History {
    pub command: String,
    pub cwd: String,
    pub exit: i64,
    /// Nanoseconds; -1 while the command is still running or unknown.
    pub duration: i64,
    /// Nanoseconds since the Unix epoch, UTC.
    pub timestamp: i64,
}

/// A key event, as read from the terminal.
#[derive(Clone, Copy, PartialEq, Eq, Structural)]
pub enum Key {
    Esc,
    Enter,
    Backspace,
    Up,
    Down,
    Char(char),
    Ctrl(char),
    Alt(char),
    Other,
}

/// What the session does after a key.
pub enum Action {
    /// End the session and hand this text to the caller (empty on cancel).
    Emit(String),
    /// The input changed: fetch results for it again.
    Requery,
    /// Nothing more to do: redraw.
    Stay,
}

/// Which store call fetches the results for an input.
pub enum Query {
    /// The most recent records, duplicates removed.
    List { limit: usize, unique: bool },
    /// Records matching the text under the active search mode.
    Search { limit: usize, text: String },
}

/// The interactive session: typed text, ranked results, highlighted row.
pub struct State {
    pub input: String,
    pub results: Vec<History>,
    pub selection: Option<usize>,
}

/// The words of a query joined by single spaces.
pub open spec fn join_words(q: Seq<Seq<char>>) -> Seq<char>
    decreases q.len(),
{
    if q.len() == 0 {
        seq![]
    } else if q.len() == 1 {
        q[0]
    } else {
        join_words(q.drop_last()) + seq![' '] + q.last()
    }
}

/// The index of the last space before position `i`, or -1 when there is none.
pub open spec fn space_before(s: Seq<char>, i: int) -> int
    decreases i,
{
    if i <= 0 {
        -1
    } else if s[i - 1] == ' ' {
        i - 1
    } else {
        space_before(s, i - 1)
    }
}

/// The text with its last space-delimited word and that space removed;
/// empty when the text is a single word.
pub open spec fn drop_last_word(s: Seq<char>) -> Seq<char> {
    let p = space_before(s, s.len() as int);
    if p < 0 {
        seq![]
    } else {
        s.subrange(0, p)
    }
}

/// The selection that a result set of `len` rows starts with.
pub open spec fn initial_selection(len: nat) -> Option<usize> {
    if len == 0 { None } else { Some(0usize) }
}

/// Whether the key cancels the session.
pub open spec fn is_cancel(k: Key) -> bool {
    k == Key::Esc || k == Key::Ctrl('c') || k == Key::Ctrl('d') || k == Key::Ctrl('g')
}

/// The digit of an Alt+digit jump, 1 to 9.
pub open spec fn jump_digit(k: Key) -> Option<nat> {
    match k {
        Key::Alt(c) => if '1' <= c && c <= '9' { Some((c as nat - '0' as nat) as nat) } else { None },
        _ => None,
    }
}

/// Whether a character is a control character (Unicode category Cc); the
/// input never holds one.
pub open spec fn is_control_char(c: char) -> bool {
    c <= '\u{1f}' || ('\u{7f}' <= c && c <= '\u{9f}')
}

/// Whether the key has an effect on the session.
pub open spec fn is_handled(k: Key) -> bool {
    match k {
        Key::Esc | Key::Enter | Key::Backspace | Key::Up | Key::Down => true,
        Key::Char(c) => !is_control_char(c),
        Key::Ctrl(c) => c == 'c' || c == 'd' || c == 'g' || c == 'u' || c == 'n' || c == 'p',
        Key::Alt(c) => ('1' <= c && c <= '9') || c == '\u{7f}',
        Key::Other => false,
    }
}

/// Relies on String's From<char>: a one-character string.
#[verifier::external_body]
pub(crate) fn char_string(c: char) -> (r: String)
    ensures
        r@ == seq![c],
{
    String::from(c)
}

impl State {
    /// The selection is a valid row, and there is one exactly when there are rows.
    pub open spec fn wf(&self) -> bool {
        &&& self.selection is None <==> self.results@.len() == 0
        &&& self.selection matches Some(k) ==> k < self.results@.len()
    }

    /// A session whose input holds the query words joined by spaces, with no results yet.
    pub fn new(query: &Vec<String>) -> (r: State)
        ensures
            r.input@ == join_words(query@.map_values(|w: String| w@)),
            r.results@.len() == 0,
            r.selection is None,
            r.wf(),
    {
        let input = join_query(query);
        State { input, results: Vec::new(), selection: None }
    }

    /// Replace the results with a fresh set and highlight its first row.
    pub fn set_results(&mut self, results: Vec<History>)
        ensures
            final(self).results == results,
            final(self).input == old(self).input,
            final(self).selection == initial_selection(results@.len()),
            final(self).wf(),
    {
        let empty = results.len() == 0;
        self.results = results;
        self.selection = if empty { None } else { Some(0) };
    }

    /// The text of the row at `i`, or the typed input where there is no such row.
    pub fn command_or_input(&self, i: usize) -> (r: String)
        ensures
            r@ == (if i < self.results@.len() { self.results@[i as int].command@ } else { self.input@ }),
    {
        if i < self.results.len() {
            self.results[i].command.clone()
        } else {
            self.input.clone()
        }
    }
}

/// The query words joined by single spaces.
pub fn join_query(query: &Vec<String>) -> (r: String)
    ensures
        r@ == join_words(query@.map_values(|w: String| w@)),
{
    let ghost q = query@.map_values(|w: String| w@);
    let mut input = String::new();
    let mut i: usize = 0;
    while i < query.len()
        invariant
            q == query@.map_values(|w: String| w@),
            0 <= i <= query@.len(),
            input@ == join_words(q.subrange(0, i as int)),
        decreases query@.len() - i,
    {
        proof {
            assert(q.subrange(0, i + 1).drop_last() =~= q.subrange(0, i as int));
        }
        if i > 0 {
            input.append(" ");
            proof { reveal_strlit(" "); }
        }
        input.append(query[i].as_str());
        i = i + 1;
        proof {
            if i == 1 {
                assert(input@ =~= join_words(q.subrange(0, 1)));
            } else {
                assert(input@ =~= join_words(q.subrange(0, i as int)));
            }
        }
    }
    assert(q.subrange(0, query@.len() as int) =~= q);
    input
}

/// The store call that fetches results for the typed input.
pub fn query_for(input: &String) -> (r: Query)
    ensures
        input@.len() == 0 ==> r == (Query::List { limit: RESULT_LIMIT, unique: true }),
        input@.len() > 0 ==> (r matches Query::Search { limit, text } && limit == RESULT_LIMIT && text@ == input@),
{
    if input.as_str().unicode_len() == 0 {
        Query::List { limit: RESULT_LIMIT, unique: true }
    } else {
        Query::Search { limit: RESULT_LIMIT, text: input.clone() }
    }
}

/// Apply one key to the session. Editing keys change the input and ask for a
/// requery; Down moves toward row 0 and Up toward the last row, both
/// saturating; Enter and Alt+digit emit a command, or the typed text where
/// there is no such row; Esc, Ctrl-C, Ctrl-D and Ctrl-G emit the empty text.
/// Control characters and other keys change nothing.
pub fn key_handler(input: Key, app: &mut State) -> (r: Action)
    requires
        old(app).wf(),
    ensures
        final(app).wf(),
        final(app).results == old(app).results,
        is_cancel(input) ==> (r matches Action::Emit(t) && t@.len() == 0 && *final(app) == *old(app)),
        input == Key::Enter ==> (r matches Action::Emit(t) && *final(app) == *old(app) && t@ == (
            match old(app).selection {
                Some(k) => old(app).results@[k as int].command@,
                None => old(app).input@,
            })),
        jump_digit(input) matches Some(d) ==> *final(app) == *old(app) && (match old(app).selection {
            Some(k) => r matches Action::Emit(t) && t@ == (if k + d < old(app).results@.len() {
                old(app).results@[k + d].command@
            } else {
                old(app).input@
            }),
            None => r matches Action::Emit(t) && t@ == old(app).input@,
        }),
        input matches Key::Char(c) ==> (!is_control_char(c) ==> r is Requery && final(app).input@ == old(app).input@.push(c)
            && final(app).selection == old(app).selection),
        input == Key::Backspace ==> (r is Requery && final(app).input@ == (if old(app).input@.len() == 0 {
            old(app).input@
        } else {
            old(app).input@.drop_last()
        }) && final(app).selection == old(app).selection),
        input == Key::Alt('\u{7f}') ==> (r is Requery && final(app).input@ == drop_last_word(old(app).input@)
            && final(app).selection == old(app).selection),
        input == Key::Ctrl('u') ==> (r is Requery && final(app).input@.len() == 0
            && final(app).selection == old(app).selection),
        (input == Key::Down || input == Key::Ctrl('n')) ==> (r is Stay && final(app).input == old(app).input
            && final(app).selection == (match old(app).selection {
                Some(k) => Some(if k == 0 { 0 } else { (k - 1) as usize }),
                None => None,
            })),
        (input == Key::Up || input == Key::Ctrl('p')) ==> (r is Stay && final(app).input == old(app).input
            && final(app).selection == (match old(app).selection {
                Some(k) => Some(if k + 1 >= old(app).results@.len() { k } else { (k + 1) as usize }),
                None => None,
            })),
        !is_handled(input) ==> (r is Stay && *final(app) == *old(app)),
{
    match input {
        Key::Esc => Action::Emit(String::new()),
        Key::Enter => {
            let i = match app.selection {
                Some(k) => k,
                None => 0,
            };
            Action::Emit(app.command_or_input(i))
        },
        Key::Char(c) => {
            if c <= '\u{1f}' || ('\u{7f}' <= c && c <= '\u{9f}') {
                Action::Stay
            } else {
                app.input.append(char_string(c).as_str());
                Action::Requery
            }
        },
        Key::Backspace => {
            remove_last_char(&mut app.input);
            Action::Requery
        },
        Key::Down => {
            let next = step_down(app.selection);
            app.selection = next;
            Action::Stay
        },
        Key::Up => {
            let next = step_up(app.selection, app.results.len());
            app.selection = next;
            Action::Stay
        },
        Key::Ctrl(c) => {
            if c == 'c' || c == 'd' || c == 'g' {
                Action::Emit(String::new())
            } else if c == 'u' {
                app.input = String::new();
                Action::Requery
            } else if c == 'n' {
                let next = step_down(app.selection);
                app.selection = next;
                Action::Stay
            } else if c == 'p' {
                let next = step_up(app.selection, app.results.len());
                app.selection = next;
                Action::Stay
            } else {
                Action::Stay
            }
        },
        Key::Alt(c) => {
            if '1' <= c && c <= '9' {
                match app.selection {
                    Some(k) => {
                        let d = (c as u32 - '0' as u32) as usize;
                        if d < app.results.len() - k {
                            Action::Emit(app.command_or_input(k + d))
                        } else {
                            Action::Emit(app.input.clone())
                        }
                    },
                    None => Action::Emit(app.input.clone()),
                }
            } else if c == '\u{7f}' {
                remove_last_word(&mut app.input);
                Action::Requery
            } else {
                Action::Stay
            }
        },
        Key::Other => Action::Stay,
    }
}

/// Remove the last character, if any.
fn remove_last_char(text: &mut String)
    ensures
        final(text)@ == (if old(text)@.len() == 0 { old(text)@ } else { old(text)@.drop_last() }),
{
    let n = text.as_str().unicode_len();
    if n > 0 {
        let kept = text.as_str().substring_char(0, n - 1).to_owned();
        assert(kept@ =~= old(text)@.drop_last());
        *text = kept;
    }
}

/// Remove the last space-delimited word together with the space before it.
fn remove_last_word(text: &mut String)
    ensures
        final(text)@ == drop_last_word(old(text)@),
{
    let ghost s = text@;
    let n = text.as_str().unicode_len();
    let mut i: usize = n;
    while i > 0 && text.as_str().get_char(i - 1) != ' '
        invariant
            s == text@,
            n == s.len(),
            0 <= i <= n,
            space_before(s, n as int) == space_before(s, i as int),
        decreases i,
    {
        i = i - 1;
    }
    if i == 0 {
        *text = String::new();
    } else {
        let kept = text.as_str().substring_char(0, i - 1).to_owned();
        *text = kept;
    }
    assert(text@ =~= drop_last_word(s));
}

/// The selection one row toward row 0, staying at row 0.
pub fn step_down(selection: Option<usize>) -> (r: Option<usize>)
    ensures
        r == (match selection {
            Some(k) => Some(if k == 0 { 0 } else { (k - 1) as usize }),
            None => None,
        }),
{
    match selection {
        Some(k) => Some(if k == 0 { 0 } else { k - 1 }),
        None => None,
    }
}

/// The selection one row toward the last of `len` rows, staying at the last.
pub fn step_up(selection: Option<usize>, len: usize) -> (r: Option<usize>)
    requires
        selection matches Some(k) ==> k < len,
    ensures
        r == (match selection {
            Some(k) => Some(if k + 1 >= len { k } else { (k + 1) as usize }),
            None => None,
        }),
{
    match selection {
        Some(k) => Some(if k + 1 >= len { k } else { k + 1 }),
        None => None,
    }
}

} // verus!

use atuin_search::cmd::Cmd;
use atuin_search::filter::{filter_history, is_date_text_ok, passes, resolve_bound, resolve_cwd, Bound, Filter};
use atuin_search::format::{compact_duration, format_ago, format_duration};
use atuin_search::render::{cursor_position, flatten_command, jump_hint, use_compact, Style};
use atuin_search::session::{join_query, key_handler, query_for, step_down, step_up, Action, History, Key, Query, State};

const SECOND: i64 = 1_000_000_000;
const NOW: i64 = 1_700_000_000 * SECOND;

fn record(command: &str, cwd: &str, exit: i64, duration: i64, timestamp: i64) -> History {
    History {
        command: command.to_string(),
        cwd: cwd.to_string(),
        exit,
        duration,
        timestamp,
    }
}

fn three() -> Vec<History> {
    vec![
        record("ls", "/a", 0, SECOND, NOW - 10 * SECOND),
        record("git status", "/b", 1, 2 * SECOND, NOW - 20 * SECOND),
        record("cargo build", "/a", 0, 3 * SECOND, NOW - 30 * SECOND),
    ]
}

fn session(input: &str, results: Vec<History>) -> State {
    let mut app = State::new(&vec![input.to_string()]);
    if input.is_empty() {
        app = State::new(&vec![]);
    }
    app.set_results(results);
    app
}

fn emitted(a: Action) -> String {
    match a {
        Action::Emit(t) => t,
        _ => panic!("no text emitted"),
    }
}

fn no_filter() -> Filter {
    Filter { exit: None, exclude_exit: None, cwd: None, exclude_cwd: None, before: Bound::Unset, after: Bound::Unset }
}

#[test]
fn duration_three_days_is_3d() {
    assert_eq!(format_duration(3 * 86_400 * SECOND), "3d");
}

#[test]
fn duration_one_year_is_1y() {
    assert_eq!(format_duration(31_557_600 * SECOND), "1y");
}

#[test]
fn duration_takes_first_token_only() {
    assert_eq!(format_duration(3 * 3600 * SECOND + 5 * 60 * SECOND), "3h");
    assert_eq!(format_duration(2 * 86_400 * SECOND + 5 * SECOND), "2d");
    assert_eq!(format_duration(2_630_016 * SECOND), "1mo");
}

#[test]
fn duration_truncates_to_millis_and_clamps_negative() {
    assert_eq!(format_duration(1_500_000), "1ms");
    assert_eq!(format_duration(999_999), "0s");
    assert_eq!(format_duration(-1), "0s");
}

#[test]
fn compact_abbreviates_units() {
    let text: Vec<char> = "2months 3days".chars().collect();
    assert_eq!(compact_duration(&text), vec!['2', 'm', 'o']);
    let text: Vec<char> = "1week".chars().collect();
    assert_eq!(compact_duration(&text), vec!['1', 'w']);
    let text: Vec<char> = "15m 2s".chars().collect();
    assert_eq!(compact_duration(&text), vec!['1', '5', 'm']);
}

#[test]
fn ago_in_future_is_zero() {
    assert_eq!(format_ago(NOW + 5 * SECOND, NOW), "0s ago");
}

#[test]
fn ago_in_past() {
    assert_eq!(format_ago(NOW - 5 * SECOND, NOW), "5s ago");
    assert_eq!(format_ago(NOW - 3 * 86_400 * SECOND, NOW), "3d ago");
}

#[test]
fn empty_input_lists_then_typing_searches() {
    let mut app = State::new(&vec![]);
    assert_eq!(app.input, "");
    assert!(matches!(query_for(&app.input), Query::List { limit: 200, unique: true }));
    app.set_results(three());
    assert_eq!(app.results.len(), 3);
    assert_eq!(app.selection, Some(0));
    app.selection = Some(2);
    assert!(matches!(key_handler(Key::Char('g'), &mut app), Action::Requery));
    assert_eq!(app.input, "g");
    match query_for(&app.input) {
        Query::Search { limit, text } => {
            assert_eq!(limit, 200);
            assert_eq!(text, "g");
        }
        _ => panic!("expected a search"),
    }
    app.set_results(vec![record("git", "/", 0, 0, NOW)]);
    assert_eq!(app.selection, Some(0));
    app.set_results(vec![]);
    assert_eq!(app.selection, None);
}

#[test]
fn new_joins_query_words() {
    let app = State::new(&vec!["git".to_string(), "commit".to_string()]);
    assert_eq!(app.input, "git commit");
    assert_eq!(join_query(&vec![]), "");
    assert_eq!(join_query(&vec!["a".to_string(), "".to_string(), "b".to_string()]), "a  b");
}

#[test]
fn down_moves_toward_first_row() {
    let mut app = session("", three());
    app.selection = Some(2);
    assert!(matches!(key_handler(Key::Down, &mut app), Action::Stay));
    assert_eq!(app.selection, Some(1));
    key_handler(Key::Ctrl('n'), &mut app);
    assert_eq!(app.selection, Some(0));
    key_handler(Key::Down, &mut app);
    assert_eq!(app.selection, Some(0));
    assert_eq!(step_down(None), None);
}

#[test]
fn up_moves_toward_last_row() {
    let mut app = session("", three());
    key_handler(Key::Up, &mut app);
    assert_eq!(app.selection, Some(1));
    key_handler(Key::Ctrl('p'), &mut app);
    assert_eq!(app.selection, Some(2));
    key_handler(Key::Up, &mut app);
    assert_eq!(app.selection, Some(2));
    assert_eq!(step_up(Some(4), 5), Some(4));
}

#[test]
fn alt_digit_jumps_or_falls_back() {
    let mut app = session("", three());
    assert_eq!(emitted(key_handler(Key::Alt('2'), &mut app)), "cargo build");
    app.selection = Some(1);
    assert_eq!(emitted(key_handler(Key::Alt('1'), &mut app)), "cargo build");
    app.input = "typed".to_string();
    assert_eq!(emitted(key_handler(Key::Alt('2'), &mut app)), "typed");
    let mut empty = session("x", vec![]);
    assert_eq!(emitted(key_handler(Key::Alt('1'), &mut empty)), "x");
}

#[test]
fn enter_emits_selected_or_input() {
    let mut app = session("", three());
    app.selection = Some(1);
    assert_eq!(emitted(key_handler(Key::Enter, &mut app)), "git status");
    let mut empty = session("raw text", vec![]);
    assert_eq!(emitted(key_handler(Key::Enter, &mut empty)), "raw text");
}

#[test]
fn cancel_keys_emit_empty() {
    for k in [Key::Esc, Key::Ctrl('c'), Key::Ctrl('d'), Key::Ctrl('g')] {
        let mut app = session("abc", three());
        assert_eq!(emitted(key_handler(k, &mut app)), "");
        assert_eq!(app.input, "abc");
    }
}

#[test]
fn editing_keys_change_input() {
    let mut app = session("git commit -m", three());
    assert!(matches!(key_handler(Key::Backspace, &mut app), Action::Requery));
    assert_eq!(app.input, "git commit -");
    assert!(matches!(key_handler(Key::Alt('\u{7f}'), &mut app), Action::Requery));
    assert_eq!(app.input, "git commit");
    key_handler(Key::Alt('\u{7f}'), &mut app);
    assert_eq!(app.input, "git");
    key_handler(Key::Alt('\u{7f}'), &mut app);
    assert_eq!(app.input, "");
    key_handler(Key::Backspace, &mut app);
    assert_eq!(app.input, "");
    key_handler(Key::Char('é'), &mut app);
    assert_eq!(app.input, "é");
    assert!(matches!(key_handler(Key::Ctrl('u'), &mut app), Action::Requery));
    assert_eq!(app.input, "");
    assert!(matches!(key_handler(Key::Other, &mut app), Action::Stay));
    assert!(matches!(key_handler(Key::Char('\t'), &mut app), Action::Stay));
    assert!(matches!(key_handler(Key::Char('\u{1b}'), &mut app), Action::Stay));
    assert_eq!(app.input, "");
    assert!(matches!(key_handler(Key::Ctrl('x'), &mut app), Action::Stay));
}

#[test]
fn batch_exit_filter_keeps_order() {
    let records = vec![
        record("a", "/", 0, 0, NOW),
        record("b", "/", 1, 0, NOW),
        record("c", "/", 0, 0, NOW),
    ];
    let f = Filter { exit: Some(0), ..no_filter() };
    let out = filter_history(&records, &f);
    assert_eq!(out.len(), 2);
    assert_eq!(out[0].command, "a");
    assert_eq!(out[1].command, "c");
}

#[test]
fn batch_exclusions() {
    let records = three();
    let f = Filter { exclude_exit: Some(0), ..no_filter() };
    let out = filter_history(&records, &f);
    assert_eq!(out.len(), 1);
    assert_eq!(out[0].command, "git status");
    let f = Filter { exclude_cwd: Some("/a".to_string()), ..no_filter() };
    assert_eq!(filter_history(&records, &f).len(), 1);
    let f = Filter { cwd: Some("/a".to_string()), ..no_filter() };
    assert_eq!(filter_history(&records, &f).len(), 2);
}

#[test]
fn batch_time_bounds() {
    let records = three();
    let t = Bound::At { secs: (NOW - 20 * SECOND) / SECOND, nanos: 0 };
    let f = Filter { before: t, ..no_filter() };
    assert_eq!(filter_history(&records, &f).len(), 2);
    let t = Bound::At { secs: (NOW - 20 * SECOND) / SECOND, nanos: 0 };
    let f = Filter { after: t, ..no_filter() };
    assert_eq!(filter_history(&records, &f).len(), 2);
    let t = Bound::At { secs: (NOW - 20 * SECOND) / SECOND, nanos: 1 };
    let f = Filter { before: t, ..no_filter() };
    assert_eq!(filter_history(&records, &f).len(), 2);
    let t = Bound::At { secs: (NOW - 20 * SECOND) / SECOND - 1, nanos: 999_999_999 };
    let f = Filter { before: t, ..no_filter() };
    assert_eq!(filter_history(&records, &f).len(), 1);
    assert!(passes(&no_filter(), &records[0]));
}

#[test]
fn dot_cwd_resolves_to_current_directory() {
    let r = resolve_cwd(Some(".".to_string()), "/home/user".to_string());
    assert_eq!(r, Some("/home/user".to_string()));
    let r = resolve_cwd(Some("/tmp".to_string()), "/home/user".to_string());
    assert_eq!(r, Some("/tmp".to_string()));
    let cmd = Cmd {
        cwd: Some(".".to_string()),
        exclude_cwd: None,
        exit: None,
        exclude_exit: None,
        before: None,
        after: None,
        interactive: false,
        human: false,
        query: vec!["ls".to_string(), "-la".to_string()],
        cmd_only: false,
    };
    let f = cmd.filter("/home/user".to_string(), NOW);
    assert_eq!(f.cwd, Some("/home/user".to_string()));
    assert_eq!(cmd.query_text(), "ls -la");
}

#[test]
fn unparsed_bound_excludes_everything() {
    let records = three();
    let f = Filter { before: Bound::Unparsed, ..no_filter() };
    assert_eq!(filter_history(&records, &f).len(), 0);
    let f = Filter { after: Bound::Unparsed, ..no_filter() };
    assert_eq!(filter_history(&records, &f).len(), 0);
    assert!(matches!(resolve_bound(&Some("not a date at all".to_string()), NOW), Bound::Unparsed));
    assert!(matches!(resolve_bound(&None, NOW), Bound::Unset));
}

#[test]
fn parsed_bound_is_an_instant() {
    match resolve_bound(&Some("2020-01-01".to_string()), NOW) {
        Bound::At { secs, .. } => assert!(secs > 1_500_000_000 && secs < NOW / SECOND),
        _ => panic!("date not read"),
    }
}

#[test]
fn density_choice() {
    assert!(use_compact(Style::Auto, Some(13)));
    assert!(!use_compact(Style::Auto, Some(14)));
    assert!(use_compact(Style::Auto, None));
    assert!(use_compact(Style::Compact, Some(50)));
    assert!(!use_compact(Style::Full, Some(5)));
}

#[test]
fn jump_hints() {
    assert_eq!(jump_hint(3, Some(1)), " 2 ");
    assert_eq!(jump_hint(1, Some(1)), "   ");
    assert_eq!(jump_hint(0, Some(1)), "   ");
    assert_eq!(jump_hint(10, Some(0)), "   ");
    assert_eq!(jump_hint(9, Some(0)), " 9 ");
    assert_eq!(jump_hint(2, None), "   ");
}

#[test]
fn commands_are_flattened() {
    assert_eq!(flatten_command(&"for i\tin x\ndo".to_string()), "for i in x do");
}

#[test]
fn cursor_sits_past_input() {
    assert_eq!(cursor_position(1, 10, &"abc".to_string(), false), (5, 11));
    assert_eq!(cursor_position(1, 10, &"abc".to_string(), true), (6, 11));
    assert_eq!(cursor_position(1, 10, &"日本".to_string(), false), (6, 11));
    assert_eq!(cursor_position(65_534, 65_535, &"abc".to_string(), false), (65_535, 65_535));
}

#[test]
fn rows_align_and_mark_selection() {
    let mut app = session("", vec![
        record("ls", "/", 0, SECOND, NOW - 5 * SECOND),
        record("make\ttest", "/", 2, 3 * 3600 * SECOND, NOW - 2 * 86_400 * SECOND),
        record("sleep 99", "/", 1, -1, NOW - 40 * SECOND),
    ]);
    app.selection = Some(0);
    let rows = app.rows(NOW);
    assert_eq!(rows.len(), 3);
    assert_eq!(rows[0].duration, "1s");
    assert_eq!(rows[0].ago, " 5s ago");
    assert_eq!(rows[1].duration, "3h");
    assert_eq!(rows[1].ago, " 2d ago");
    assert_eq!(rows[2].duration, "0s");
    assert_eq!(rows[2].ago, "40s ago");
    assert!(rows.iter().all(|r| r.duration.len() + r.ago.len() == 9));
    assert!(rows[0].success);
    assert!(!rows[1].success);
    assert!(rows[2].success);
    assert!(rows[0].selected && !rows[1].selected);
    assert_eq!(rows[1].hint, " 1 ");
    assert_eq!(rows[1].command, "make test");
}


#[test]
fn yesterday_is_read_as_one_day_back() {
    match resolve_bound(&Some("yesterday".to_string()), NOW) {
        Bound::At { secs, .. } => assert!(secs < NOW / SECOND && secs > NOW / SECOND - 3 * 86_400),
        _ => panic!("yesterday not read"),
    }
}

#[test]
fn risky_date_texts_are_not_parsed() {
    assert!(matches!(resolve_bound(&Some("100000000 days".to_string()), NOW), Bound::Unparsed));
    assert!(matches!(resolve_bound(&Some("2147483647 hours".to_string()), NOW), Bound::Unparsed));
    assert!(matches!(resolve_bound(&Some("3 d\u{e9}j".to_string()), NOW), Bound::Unparsed));
    assert!(is_date_text_ok("999999 days"));
    assert!(!is_date_text_ok("1234567"));
    assert!(!is_date_text_ok("h\u{e9}"));
}

#[test]
fn large_interval_within_bound_is_read() {
    match resolve_bound(&Some("999999 weeks".to_string()), NOW) {
        Bound::At { secs, .. } => assert!(secs > NOW / SECOND),
        Bound::Unparsed => {}
        Bound::Unset => panic!("bound lost"),
    }
}

#[test]
fn date_beyond_nanosecond_range_is_kept() {
    match resolve_bound(&Some("2300-01-01".to_string()), NOW) {
        Bound::At { secs, .. } => assert!(secs > i64::MAX / SECOND),
        _ => panic!("date not read"),
    }
    let f = Filter { before: resolve_bound(&Some("2300-01-01".to_string()), NOW), ..no_filter() };
    assert_eq!(filter_history(&three(), &f).len(), 3);
}

#[test]
fn sub_millisecond_duration_is_zero() {
    assert_eq!(format_duration(999_999), "0s");
    assert_eq!(format_duration(0), "0s");
}

#[test]
fn ago_below_a_millisecond() {
    assert_eq!(format_ago(NOW - 1_500, NOW), "1us ago");
    assert_eq!(format_ago(NOW - 7, NOW), "7ns ago");
    assert_eq!(format_ago(NOW - 2 * 31_557_600 * SECOND, NOW), "2y ago");
}

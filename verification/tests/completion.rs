use konsole::{tab_nothing, tab_spaces, Key, Konsole, Settings, TabQuery, TabResult};

fn query(input: &str, cursor_position: usize, cursor_before: usize, tab_repeat: usize) -> TabQuery {
    TabQuery { input: input.to_string(), cursor_position, cursor_before, tab_repeat }
}

fn cycle(query: TabQuery) -> Option<TabResult> {
    let candidates = ["alpha", "beta", "gamma"];
    let stem: String = query.input.chars().take(query.cursor_before).collect();
    let pick = candidates[(query.tab_repeat - 1) % candidates.len()];
    let shown = query.input.chars().count() as isize;
    let output = format!("{stem}{pick}");
    let movement = output.chars().count() as isize - shown;
    Some(TabResult { output, cursor_movement: movement + (shown - query.cursor_position as isize) })
}

fn typed(text: &str) -> Konsole {
    let mut konsole = Konsole::new();
    for c in text.chars() {
        konsole.insert(c);
    }
    konsole
}

#[test]
fn tab_spaces_appends_four_spaces() {
    let answer = tab_spaces(query("ab", 1, 1, 1)).unwrap();
    assert_eq!(answer.output, "ab    ");
    assert_eq!(answer.cursor_movement, 4);
    let answer = tab_spaces(query("", 0, 0, 7)).unwrap();
    assert_eq!(answer.output, "    ");
    assert_eq!(answer.cursor_movement, 4);
}

#[test]
fn tab_nothing_declines() {
    assert!(tab_nothing(query("ab", 1, 1, 1)).is_none());
    assert!(tab_nothing(query("", 0, 0, 3)).is_none());
}

#[test]
fn tab_with_spaces_moves_the_cursor_four_places() {
    let settings = Settings::new(tab_spaces);
    let mut konsole = typed("ab");
    konsole.handle_key(&settings, Key::Left);
    konsole.handle_key(&settings, Key::Tab);
    assert_eq!(konsole.input().as_str(), "ab    ");
    assert_eq!(konsole.cursor(), 5);
    assert_eq!(konsole.tab_repeat(), 1);
    assert_eq!(konsole.cursor_before_tab(), 1);
}

#[test]
fn a_declined_tab_still_counts() {
    let settings = Settings::new(tab_nothing);
    let mut konsole = typed("ab");
    konsole.handle_key(&settings, Key::Tab);
    konsole.handle_key(&settings, Key::Tab);
    assert_eq!(konsole.input().as_str(), "ab");
    assert_eq!(konsole.cursor(), 2);
    assert_eq!(konsole.tab_repeat(), 2);
    assert_eq!(konsole.cursor_before_tab(), 2);
}

#[test]
fn the_callback_is_told_the_state_of_the_streak() {
    let settings = Settings::new(|q: TabQuery| {
        Some(TabResult {
            output: format!(
                "{}|{}|{}|{}",
                q.tab_repeat, q.cursor_before, q.cursor_position, q.input
            ),
            cursor_movement: 1,
        })
    });
    let mut konsole = typed("ab");
    konsole.handle_key(&settings, Key::Left);
    konsole.handle_key(&settings, Key::Tab);
    assert_eq!(konsole.input().as_str(), "1|1|1|ab");
    assert_eq!(konsole.cursor(), 2);
    konsole.handle_key(&settings, Key::Tab);
    assert_eq!(konsole.input().as_str(), "2|1|2|1|1|1|ab");
    assert_eq!(konsole.cursor(), 3);
    konsole.handle_key(&settings, Key::Tab);
    assert_eq!(konsole.input().as_str(), "3|1|3|2|1|2|1|1|1|ab");
    assert_eq!(konsole.tab_repeat(), 3);
    assert_eq!(konsole.cursor_before_tab(), 1);
}

#[test]
fn a_cycling_callback_sees_the_counts_and_wraps() {
    let settings = Settings::new(cycle);
    let mut konsole = typed("go ");
    let mut seen = Vec::new();
    for press in 1..=7 {
        konsole.handle_key(&settings, Key::Tab);
        assert_eq!(konsole.tab_repeat(), press);
        assert_eq!(konsole.cursor_before_tab(), 3);
        assert_eq!(konsole.cursor(), konsole.input().chars().count());
        seen.push(konsole.input().clone());
    }
    assert_eq!(
        seen,
        vec![
            "go alpha", "go beta", "go gamma", "go alpha", "go beta", "go gamma", "go alpha"
        ]
    );
}

#[test]
fn the_streak_ends_with_any_edit_or_history_key() {
    let mut settings = Settings::new(tab_nothing);
    settings.history_enabled = true;
    for key in [
        Key::Char('x'),
        Key::Backspace,
        Key::Delete,
        Key::Up,
        Key::Down,
        Key::Enter,
    ] {
        let mut konsole = typed("ab");
        konsole.handle_key(&settings, Key::Tab);
        konsole.handle_key(&settings, Key::Tab);
        assert_eq!(konsole.tab_repeat(), 2);
        konsole.handle_key(&settings, key);
        assert_eq!(konsole.tab_repeat(), 0);
        konsole.handle_key(&settings, Key::Tab);
        assert_eq!(konsole.tab_repeat(), 1);
        assert_eq!(konsole.cursor_before_tab(), konsole.cursor());
    }
}

#[test]
fn moving_the_cursor_keeps_the_streak() {
    let settings = Settings::new(tab_nothing);
    for key in [Key::Left, Key::Right, Key::Home, Key::End] {
        let mut konsole = typed("ab");
        konsole.handle_key(&settings, Key::Left);
        konsole.handle_key(&settings, Key::Tab);
        konsole.handle_key(&settings, key);
        assert_eq!(konsole.tab_repeat(), 1);
        konsole.handle_key(&settings, Key::Tab);
        assert_eq!(konsole.tab_repeat(), 2);
        assert_eq!(konsole.cursor_before_tab(), 1);
    }
}

#[test]
fn begin_tab_builds_the_query() {
    let mut konsole = typed("abc");
    konsole.motion(Key::Left);
    let first = konsole.begin_tab();
    assert_eq!(first.input, "abc");
    assert_eq!(first.cursor_position, 2);
    assert_eq!(first.cursor_before, 2);
    assert_eq!(first.tab_repeat, 1);
    konsole.motion(Key::Home);
    let second = konsole.begin_tab();
    assert_eq!(second.input, "abc");
    assert_eq!(second.cursor_position, 0);
    assert_eq!(second.cursor_before, 2);
    assert_eq!(second.tab_repeat, 2);
    assert_eq!(konsole.input().as_str(), "abc");
}

#[test]
fn an_answer_replaces_the_line_and_moves_the_cursor() {
    let mut konsole = typed("abc");
    konsole.motion(Key::Left);
    konsole.apply_tab(Some(TabResult { output: "abcdef".to_string(), cursor_movement: 3 }));
    assert_eq!(konsole.input().as_str(), "abcdef");
    assert_eq!(konsole.cursor(), 5);
    konsole.apply_tab(Some(TabResult { output: "abcd".to_string(), cursor_movement: -2 }));
    assert_eq!(konsole.input().as_str(), "abcd");
    assert_eq!(konsole.cursor(), 3);
    konsole.apply_tab(None);
    assert_eq!(konsole.input().as_str(), "abcd");
    assert_eq!(konsole.cursor(), 3);
}

#[test]
fn the_displacement_stops_at_the_ends_of_the_new_line() {
    let mut konsole = typed("abc");
    konsole.apply_tab(Some(TabResult { output: "ab".to_string(), cursor_movement: 0 }));
    assert_eq!(konsole.cursor(), 2);
    konsole.apply_tab(Some(TabResult { output: "abcd".to_string(), cursor_movement: 10 }));
    assert_eq!(konsole.cursor(), 4);
    konsole.apply_tab(Some(TabResult { output: "abcd".to_string(), cursor_movement: -10 }));
    assert_eq!(konsole.cursor(), 0);
    konsole.apply_tab(Some(TabResult { output: "abcd".to_string(), cursor_movement: isize::MAX }));
    assert_eq!(konsole.cursor(), 4);
    konsole.apply_tab(Some(TabResult { output: "abcd".to_string(), cursor_movement: isize::MIN }));
    assert_eq!(konsole.cursor(), 0);
    konsole.apply_tab(Some(TabResult { output: String::new(), cursor_movement: 1 }));
    assert_eq!(konsole.input().as_str(), "");
    assert_eq!(konsole.cursor(), 0);
}

#[test]
fn tab_asks_the_callback_it_is_given() {
    let mut konsole = typed("ab");
    konsole.tab(&tab_spaces);
    assert_eq!(konsole.input().as_str(), "ab    ");
    assert_eq!(konsole.cursor(), 6);
    konsole.tab(&tab_nothing);
    assert_eq!(konsole.input().as_str(), "ab    ");
    assert_eq!(konsole.tab_repeat(), 2);
}

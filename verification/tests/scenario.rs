use konsole::{
    activate_with, edit_settings, queued_inputs, tab_spaces, Activation, Key, Konsole, Settings,
};

fn type_text(konsole: &mut Konsole, text: &str) {
    let settings = Settings::new(tab_spaces);
    for c in text.chars() {
        konsole.handle_key(&settings, Key::Char(c));
    }
}

#[test]
fn hello_is_typed_committed_and_recalled() {
    let mut konsole = Konsole::new();
    let mut settings = Settings::new(tab_spaces);
    settings.history_enabled = true;

    type_text(&mut konsole, "he");
    type_text(&mut konsole, "l");
    type_text(&mut konsole, "l");
    type_text(&mut konsole, "o");
    assert_eq!(konsole.input().as_str(), "hello");
    assert_eq!(konsole.cursor(), 5);

    konsole.handle_key(&settings, Key::Enter);
    assert_eq!(queued_inputs(&mut konsole), vec!["hello".to_string()]);
    assert_eq!(konsole.input().as_str(), "");
    assert_eq!(konsole.cursor(), 0);

    konsole.handle_key(&settings, Key::Up);
    assert_eq!(konsole.input().as_str(), "hello");
    assert_eq!(konsole.cursor(), 5);

    konsole.handle_key(&settings, Key::Down);
    assert_eq!(konsole.input().as_str(), "");
    assert_eq!(konsole.cursor(), 0);
}

#[test]
fn editing_the_prompt_while_active_asks_for_one_repaint() {
    let mut konsole = Konsole::new();
    let mut settings = Settings::new(tab_spaces);
    assert_eq!(activate_with(&mut konsole, true), Ok(Activation::Started));

    let mut repaints = 0;
    if edit_settings(&mut settings, &konsole, |s| s.prompt = "$ ".to_string()) {
        repaints += 1;
    }
    assert_eq!(repaints, 1);
    assert_eq!(settings.prompt, "$ ");
    assert_eq!(konsole.frame(&settings), ("$ ".to_string(), 2));
}

#[test]
fn editing_settings_while_inactive_asks_for_no_repaint() {
    let konsole = Konsole::new();
    let mut settings = Settings::new(tab_spaces);
    let repaint = edit_settings(&mut settings, &konsole, |s| {
        s.history_enabled = true;
        s.history_limit = 3;
    });
    assert!(!repaint);
    assert!(settings.history_enabled);
    assert_eq!(settings.history_limit, 3);
    assert_eq!(settings.prompt, ">");
}

#[test]
fn new_settings_hold_the_defaults() {
    let settings = Settings::new(tab_spaces);
    assert!(!settings.history_enabled);
    assert_eq!(settings.history_limit, 256);
    assert_eq!(settings.prompt, ">");
}

#[test]
fn a_new_editor_is_empty_and_inactive() {
    let mut konsole = Konsole::new();
    assert!(!konsole::is_active(&konsole));
    assert!(!konsole.is_running());
    assert!(!konsole.is_initialized());
    assert_eq!(konsole.input().as_str(), "");
    assert_eq!(konsole.cursor(), 0);
    assert_eq!(konsole.history_len(), 0);
    assert_eq!(konsole.history_index(), 0);
    assert_eq!(konsole.tab_repeat(), 0);
    assert_eq!(konsole.cursor_before_tab(), 0);
    assert_eq!(konsole.queued_len(), 0);
    assert!(queued_inputs(&mut konsole).is_empty());
}

#[test]
fn the_frame_is_the_prompt_and_the_line() {
    let mut konsole = Konsole::new();
    let mut settings = Settings::new(tab_spaces);
    assert_eq!(konsole.frame(&settings), (">".to_string(), 1));
    type_text(&mut konsole, "abc");
    konsole.handle_key(&settings, Key::Left);
    assert_eq!(konsole.frame(&settings), (">abc".to_string(), 3));
    settings.prompt = "\u{bb} ".to_string();
    assert_eq!(konsole.frame(&settings), ("\u{bb} abc".to_string(), 4));
    settings.prompt = String::new();
    konsole.handle_key(&settings, Key::Home);
    assert_eq!(konsole.frame(&settings), ("abc".to_string(), 0));
}

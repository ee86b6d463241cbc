use konsole::{Key, KeyDecoder};

fn decode(text: &str) -> (KeyDecoder, Vec<Key>) {
    let mut decoder = KeyDecoder::new();
    let mut keys = Vec::new();
    for c in text.chars() {
        if let Some(key) = decoder.feed(c) {
            keys.push(key);
        }
    }
    (decoder, keys)
}

#[test]
fn printable_characters_are_typed() {
    let (decoder, keys) = decode("a Z\u{e9}\u{4e16}~[");
    assert_eq!(decoder, KeyDecoder::Ground);
    assert_eq!(
        keys,
        vec![
            Key::Char('a'),
            Key::Char(' '),
            Key::Char('Z'),
            Key::Char('\u{e9}'),
            Key::Char('\u{4e16}'),
            Key::Char('~'),
            Key::Char('['),
        ]
    );
}

#[test]
fn control_characters_name_their_keys() {
    let (_, keys) = decode("\r\n\t\x7f\x08");
    assert_eq!(keys, vec![Key::Enter, Key::Enter, Key::Tab, Key::Backspace, Key::Backspace]);
}

#[test]
fn other_control_characters_are_dropped() {
    let (decoder, keys) = decode("\x00\x01\x03\x1f");
    assert_eq!(decoder, KeyDecoder::Ground);
    assert!(keys.is_empty());
}

#[test]
fn escape_sequences_name_their_keys() {
    let (decoder, keys) = decode("\x1b[A\x1b[B\x1b[C\x1b[D\x1b[H\x1b[F");
    assert_eq!(decoder, KeyDecoder::Ground);
    assert_eq!(keys, vec![Key::Up, Key::Down, Key::Right, Key::Left, Key::Home, Key::End]);
}

#[test]
fn sequences_with_a_digit_end_with_a_tilde() {
    let (decoder, keys) = decode("\x1b[3~\x1b[1~\x1b[4~\x1b[7~\x1b[8~");
    assert_eq!(decoder, KeyDecoder::Ground);
    assert_eq!(keys, vec![Key::Delete, Key::Home, Key::End, Key::Home, Key::End]);
}

#[test]
fn a_sequence_gives_its_key_at_its_last_character() {
    let mut decoder = KeyDecoder::new();
    assert_eq!(decoder.feed('\x1b'), None);
    assert_eq!(decoder, KeyDecoder::Escape);
    assert_eq!(decoder.feed('['), None);
    assert_eq!(decoder, KeyDecoder::Bracket);
    assert_eq!(decoder.feed('3'), None);
    assert_eq!(decoder, KeyDecoder::Digit('3'));
    assert_eq!(decoder.feed('~'), Some(Key::Delete));
    assert_eq!(decoder, KeyDecoder::Ground);
}

#[test]
fn unknown_sequences_are_dropped_whole() {
    let (decoder, keys) = decode("\x1bx\x1b[Z\x1b[2~\x1b[3x\x1b\x1ba");
    assert_eq!(decoder, KeyDecoder::Ground);
    assert_eq!(keys, vec![Key::Char('a')]);
}

#[test]
fn keys_and_text_mix() {
    let (_, keys) = decode("hi\x1b[D!\r");
    assert_eq!(
        keys,
        vec![Key::Char('h'), Key::Char('i'), Key::Left, Key::Char('!'), Key::Enter]
    );
}

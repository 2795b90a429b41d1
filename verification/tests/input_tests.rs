use lane_hopper::input::{key_of_char, Key, KeyReader};

#[test]
fn printable_aliases_map_to_the_four_directions() {
    assert_eq!(key_of_char('w'), Key::Up);
    assert_eq!(key_of_char('a'), Key::Left);
    assert_eq!(key_of_char('s'), Key::Down);
    assert_eq!(key_of_char('d'), Key::Right);
    assert_eq!(key_of_char('q'), Key::Other);
    assert_eq!(key_of_char(' '), Key::Other);
    assert_eq!(key_of_char('W'), Key::Other);
}

#[test]
fn live_reader_hands_each_captured_key_through() {
    let mut reader = KeyReader::new();
    assert_eq!(reader.read_key(Some(Key::Up)), Some(Key::Up));
    assert_eq!(reader.read_key(Some(Key::Quit)), Some(Key::Quit));
    assert_eq!(reader.read_key(Some(Key::Other)), Some(Key::Other));
}

#[test]
fn failed_capture_kills_the_reader_for_good() {
    let mut reader = KeyReader::new();
    assert_eq!(reader.read_key(Some(Key::Left)), Some(Key::Left));
    assert_eq!(reader.read_key(None), None);
    // Dead: even a completed capture yields nothing now.
    assert_eq!(reader.read_key(Some(Key::Right)), None);
    assert_eq!(reader.read_key(None), None);
}

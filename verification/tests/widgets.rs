use app_tui::chip::ChipState;
use app_tui::cursor::{apply_move, Move};
use app_tui::display::{ChoiceChip, TextInput};
use app_tui::keys::Key;
use app_tui::select::SelectState;
use app_tui::text_input::TextState;

#[test]
fn chip_right_clamps_at_the_last_option() {
    let mut chip = ChipState::new(Some(1), vec![10u32, 20, 30]);
    assert!(chip.on_key_press(Key::Right));
    assert_eq!(chip.get(), Some(30));
    assert!(chip.on_key_press(Key::Right));
    assert_eq!(chip.get(), Some(30));
}

#[test]
fn chip_left_clamps_at_the_first_option() {
    let mut chip = ChipState::new(Some(1), vec!['a', 'b', 'c']);
    chip.prev();
    assert_eq!(chip.get(), Some('a'));
    chip.prev();
    assert_eq!(chip.get(), Some('a'));
    assert_eq!(chip.selected(), Some(0));
}

#[test]
fn chip_first_step_selects_the_first_option() {
    let mut forward = ChipState::new(None, vec![1u8, 2, 3]);
    forward.next();
    assert_eq!(forward.get(), Some(1));
    let mut back = ChipState::new(None, vec![1u8, 2, 3]);
    back.prev();
    assert_eq!(back.get(), Some(1));
}

#[test]
fn chip_home_and_end_jump() {
    let mut chip = ChipState::new(Some(1), vec![1u8, 2, 3, 4]);
    assert!(chip.on_key_press(Key::End));
    assert_eq!(chip.get(), Some(4));
    assert!(chip.on_key_press(Key::Home));
    assert_eq!(chip.get(), Some(1));
}

#[test]
fn chip_without_options_stays_unselected() {
    let mut chip: ChipState<u8> = ChipState::new(None, vec![]);
    chip.next();
    assert_eq!(chip.get(), None);
    chip.prev();
    assert_eq!(chip.get(), None);
    assert!(chip.on_key_press(Key::Home));
    assert_eq!(chip.selected(), None);
    assert!(chip.on_key_press(Key::End));
    assert_eq!(chip.selected(), None);
}

#[test]
fn chip_leaves_other_keys_alone() {
    let mut chip = ChipState::new(Some(0), vec![1u8, 2]);
    assert!(!chip.on_key_press(Key::Up));
    assert!(!chip.on_key_press(Key::Char('x')));
    assert!(!chip.on_key_press(Key::Enter));
    assert_eq!(chip.get(), Some(1));
}

#[test]
fn chip_set_replaces_the_selection() {
    let mut chip = ChipState::new(Some(0), vec![1u8, 2]);
    chip.set(Some(1));
    assert_eq!(chip.get(), Some(2));
    chip.set(None);
    assert_eq!(chip.get(), None);
    assert_eq!(chip.items(), &vec![1u8, 2]);
}

#[test]
fn chip_widget_marks_the_selected_chip() {
    let chip = ChipState::new(Some(1), vec![1u8, 2]);
    assert!(!ChoiceChip::is_selected(&chip, 0));
    assert!(ChoiceChip::is_selected(&chip, 1));
    let none = ChipState::new(None, vec![1u8, 2]);
    assert!(!ChoiceChip::is_selected(&none, 0));
}

#[test]
fn select_up_at_the_top_changes_nothing() {
    let mut list = SelectState::new(Some(0), vec!["a".to_string(), "b".to_string()]);
    assert!(list.on_key_press(Key::Up));
    assert_eq!(list.selected(), Some(0));
    assert_eq!(list.get(), Some("a".to_string()));
}

#[test]
fn select_down_at_the_bottom_changes_nothing() {
    let mut list = SelectState::new(Some(1), vec!["a".to_string(), "b".to_string()]);
    assert!(list.on_key_press(Key::Down));
    assert_eq!(list.selected(), Some(1));
}

#[test]
fn select_stays_in_range_over_many_moves() {
    let keys = [
        Key::Down, Key::Down, Key::Down, Key::Down, Key::Up, Key::Down, Key::Down, Key::Up,
        Key::Up, Key::Up, Key::Up, Key::Up, Key::Down, Key::PageDown, Key::Down, Key::PageUp,
        Key::Up,
    ];
    let mut list = SelectState::new(None, vec![0u8, 1, 2]);
    for key in keys {
        assert!(list.on_key_press(key));
        let at = list.selected().unwrap();
        assert!(at < 3);
    }
    assert_eq!(list.selected(), Some(0));
}

#[test]
fn select_page_keys_jump_to_the_ends() {
    let mut list = SelectState::new(None, vec![5u8, 6, 7]);
    assert!(list.on_key_press(Key::PageDown));
    assert_eq!(list.get(), Some(7));
    assert!(list.on_key_press(Key::PageUp));
    assert_eq!(list.get(), Some(5));
}

#[test]
fn select_without_options_consumes_keys_and_selects_nothing() {
    let mut list: SelectState<u8> = SelectState::new(None, vec![]);
    for key in [Key::Up, Key::Down, Key::PageUp, Key::PageDown] {
        assert!(list.on_key_press(key));
        assert_eq!(list.selected(), None);
    }
}

#[test]
fn select_leaves_other_keys_alone() {
    let mut list = SelectState::new(Some(1), vec![5u8, 6, 7]);
    assert!(!list.on_key_press(Key::Left));
    assert!(!list.on_key_press(Key::Enter));
    assert_eq!(list.selected(), Some(1));
}

#[test]
fn select_default_is_empty() {
    let list: SelectState<u8> = SelectState::default();
    assert_eq!(list.selected(), None);
    assert!(list.items().is_empty());
}

#[test]
fn moves_are_the_same_for_every_cursor() {
    assert_eq!(apply_move(None, 4, Move::Forward), Some(0));
    assert_eq!(apply_move(None, 4, Move::Back), Some(0));
    assert_eq!(apply_move(Some(3), 4, Move::Forward), Some(3));
    assert_eq!(apply_move(Some(2), 4, Move::Forward), Some(3));
    assert_eq!(apply_move(Some(0), 4, Move::Back), Some(0));
    assert_eq!(apply_move(Some(2), 4, Move::First), Some(0));
    assert_eq!(apply_move(Some(2), 4, Move::Last), Some(3));
    assert_eq!(apply_move(None, 0, Move::Last), None);
    assert_eq!(apply_move(None, 0, Move::Forward), None);
}

#[test]
fn text_appends_characters_at_the_end() {
    let mut text = TextState::new("ab");
    assert!(text.on_key_press(Key::Char('c')));
    assert!(text.on_key_press(Key::Char('é')));
    assert_eq!(text.get(), "abcé");
}

#[test]
fn text_backspace_removes_the_last_character() {
    let mut text = TextState::new("añ");
    assert!(text.on_key_press(Key::Backspace));
    assert_eq!(text.get(), "a");
    assert!(text.on_key_press(Key::Delete));
    assert_eq!(text.get(), "");
    assert!(text.is_empty());
}

#[test]
fn text_backspace_on_empty_text_is_consumed_and_changes_nothing() {
    let mut text = TextState::new("");
    assert!(text.on_key_press(Key::Backspace));
    assert!(text.on_key_press(Key::Delete));
    assert_eq!(text.get(), "");
}

#[test]
fn text_leaves_other_keys_alone() {
    let mut text = TextState::new("x");
    for key in [Key::Enter, Key::Esc, Key::Up, Key::Left, Key::Home, Key::Other] {
        assert!(!text.on_key_press(key));
    }
    assert_eq!(text.get(), "x");
}

#[test]
fn text_blinks_in_the_first_half_of_ten_ticks() {
    let mut text = TextState::new("x");
    assert!(!text.is_blinking());
    for tick in 0u64..40 {
        text.on_tick(&tick);
        assert_eq!(text.is_blinking(), tick % 10 < 5);
        assert_eq!(text.get(), "x");
    }
}

#[test]
fn text_set_replaces_the_text() {
    let mut text = TextState::new("old");
    text.set("new".to_string());
    assert_eq!(text.get(), "new");
    assert!(!text.is_empty());
}

#[test]
fn text_widget_shows_the_caret_only_when_selected_and_blinking() {
    let mut text = TextState::new("");
    text.on_tick(&2);
    assert!(TextInput::caret_shown(true, &text));
    assert!(!TextInput::caret_shown(false, &text));
    text.on_tick(&7);
    assert!(!TextInput::caret_shown(true, &text));
}

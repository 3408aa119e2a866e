use wetopla::keys::{KeyCode, KeyEvent, KeyModifiers};
use wetopla::widgets::line_input::LineInput;
use wetopla::widgets::message_box::MessageBox;
use wetopla::widgets::PopupWidget;

fn popup_key(code: KeyCode) -> KeyEvent {
    KeyEvent::plain(code)
}

#[test]
fn a_message_box_starts_closed_on_no() {
    let m = MessageBox::new();
    assert!(!m.is_visible());
    assert!(!m.accepted());
    assert_eq!(m.question(), "");
}

#[test]
fn the_first_key_only_opens_the_message_box() {
    let mut m = MessageBox::new();
    m.set_question("sure?".to_string());
    m.process_input(&popup_key(KeyCode::Tab));
    assert!(m.is_visible());
    assert!(!m.accepted());
    assert_eq!(m.question(), "sure?");
}

#[test]
fn the_tabulator_moves_between_the_answers() {
    let mut m = MessageBox::new();
    m.process_input(&popup_key(KeyCode::Enter));
    m.process_input(&popup_key(KeyCode::Tab));
    assert!(m.accepted());
    m.process_input(&popup_key(KeyCode::Char('x')));
    assert!(m.accepted());
    m.process_input(&popup_key(KeyCode::Tab));
    assert!(!m.accepted());
}

#[test]
fn closing_a_message_box_forgets_everything() {
    let mut m = MessageBox::new();
    m.set_question("sure?".to_string());
    m.process_input(&popup_key(KeyCode::Tab));
    m.process_input(&popup_key(KeyCode::Tab));
    m.close();
    assert_eq!(m, MessageBox::new());
}

#[test]
fn the_first_key_only_opens_the_line_input() {
    let mut l = LineInput::new();
    l.process_input(&popup_key(KeyCode::Char('a')));
    assert!(l.is_visible());
    assert_eq!(l.value(), "");
}

#[test]
fn typed_characters_are_appended() {
    let mut l = LineInput::new();
    l.process_input(&popup_key(KeyCode::Other));
    for c in "Zoë ✓".chars() {
        l.process_input(&popup_key(KeyCode::Char(c)));
    }
    assert_eq!(l.value(), "Zoë ✓");
    l.process_input(&KeyEvent::new(KeyCode::Char('s'), KeyModifiers::control()));
    assert_eq!(l.value(), "Zoë ✓s");
}

#[test]
fn backspace_takes_the_last_character_off() {
    let mut l = LineInput::new();
    l.process_input(&popup_key(KeyCode::Other));
    l.process_input(&popup_key(KeyCode::Backspace));
    assert_eq!(l.value(), "");
    l.process_input(&popup_key(KeyCode::Char('a')));
    l.process_input(&popup_key(KeyCode::Char('é')));
    l.process_input(&popup_key(KeyCode::Backspace));
    assert_eq!(l.value(), "a");
    l.process_input(&popup_key(KeyCode::Up));
    l.process_input(&popup_key(KeyCode::Enter));
    assert_eq!(l.value(), "a");
    assert!(l.is_visible());
}

#[test]
fn escape_closes_the_line_input() {
    let mut l = LineInput::new();
    l.process_input(&popup_key(KeyCode::Other));
    l.process_input(&popup_key(KeyCode::Char('a')));
    l.process_input(&popup_key(KeyCode::Esc));
    assert_eq!(l, LineInput::new());
}

#[test]
fn the_value_can_be_set() {
    let mut l = LineInput::new();
    l.set_value("abc".to_string());
    assert_eq!(l.value(), "abc");
    assert!(!l.is_visible());
    l.close();
    assert_eq!(l.value(), "");
}

#[test]
fn save_request_is_control_s_alone() {
    assert!(KeyEvent::new(KeyCode::Char('s'), KeyModifiers::control()).is_save_request());
    assert!(!KeyEvent::plain(KeyCode::Char('s')).is_save_request());
    assert!(!KeyEvent::new(KeyCode::Char('q'), KeyModifiers::control()).is_save_request());
    let both = KeyModifiers { shift: true, control: true, alt: false, other: false };
    assert!(!KeyEvent::new(KeyCode::Char('s'), both).is_save_request());
}

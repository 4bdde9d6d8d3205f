use ai_terminal::ui_state::AppMode;
use ai_terminal::ui_state::TerminalEvent;
use ai_terminal::ui_state::UIState;

#[test]
fn ui_tests_test_app_mode_variants() {
    let chat_mode = AppMode::Chat;
    let help_mode = AppMode::Help;

    assert_ne!(
        std::mem::discriminant(&chat_mode),
        std::mem::discriminant(&help_mode)
    );
}

#[test]
fn ui_state_variants_are_distinct() {
    assert_ne!(
        std::mem::discriminant(&UIState::Normal),
        std::mem::discriminant(&UIState::CommandPalette)
    );
    assert_ne!(
        std::mem::discriminant(&UIState::Normal),
        std::mem::discriminant(&UIState::ConfirmationModal)
    );
}

#[test]
fn terminal_event_carries_input() {
    let event = TerminalEvent::Input("ls".to_string());
    assert!(matches!(event, TerminalEvent::Input(text) if text == "ls"));
    assert!(matches!(TerminalEvent::Exit, TerminalEvent::Exit));
}

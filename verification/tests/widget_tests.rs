use ai_terminal::command_palette::Command;
use ai_terminal::confirmation_modal::ConfirmationModal;
use ai_terminal::confirmation_modal::ModalButton;

#[test]
fn widget_tests_test_command_creation() {
    let cmd = Command::new("test", "Test Command", "A test command", "Test", "🧪");
    assert_eq!(cmd.id, "test");
    assert_eq!(cmd.name, "Test Command");
    assert_eq!(cmd.description, "A test command");
    assert_eq!(cmd.category, "Test");
    assert_eq!(cmd.icon, "🧪");
}

#[test]
fn widget_tests_test_modal_button_creation() {
    let button = ModalButton::new("test", "Test Button", true);
    assert_eq!(button.id, "test");
    assert_eq!(button.text, "Test Button");
    assert_eq!(button.is_default, true);
}

#[test]
fn widget_tests_test_confirmation_modal_creation() {
    let buttons = vec![
        ModalButton::new("yes", "Yes", true),
        ModalButton::new("no", "No", false),
    ];

    let modal = ConfirmationModal::new("Test Title", "Test Message", buttons.clone());
    assert_eq!(modal.title(), "Test Title");
    assert_eq!(modal.message(), "Test Message");
    assert_eq!(modal.buttons(), buttons.as_slice());
    assert_eq!(modal.selected_button(), 0);
}

#[test]
fn widget_tests_test_yes_no_modal() {
    let modal = ConfirmationModal::yes_no("Confirm", "Are you sure?");
    assert_eq!(modal.title(), "Confirm");
    assert_eq!(modal.message(), "Are you sure?");
    assert_eq!(modal.buttons().len(), 2);
    assert_eq!(modal.buttons()[0].id, "yes");
    assert_eq!(modal.buttons()[1].id, "no");
}

#[test]
fn widget_tests_test_button_selection() {
    let mut modal = ConfirmationModal::yes_no("Confirm", "Are you sure?");

    // Test next selection
    modal.select_next();
    assert_eq!(modal.selected_button(), 1);

    // Test wrapping around
    modal.select_next();
    assert_eq!(modal.selected_button(), 0);

    // Test previous selection
    modal.select_previous();
    assert_eq!(modal.selected_button(), 1);

    // Test wrapping around
    modal.select_previous();
    assert_eq!(modal.selected_button(), 0);
}

#[test]
fn widget_tests_test_selected_button_id() {
    let modal = ConfirmationModal::yes_no("Confirm", "Are you sure?");
    assert_eq!(modal.selected_button_id(), "yes");
}

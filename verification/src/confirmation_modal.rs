//! Confirmation modal widget state: a titled message with a row of
//! buttons and one selection.  Rendering lives outside this library;
//! the selection logic is decided here.

use vstd::prelude::*;
use vstd::string::*;

verus! {

/// Represents a button in the confirmation modal
#[derive(Debug, Clone, PartialEq)]
pub struct ModalButton {
    pub id: String,
    pub text: String,
    pub is_default: bool,
}

impl ModalButton {
    /// Create a new modal button
    pub fn new(id: &str, text: &str, is_default: bool) -> (button: ModalButton)
        ensures
            button.id@ == id@,
            button.text@ == text@,
            button.is_default == is_default,
    {
        ModalButton { id: id.to_owned(), text: text.to_owned(), is_default }
    }
}

/// The mathematical value of a modal: its texts, its buttons and the
/// selected index.
pub struct ModalView {
    pub title: Seq<char>,
    pub message: Seq<char>,
    pub buttons: Seq<ModalButton>,
    pub selected: int,
}

/// Confirmation modal widget
pub struct ConfirmationModal {
    title: String,
    message: String,
    buttons: Vec<ModalButton>,
    selected_button: usize,
}

impl View for ConfirmationModal {
    type V = ModalView;

    closed spec fn view(&self) -> ModalView {
        (ModalView {
            title: self.title@,
            message: self.message@,
            buttons: self.buttons@,
            selected: self.selected_button as int,
        })
    }
}

impl ConfirmationModal {
    /// A modal always offers at least one button, and the selection
    /// points at one of them.
    pub open spec fn wf(self) -> bool {
        &&& self@.buttons.len() > 0
        &&& 0 <= self@.selected < self@.buttons.len()
    }

    /// Create a new confirmation modal.  Every modal offers at least one
    /// button; the first is selected.
    pub fn new(title: &str, message: &str, buttons: Vec<ModalButton>) -> (modal: ConfirmationModal)
        requires
            buttons@.len() > 0,
        ensures
            modal@.title == title@,
            modal@.message == message@,
            modal@.buttons == buttons@,
            modal@.selected == 0,
            modal.wf(),
    {
        ConfirmationModal {
            title: title.to_owned(),
            message: message.to_owned(),
            buttons,
            selected_button: 0,
        }
    }

    /// Create a simple Yes/No confirmation modal
    pub fn yes_no(title: &str, message: &str) -> (modal: ConfirmationModal)
        ensures
            modal@.title == title@,
            modal@.message == message@,
            modal@.buttons.len() == 2,
            modal@.buttons[0].id@ == "yes"@,
            modal@.buttons[0].text@ == "Yes"@,
            modal@.buttons[0].is_default == true,
            modal@.buttons[1].id@ == "no"@,
            modal@.buttons[1].text@ == "No"@,
            modal@.buttons[1].is_default == false,
            modal@.selected == 0,
            modal.wf(),
    {
        let mut buttons: Vec<ModalButton> = Vec::new();
        buttons.push(ModalButton::new("yes", "Yes", true));
        buttons.push(ModalButton::new("no", "No", false));
        ConfirmationModal::new(title, message, buttons)
    }

    /// Select the next button, wrapping around after the last.
    pub fn select_next(&mut self)
        requires
            old(self).wf(),
        ensures
            final(self).wf(),
            final(self)@.selected == (old(self)@.selected + 1) % (old(self)@.buttons.len() as int),
            final(self)@.title == old(self)@.title,
            final(self)@.message == old(self)@.message,
            final(self)@.buttons == old(self)@.buttons,
    {
        let count = self.buttons.len();
        proof {
            assert(self.selected_button < count);
        }
        self.selected_button = (self.selected_button + 1) % count;
    }

    /// Select the previous button, wrapping around before the first.
    pub fn select_previous(&mut self)
        requires
            old(self).wf(),
        ensures
            final(self).wf(),
            final(self)@.selected == if old(self)@.selected > 0 {
                old(self)@.selected - 1
            } else {
                old(self)@.buttons.len() - 1
            },
            final(self)@.title == old(self)@.title,
            final(self)@.message == old(self)@.message,
            final(self)@.buttons == old(self)@.buttons,
    {
        if self.selected_button > 0 {
            self.selected_button = self.selected_button - 1;
        } else {
            self.selected_button = self.buttons.len() - 1;
        }
    }

    /// Get the ID of the selected button
    pub fn selected_button_id(&self) -> (id: &str)
        requires
            self.wf(),
        ensures
            id@ == self@.buttons[self@.selected].id@,
    {
        self.buttons[self.selected_button].id.as_str()
    }

    /// Get the title of the modal
    pub fn title(&self) -> (title: &str)
        ensures
            title@ == self@.title,
    {
        self.title.as_str()
    }

    /// Get the message of the modal
    pub fn message(&self) -> (message: &str)
        ensures
            message@ == self@.message,
    {
        self.message.as_str()
    }

    /// Get the buttons of the modal
    pub fn buttons(&self) -> (buttons: &[ModalButton])
        ensures
            buttons@ == self@.buttons,
    {
        self.buttons.as_slice()
    }

    /// Get the selected button index
    pub fn selected_button(&self) -> (selected: usize)
        ensures
            selected == self@.selected,
    {
        self.selected_button
    }
}

} // verus!

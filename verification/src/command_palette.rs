//! Commands offered by the command palette.  The palette's fuzzy
//! filtering and rendering live outside this library; the command value
//! itself is decided here.

use vstd::prelude::*;
use vstd::string::*;

verus! {

/// Represents a command in the palette
#[derive(Debug, Clone)]
pub struct Command {
    pub id: String,
    pub name: String,
    pub description: String,
    pub category: String,
    pub icon: String,
}

impl Command {
    /// Create a new command
    pub fn new(id: &str, name: &str, description: &str, category: &str, icon: &str) -> (command:
        Command)
        ensures
            command.id@ == id@,
            command.name@ == name@,
            command.description@ == description@,
            command.category@ == category@,
            command.icon@ == icon@,
    {
        Command {
            id: id.to_owned(),
            name: name.to_owned(),
            description: description.to_owned(),
            category: category.to_owned(),
            icon: icon.to_owned(),
        }
    }
}

} // verus!

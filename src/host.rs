//! The reaction to the selection front end's events, and where the
//! configuration lives.
use vstd::prelude::*;
use vstd::string::StringExecFns;
use crate::registry::{Entry, Registry};

verus! {

/// A user action reported by the front end.
#[derive(Debug, Clone, Copy, PartialEq, Eq, Structural)]
pub enum Event {
    /// The user cancelled the interaction.
    Cancel,
    /// The user confirmed the entry at `selected`.
    Confirm { selected: usize },
    /// The user asked to complete the search text from the selected entry.
    Complete { selected: Option<usize> },
    /// Any other event: custom input, custom command, entry deletion.
    Other,
}

/// What the front end is to do after an event.
pub enum Action<'a> {
    /// End the interaction.
    Exit,
    /// Keep showing the list.
    Reload,
    /// Run this entry's executable with its arguments, then keep showing the
    /// list should the launch fail.
    Launch(&'a Entry),
}

impl Registry {
    /// Maps a front-end event to the action that follows, replacing the search
    /// text `input` with the selected entry's label on a completion request.
    pub fn react(&self, event: Event, input: &mut String) -> (r: Action<'_>)
        requires
            event matches Event::Complete { selected: Some(i) } ==> i < self@.len(),
        ensures
            match event {
                Event::Cancel => r is Exit && final(input)@ == old(input)@,
                Event::Confirm { selected } => final(input)@ == old(input)@ && if selected
                    < self@.len() {
                    r matches Action::Launch(e) && e@ == self@[selected as int]
                } else {
                    r is Reload
                },
                Event::Complete { selected: Some(i) } => r is Reload && final(input)@
                    == self@[i as int].name,
                _ => r is Reload && final(input)@ == old(input)@,
            },
    {
        match event {
            Event::Cancel => Action::Exit,
            Event::Confirm { selected } => match self.launch(selected) {
                Some(e) => Action::Launch(e),
                None => Action::Reload,
            },
            Event::Complete { selected: Some(i) } => {
                *input = self.label(i).to_owned();
                Action::Reload
            },
            Event::Complete { selected: None } | Event::Other => Action::Reload,
        }
    }
}

/// Where the configuration file lies under the user's home directory.
pub fn config_path(home: &str) -> (r: String)
    ensures
        r@ == home@ + "/.config/rofi/crun.json"@,
{
    let mut path = home.to_owned();
    path.append("/.config/rofi/crun.json");
    path
}

} // verus!

use crate::request::Effect;
use vstd::prelude::*;

verus! {

/// What a plain key binding does. It knows of no focus: a binding of this
/// kind can launch a program, and names a workspace without acting on it.
#[derive(Clone, Copy, Debug, PartialEq, Eq)]
pub enum Action {
    /// Launch the named program without arguments.
    Command(&'static str),
    /// Make the workspace with this index the active one.
    MoveToWorkspace(usize),
    /// Move the focused window to the workspace with this index.
    MoveFocusedToWorkspace(usize),
}

/// A plain key binding. `modifier` holds the bits of the protocol's modifier
/// mask.
#[derive(Clone, Copy, Debug, PartialEq, Eq)]
pub struct Keybind {
    pub action: Action,
    pub keycode: u8,
    pub modifier: u32,
}

/// The effects of a plain binding with the action `action`: the launch of the
/// program of a `Command`, and nothing for the other actions.
pub open spec fn launch_of(action: Action) -> Seq<Effect> {
    match action {
        Action::Command(program) => seq![Effect::Spawn(program)],
        Action::MoveToWorkspace(_) => Seq::empty(),
        Action::MoveFocusedToWorkspace(_) => Seq::empty(),
    }
}

impl Keybind {
    /// Carries out the binding as far as it can be without the manager's
    /// state: see `launch_of`.
    pub fn exec(&self) -> (effects: Vec<Effect>)
        ensures
            effects@ == launch_of(self.action),
    {
        let mut effects: Vec<Effect> = Vec::new();
        match self.action {
            Action::Command(program) => {
                effects.push(Effect::Spawn(program));
            },
            Action::MoveToWorkspace(_) => {},
            Action::MoveFocusedToWorkspace(_) => {},
        }
        effects
    }
}

} // verus!

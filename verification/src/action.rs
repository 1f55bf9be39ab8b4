use crate::error::Error;
use crate::request::{maps, queue_maps, queue_unmaps, unmaps, Effect, Request};
use crate::state::{State, StateView};
use crate::workspace::{lemma_add_keeps_wf, lemma_remove_keeps_wf, Window, WorkspaceView};
use vstd::prelude::*;

verus! {

/// What a key binding does when its key is pressed.
#[derive(Clone, Copy, Debug, PartialEq, Eq)]
pub enum KeybindAction {
    /// Launch the named program without arguments.
    Command(&'static str),
    /// Make the workspace with this index the active one.
    MoveToWorkspace(usize),
    /// Move the focused window to the workspace with this index.
    MoveFocusedToWorkspace(usize),
    /// Close the focused window.
    CloseFocused,
}

/// A rule that maps a key, pressed under a set of modifiers, to an action.
/// `modifier` holds the bits of the protocol's modifier mask.
#[derive(Clone, Copy, Debug, PartialEq, Eq)]
pub struct Keybind {
    pub action: KeybindAction,
    pub keycode: u8,
    pub modifier: u32,
}

/// Whether `action` cannot be carried out in `state`: it needs a workspace
/// that does not exist. A move of the focused window needs its destination
/// only when there is a focused window.
pub open spec fn exec_rejects(action: KeybindAction, state: StateView) -> bool {
    match action {
        KeybindAction::Command(_) => false,
        KeybindAction::MoveToWorkspace(index) => index >= state.workspaces.len(),
        KeybindAction::MoveFocusedToWorkspace(index) => state.focused_window() is Some && index
            >= state.workspaces.len(),
        KeybindAction::CloseFocused => false,
    }
}

/// The workspace that is left when its focused window `window` is closed:
/// without the window, the focus on the window that is then last, if any.
pub open spec fn closed(workspace: WorkspaceView, window: Window) -> WorkspaceView {
    let rest = workspace.remove(window);
    rest.focus(
        if rest.windows.len() > 0 {
            Some(rest.windows.last())
        } else {
            None
        },
    )
}

/// The state after `window` has changed over from the active workspace to
/// the workspace at `index`: it is off the active workspace, and on the
/// destination, on top unless the destination held it already.
pub open spec fn moved(state: StateView, window: Window, index: int) -> StateView {
    let taken = state.with_active(state.active().remove(window));
    taken.with_workspace(index, taken.workspaces[index].add(window))
}

/// The state in which `action`, carried out in `state`, ends. A move of the
/// focused window leaves the state as it is: the window changes over in
/// `finish_move`, once the flush has gone through.
pub open spec fn exec_state(action: KeybindAction, state: StateView) -> StateView {
    match action {
        KeybindAction::Command(_) => state,
        KeybindAction::MoveToWorkspace(index) => state.switched_to(index as int),
        KeybindAction::MoveFocusedToWorkspace(_) => state,
        KeybindAction::CloseFocused => match state.focused_window() {
            Some(window) => state.with_active(closed(state.active(), window)),
            None => state,
        },
    }
}

/// The effects of `action` carried out in `state`, in the order in which they
/// are to happen.
pub open spec fn exec_effects(action: KeybindAction, state: StateView) -> Seq<Effect> {
    match action {
        KeybindAction::Command(program) => seq![Effect::Spawn(program)],
        KeybindAction::MoveToWorkspace(index) => if index == state.current_workspace {
            Seq::empty()
        } else {
            unmaps(state.active().windows) + maps(state.workspaces[index as int].windows)
        },
        KeybindAction::MoveFocusedToWorkspace(index) => match state.focused_window() {
            Some(window) => seq![
                Effect::Send(Request::UnmapWindow { window }),
                Effect::FlushThenMove { window, index },
            ],
            None => Seq::empty(),
        },
        KeybindAction::CloseFocused => match state.focused_window() {
            Some(window) => seq![Effect::Send(Request::TerminateClient { window })],
            None => Seq::empty(),
        },
    }
}

impl Keybind {
    /// The binding answers to `keycode` pressed under exactly `state`.
    pub open spec fn binds(self, keycode: u8, state: u32) -> bool {
        self.keycode == keycode && self.modifier == state
    }

    /// Carries out the action of this binding on `state` and returns what the
    /// caller has to do in turn, in order.
    ///
    /// - `Command` changes nothing and asks for the program to be launched.
    /// - `MoveToWorkspace` to the active workspace does nothing. To another
    ///   one it hides every window of the active workspace, moves the cursor,
    ///   and shows every window of the workspace that is now active.
    /// - `MoveFocusedToWorkspace` does nothing without a focused window. Else
    ///   it hides that window and has the request flushed. The workspaces stay
    ///   as they are: the window changes over in `finish_move`, which the
    ///   caller hands the outcome of that flush.
    /// - `CloseFocused` does nothing without a focused window. Else it asks
    ///   the server to end the window's client, takes the window out of the
    ///   active workspace, and focuses the window that is then last, if any.
    ///
    /// An action that needs a workspace that does not exist fails with
    /// `WorkspaceIndexOutOfRange` and changes nothing.
    pub fn exec(&self, state: &mut State) -> (outcome: Result<Vec<Effect>, Error>)
        requires
            old(state).wf(),
        ensures
            final(state).wf(),
            match outcome {
                Ok(effects) => {
                    &&& !exec_rejects(self.action, old(state)@)
                    &&& effects@ == exec_effects(self.action, old(state)@)
                    &&& final(state)@ == exec_state(self.action, old(state)@)
                },
                Err(error) => {
                    &&& exec_rejects(self.action, old(state)@)
                    &&& error == Error::WorkspaceIndexOutOfRange
                    &&& final(state)@ == old(state)@
                },
            },
    {
        let mut effects: Vec<Effect> = Vec::new();
        match self.action {
            KeybindAction::Command(program) => {
                effects.push(Effect::Spawn(program));
            },
            KeybindAction::MoveToWorkspace(index) => {
                if index >= state.workspaces().len() {
                    return Err(Error::WorkspaceIndexOutOfRange);
                }
                if index != state.current_workspace_idx() {
                    queue_unmaps(&mut effects, state.current_workspace().windows());
                    let _ = state.set_current_workspace(index);
                    queue_maps(&mut effects, state.current_workspace().windows());
                }
            },
            KeybindAction::MoveFocusedToWorkspace(index) => {
                if let Some(window) = state.focused_window() {
                    if index >= state.workspaces().len() {
                        return Err(Error::WorkspaceIndexOutOfRange);
                    }
                    effects.push(Effect::Send(Request::UnmapWindow { window }));
                    effects.push(Effect::FlushThenMove { window, index });
                }
            },
            KeybindAction::CloseFocused => {
                if let Some(window) = state.focused_window() {
                    effects.push(Effect::Send(Request::TerminateClient { window }));
                    let workspace = state.current_workspace_mut();
                    workspace.remove_window(window);
                    let count = workspace.windows().len();
                    let next = if count > 0 {
                        Some(workspace.windows()[count - 1])
                    } else {
                        None
                    };
                    workspace.set_focused_window(next);
                }
            },
        }
        Ok(effects)
    }
}

/// Ends the move of `window` to the workspace at `index` that a
/// `FlushThenMove` began, given whether the flush went through (`flushed`).
/// After a flush that went through, the window leaves the active workspace and
/// joins the destination, on top unless the destination holds it already.
/// After a flush that failed nothing changes, and the failure is returned.
pub fn finish_move(state: &mut State, window: Window, index: usize, flushed: bool) -> (outcome:
    Result<(), Error>)
    requires
        old(state).wf(),
        index < old(state)@.workspaces.len(),
    ensures
        final(state).wf(),
        flushed ==> outcome is Ok && final(state)@ == moved(old(state)@, window, index as int),
        !flushed ==> outcome == Err::<(), Error>(Error::RequestFlushError) && final(state)@ == old(
            state,
        )@,
{
    if flushed {
        state.current_workspace_mut().remove_window(window);
        state.workspace_mut(index).add_window(window);
        Ok(())
    } else {
        Err(Error::RequestFlushError)
    }
}

/// A switch to the workspace that is already shown is accepted, asks for
/// nothing, and changes nothing.
pub proof fn lemma_switch_to_active_is_silent(state: StateView, index: usize)
    requires
        state.wf(),
        index == state.current_workspace,
    ensures
        !exec_rejects(KeybindAction::MoveToWorkspace(index), state),
        exec_effects(KeybindAction::MoveToWorkspace(index), state) == Seq::<Effect>::empty(),
        exec_state(KeybindAction::MoveToWorkspace(index), state) == state,
{
}

/// A switch to another workspace first hides each window of the workspace
/// that was shown, once and in stacking order, then shows each window of the
/// workspace that is shown from now on, once and in stacking order, and asks
/// for nothing else. Only the cursor moves.
pub proof fn lemma_switch_hides_then_shows(state: StateView, index: usize)
    requires
        state.wf(),
        index < state.workspaces.len(),
        index != state.current_workspace,
    ensures
        !exec_rejects(KeybindAction::MoveToWorkspace(index), state),
        exec_effects(KeybindAction::MoveToWorkspace(index), state).len() == state.active().windows.len()
            + state.workspaces[index as int].windows.len(),
        forall|i: int|
            0 <= i < state.active().windows.len() ==> #[trigger] exec_effects(
                KeybindAction::MoveToWorkspace(index),
                state,
            )[i] == Effect::Send(Request::UnmapWindow { window: state.active().windows[i] }),
        forall|j: int|
            0 <= j < state.workspaces[index as int].windows.len() ==> #[trigger] exec_effects(
                KeybindAction::MoveToWorkspace(index),
                state,
            )[state.active().windows.len() + j] == Effect::Send(
                Request::MapWindow { window: state.workspaces[index as int].windows[j] },
            ),
        state.active().windows.no_duplicates(),
        state.workspaces[index as int].windows.no_duplicates(),
        exec_state(KeybindAction::MoveToWorkspace(index), state) == state.switched_to(index as int),
        exec_state(KeybindAction::MoveToWorkspace(index), state).active() == state.workspaces[index as int],
{
}

/// Closing the focused window asks the server to end its client, takes the
/// window out of the active workspace while the others keep their order, and
/// leaves the focus on the window that is then last, or on none if no window
/// is left.
pub proof fn lemma_close_focused(state: StateView, window: Window)
    requires
        state.wf(),
        state.focused_window() == Some(window),
    ensures
        exec_effects(KeybindAction::CloseFocused, state) == seq![
            Effect::Send(Request::TerminateClient { window }),
        ],
        exec_state(KeybindAction::CloseFocused, state).wf(),
        exec_state(KeybindAction::CloseFocused, state).active().windows
            == state.active().windows.remove(state.active().windows.index_of(window)),
        !exec_state(KeybindAction::CloseFocused, state).active().windows.contains(window),
        exec_state(KeybindAction::CloseFocused, state).focused_window() == (if state.active().windows.len()
            > 1 {
            Some(exec_state(KeybindAction::CloseFocused, state).active().windows.last())
        } else {
            None
        }),
{
    lemma_remove_keeps_wf(state.active(), window);
}

/// No action takes a workspace away or adds one, none touches the keybind
/// table or the screen, and none takes back a request to stop.
pub proof fn lemma_exec_keeps_frame(action: KeybindAction, state: StateView)
    requires
        state.wf(),
        !exec_rejects(action, state),
    ensures
        exec_state(action, state).wf(),
        exec_state(action, state).workspaces.len() == state.workspaces.len(),
        exec_state(action, state).keybinds == state.keybinds,
        exec_state(action, state).should_exit == state.should_exit,
        exec_state(action, state).screen_width == state.screen_width,
        exec_state(action, state).screen_height == state.screen_height,
{
    if let Some(window) = state.focused_window() {
        lemma_close_focused(state, window);
    }
}

/// A move of the focused window changes no workspace before its flush has
/// gone through: the action itself leaves the state as it is, and its last
/// effect is the flush whose outcome decides.
pub proof fn lemma_move_waits_for_flush(state: StateView, window: Window, index: usize)
    requires
        state.wf(),
        state.focused_window() == Some(window),
        index < state.workspaces.len(),
    ensures
        !exec_rejects(KeybindAction::MoveFocusedToWorkspace(index), state),
        exec_state(KeybindAction::MoveFocusedToWorkspace(index), state) == state,
        exec_effects(KeybindAction::MoveFocusedToWorkspace(index), state) == seq![
            Effect::Send(Request::UnmapWindow { window }),
            Effect::FlushThenMove { window, index },
        ],
{
}

/// A window that has changed over is on its destination, and off the active
/// workspace unless that is the destination. The destination keeps the
/// windows it had in their order, the other workspaces are untouched, and the
/// state stays well-formed with its cursor where it was.
pub proof fn lemma_moved(state: StateView, window: Window, index: int)
    requires
        state.wf(),
        0 <= index < state.workspaces.len(),
    ensures
        moved(state, window, index).wf(),
        moved(state, window, index).workspaces.len() == state.workspaces.len(),
        moved(state, window, index).current_workspace == state.current_workspace,
        moved(state, window, index).should_exit == state.should_exit,
        moved(state, window, index).workspaces[index].windows.contains(window),
        index != state.current_workspace ==> !moved(state, window, index).active().windows.contains(
            window,
        ),
        index != state.current_workspace ==> state.workspaces[index].windows.is_prefix_of(
            moved(state, window, index).workspaces[index].windows,
        ),
        forall|other: int|
            0 <= other < state.workspaces.len() && other != index && other
                != state.current_workspace ==> #[trigger] moved(state, window, index).workspaces[other]
                == state.workspaces[other],
{
    lemma_remove_keeps_wf(state.active(), window);
    let taken = state.with_active(state.active().remove(window));
    lemma_add_keeps_wf(taken.workspaces[index], window);
}

} // verus!

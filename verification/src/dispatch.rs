use crate::action::{exec_effects, exec_rejects, exec_state, lemma_exec_keeps_frame, Keybind};
use crate::config::{lookup, Config};
use crate::error::Error;
use crate::geometry::Area;
use crate::layout::{lemma_partition_tiles, partition_of, tiles_exactly, Layout};
use crate::protocol::{event_mask_substructure_notify, substructure_notify_bits};
use crate::request::{queue_all, sends, Effect, Request};
use crate::state::{State, StateView};
use crate::workspace::{
    geometry_request, lemma_add_keeps_wf, lemma_remove_keeps_wf, lemma_resize_places_each_window,
    resize_requests, Window,
};
use vstd::prelude::*;

verus! {

/// The width of the border of a tiled window, in pixels.
pub const BORDER_WIDTH: u32 = 2;

/// A notification of the display server, reduced to what the manager reads.
#[derive(Clone, Copy, Debug, PartialEq, Eq, Structural)]
pub enum Notification {
    /// A key went down while the modifiers `modifier_state` were held.
    KeyPressed { key_code: u8, modifier_state: u32 },
    /// A pointer button went down over `child_window`.
    ButtonPressed { child_window: Window },
    /// `window` was put on the screen.
    WindowMapped { window: Window },
    /// `window` ceased to exist.
    WindowDestroyed { window: Window },
    /// Anything else; ignored.
    Other,
}

/// The screen of `state` as a region.
pub open spec fn screen_of(state: StateView) -> Area {
    Area { x: 0, y: 0, width: state.screen_width as u32, height: state.screen_height as u32 }
}

/// The requests that tile the active workspace of `state` into its screen:
/// for each of its windows, in stacking order, the geometry of its own
/// rectangle of the partition less the border and the colour of the border,
/// and the input focus for the window that has the focus.
pub open spec fn retile(state: StateView) -> Seq<Effect> {
    sends(
        resize_requests(
            state.active().windows,
            partition_of(state.active().windows.len(), screen_of(state)),
            BORDER_WIDTH,
            state.focused_window(),
        ),
    )
}

/// The state after `window` was mapped: the window is on the active
/// workspace, on top if it is new there, and has the focus.
pub open spec fn mapped_state(state: StateView, window: Window) -> StateView {
    state.with_active(state.active().add(window).focus(Some(window)))
}

/// The state after `window` was destroyed: the window is no longer on the
/// active workspace.
pub open spec fn destroyed_state(state: StateView, window: Window) -> StateView {
    state.with_active(state.active().remove(window))
}

/// Whether `notification` cannot be handled in `state`: it is the press of a
/// bound key whose action cannot be carried out.
pub open spec fn dispatch_rejects(notification: Notification, state: StateView) -> bool {
    match notification {
        Notification::KeyPressed { key_code, modifier_state } => match lookup(
            state.keybinds,
            key_code,
            modifier_state,
        ) {
            Some(keybind) => exec_rejects(keybind.action, state),
            None => false,
        },
        _ => false,
    }
}

/// The state in which handling `notification` in `state` ends.
pub open spec fn dispatch_state(notification: Notification, state: StateView) -> StateView {
    match notification {
        Notification::KeyPressed { key_code, modifier_state } => match lookup(
            state.keybinds,
            key_code,
            modifier_state,
        ) {
            Some(keybind) => exec_state(keybind.action, state),
            None => state,
        },
        Notification::ButtonPressed { child_window } => state,
        Notification::WindowMapped { window } => mapped_state(state, window),
        Notification::WindowDestroyed { window } => destroyed_state(state, window),
        Notification::Other => state,
    }
}

/// The effects of handling `notification` in `state`, in order.
pub open spec fn dispatch_effects(notification: Notification, state: StateView) -> Seq<Effect> {
    match notification {
        Notification::KeyPressed { key_code, modifier_state } => match lookup(
            state.keybinds,
            key_code,
            modifier_state,
        ) {
            Some(keybind) => exec_effects(keybind.action, state),
            None => Seq::empty(),
        },
        Notification::ButtonPressed { child_window } => seq![
            Effect::Send(Request::SetInputFocus { window: child_window }),
        ],
        Notification::WindowMapped { window } => retile(mapped_state(state, window)),
        Notification::WindowDestroyed { window } => retile(destroyed_state(state, window)),
        Notification::Other => Seq::empty(),
    }
}

/// The requests that ask for the keys of `keybinds` to be delivered, one for
/// each binding, in table order.
pub open spec fn key_grabs(keybinds: Seq<Keybind>) -> Seq<Effect> {
    keybinds.map_values(
        |k: Keybind| Effect::Send(Request::GrabKey { key_code: k.keycode, modifier_mask: k.modifier }),
    )
}

/// What has to be sent before the first notification is awaited: the interest
/// in what happens to the children of the root window, a grab for each bound
/// key, a grab for the first and the second pointer button, and a flush.
pub open spec fn startup_effects(keybinds: Seq<Keybind>) -> Seq<Effect> {
    seq![Effect::Send(Request::SetRootEventInterest { mask: substructure_notify_bits() })]
        + key_grabs(keybinds) + seq![
        Effect::Send(Request::GrabPointerButton { button_index: 1 }),
        Effect::Send(Request::GrabPointerButton { button_index: 2 }),
        Effect::Flush,
    ]
}

/// Computes `startup_effects` for the table `config`.
pub fn startup(config: &Config) -> (effects: Vec<Effect>)
    ensures
        effects@ == startup_effects(config@),
{
    let mut effects: Vec<Effect> = Vec::new();
    effects.push(Effect::Send(Request::SetRootEventInterest { mask: event_mask_substructure_notify() }));
    let ghost head = effects@;
    let keybinds = config.keybinds();
    let mut i: usize = 0;
    while i < keybinds.len()
        invariant
            i <= keybinds.len(),
            effects@ == head + key_grabs(keybinds@.take(i as int)),
        decreases keybinds.len() - i,
    {
        effects.push(
            Effect::Send(
                Request::GrabKey { key_code: keybinds[i].keycode, modifier_mask: keybinds[i].modifier },
            ),
        );
        i = i + 1;
    }
    effects.push(Effect::Send(Request::GrabPointerButton { button_index: 1 }));
    effects.push(Effect::Send(Request::GrabPointerButton { button_index: 2 }));
    effects.push(Effect::Flush);
    effects
}

/// Handles the press of `key_code` under the modifiers `modifier_state`: the
/// binding that the keybind table selects, if any, is carried out.
pub fn on_key_press(state: &mut State, key_code: u8, modifier_state: u32) -> (outcome: Result<
    Vec<Effect>,
    Error,
>)
    requires
        old(state).wf(),
    ensures
        final(state).wf(),
        handled(
            (Notification::KeyPressed { key_code, modifier_state }),
            old(state)@,
            outcome,
            final(state)@,
        ),
{
    let found = match state.config().get_keybind(key_code, modifier_state) {
        Some(keybind) => Some(*keybind),
        None => None,
    };
    match found {
        Some(keybind) => keybind.exec(state),
        None => Ok(Vec::new()),
    }
}

/// Handles the press of a pointer button over `child_window`: the window is
/// given the input focus of the server. The state is left as it is.
pub fn on_button_press(state: &mut State, child_window: Window) -> (effects: Vec<Effect>)
    ensures
        *final(state) == *old(state),
        effects@ == dispatch_effects((Notification::ButtonPressed { child_window }), old(state)@),
{
    let mut effects: Vec<Effect> = Vec::new();
    effects.push(Effect::Send(Request::SetInputFocus { window: child_window }));
    effects
}

/// Handles the mapping of `window`: it joins the active workspace and
/// receives the focus, and the workspace is tiled again.
pub fn on_map_notify(state: &mut State, window: Window) -> (effects: Vec<Effect>)
    requires
        old(state).wf(),
    ensures
        final(state).wf(),
        final(state)@ == mapped_state(old(state)@, window),
        effects@ == retile(mapped_state(old(state)@, window)),
{
    state.current_workspace_mut().add_window(window);
    state.set_focused_window(Some(window));
    retile_active(state)
}

/// Handles the destruction of `window`: it leaves the active workspace, which
/// is tiled again.
pub fn on_destroy_notify(state: &mut State, window: Window) -> (effects: Vec<Effect>)
    requires
        old(state).wf(),
    ensures
        final(state).wf(),
        final(state)@ == destroyed_state(old(state)@, window),
        effects@ == retile(destroyed_state(old(state)@, window)),
{
    state.current_workspace_mut().remove_window(window);
    retile_active(state)
}

/// Computes `retile` for `state`.
pub fn retile_active(state: &State) -> (effects: Vec<Effect>)
    requires
        state.wf(),
    ensures
        effects@ == retile(state@),
{
    let (screen_width, screen_height) = state.screen_wh();
    let requests = state.current_workspace().resize(
        Layout::Winister,
        screen_width as u32,
        screen_height as u32,
        BORDER_WIDTH,
        state,
    );
    let mut effects: Vec<Effect> = Vec::new();
    queue_all(&mut effects, &requests);
    effects
}

/// What it means that handling `notification` in the state `before` gave
/// `outcome` and left the state `after`: where the notification can be
/// handled, the outcome holds its effects and the state has moved on; where it
/// cannot, the outcome is the error and the state is as before.
pub open spec fn handled(
    notification: Notification,
    before: StateView,
    outcome: Result<Vec<Effect>, Error>,
    after: StateView,
) -> bool {
    match outcome {
        Ok(effects) => {
            &&& !dispatch_rejects(notification, before)
            &&& effects@ == dispatch_effects(notification, before)
            &&& after == dispatch_state(notification, before)
        },
        Err(error) => {
            &&& dispatch_rejects(notification, before)
            &&& error == Error::WorkspaceIndexOutOfRange
            &&& after == before
        },
    }
}

/// Handles one notification: classifies it, routes it to its handler, and
/// returns the effects that the caller has to carry out, in order, before it
/// flushes and waits for the next notification.
pub fn dispatch(state: &mut State, notification: &Notification) -> (outcome: Result<
    Vec<Effect>,
    Error,
>)
    requires
        old(state).wf(),
    ensures
        final(state).wf(),
        handled(*notification, old(state)@, outcome, final(state)@),
{
    match *notification {
        Notification::KeyPressed { key_code, modifier_state } => on_key_press(
            state,
            key_code,
            modifier_state,
        ),
        Notification::ButtonPressed { child_window } => Ok(on_button_press(state, child_window)),
        Notification::WindowMapped { window } => Ok(on_map_notify(state, window)),
        Notification::WindowDestroyed { window } => Ok(on_destroy_notify(state, window)),
        Notification::Other => Ok(Vec::new()),
    }
}

/// Whatever notification is handled, the state stays well-formed: the cursor
/// names a workspace, no workspace holds a window twice, and every focused
/// window is on its workspace. No workspace comes or goes, the keybind table
/// and the screen stay as they are, and a request to stop is never taken back.
pub proof fn lemma_dispatch_keeps_frame(notification: Notification, state: StateView)
    requires
        state.wf(),
        !dispatch_rejects(notification, state),
    ensures
        dispatch_state(notification, state).wf(),
        dispatch_state(notification, state).workspaces.len() == state.workspaces.len(),
        dispatch_state(notification, state).keybinds == state.keybinds,
        dispatch_state(notification, state).should_exit == state.should_exit,
        dispatch_state(notification, state).screen_width == state.screen_width,
        dispatch_state(notification, state).screen_height == state.screen_height,
{
    match notification {
        Notification::KeyPressed { key_code, modifier_state } => {
            if let Some(keybind) = lookup(state.keybinds, key_code, modifier_state) {
                lemma_exec_keeps_frame(keybind.action, state);
            }
        },
        Notification::WindowMapped { window } => {
            lemma_add_keeps_wf(state.active(), window);
        },
        Notification::WindowDestroyed { window } => {
            lemma_remove_keeps_wf(state.active(), window);
        },
        _ => {},
    }
}

/// A window that is mapped is on the active workspace afterwards, on top if
/// it is new there and where it was if it is not, and has the focus.
pub proof fn lemma_mapped_window_is_focused(state: StateView, window: Window)
    requires
        state.wf(),
    ensures
        mapped_state(state, window).active().windows.contains(window),
        mapped_state(state, window).focused_window() == Some(window),
        !state.active().windows.contains(window) ==> mapped_state(state, window).active().windows
            == state.active().windows.push(window),
        state.active().windows.contains(window) ==> mapped_state(state, window).active().windows
            == state.active().windows,
{
    lemma_add_keeps_wf(state.active(), window);
}

/// A retiling leaves the windows of the active workspace side by side: each
/// of them is given its own rectangle of the partition of the screen, less the
/// border; no other geometry is set; and the rectangles of the partition
/// cover the screen without sharing a pixel.
pub proof fn lemma_retile_places_each_window(state: StateView)
    requires
        state.wf(),
    ensures
        forall|i: int|
            0 <= i < state.active().windows.len() ==> retile(state).contains(
                Effect::Send(
                    #[trigger] geometry_request(
                        state.active().windows[i],
                        partition_of(state.active().windows.len(), screen_of(state))[i],
                        BORDER_WIDTH,
                    ),
                ),
            ),
        forall|k: int|
            0 <= k < retile(state).len() && (#[trigger] retile(state)[k] matches Effect::Send(request)
                && request is ConfigureGeometry) ==> exists|i: int|
                0 <= i < state.active().windows.len() && retile(state)[k] == Effect::Send(
                    #[trigger] geometry_request(
                        state.active().windows[i],
                        partition_of(state.active().windows.len(), screen_of(state))[i],
                        BORDER_WIDTH,
                    ),
                ),
        state.active().windows.len() >= 1 ==> tiles_exactly(
            partition_of(state.active().windows.len(), screen_of(state)),
            screen_of(state),
        ),
{
    let windows = state.active().windows;
    let areas = partition_of(windows.len(), screen_of(state));
    let requests = resize_requests(windows, areas, BORDER_WIDTH, state.focused_window());
    lemma_resize_places_each_window(windows, areas, BORDER_WIDTH, state.focused_window());
    assert forall|i: int| 0 <= i < windows.len() implies retile(state).contains(
        Effect::Send(#[trigger] geometry_request(windows[i], areas[i], BORDER_WIDTH)),
    ) by {
        let k = requests.index_of(geometry_request(windows[i], areas[i], BORDER_WIDTH));
        assert(retile(state)[k] == Effect::Send(requests[k]));
    }
    assert forall|k: int|
        0 <= k < retile(state).len() && (#[trigger] retile(state)[k] matches Effect::Send(request)
            && request is ConfigureGeometry) implies exists|i: int|
        0 <= i < windows.len() && retile(state)[k] == Effect::Send(
            #[trigger] geometry_request(windows[i], areas[i], BORDER_WIDTH),
        ) by {
        assert(retile(state)[k] == Effect::Send(requests[k]));
        assert(requests[k] is ConfigureGeometry);
    }
    if windows.len() >= 1 {
        lemma_partition_tiles(windows.len(), screen_of(state));
    }
}

} // verus!

use crate::workspace::Window;
use vstd::prelude::*;

verus! {

/// A request to the display server.
#[derive(Clone, Copy, Debug, PartialEq, Eq)]
pub enum Request {
    /// Place `window` at (`x`, `y`) with the given inner size and border.
    ConfigureGeometry { window: Window, x: u32, y: u32, width: u32, height: u32, border_width: u32 },
    /// Paint the border of `window` in `color`.
    SetBorderColor { window: Window, color: u32 },
    /// Direct keyboard input to `window`.
    SetInputFocus { window: Window },
    /// Show `window`.
    MapWindow { window: Window },
    /// Hide `window`.
    UnmapWindow { window: Window },
    /// Ask the server to end the client that owns `window`.
    TerminateClient { window: Window },
    /// Have presses of `key_code` under `modifier_mask` delivered to the manager.
    GrabKey { key_code: u8, modifier_mask: u32 },
    /// Have presses of pointer button `button_index` delivered to the manager.
    GrabPointerButton { button_index: u8 },
    /// Select the notifications about the root window that the manager wants.
    SetRootEventInterest { mask: u32 },
}

/// Something the surrounding program has to do on behalf of the library.
/// Effects are handed out in sequences and are to be carried out in order.
#[derive(Clone, Copy, Debug, PartialEq, Eq)]
pub enum Effect {
    /// Queue `request` for the display server.
    Send(Request),
    /// Force the queued requests out to the display server.
    Flush,
    /// Launch the named program without arguments.
    Spawn(&'static str),
    /// Force the queued requests out to the display server, and only then
    /// have `window` change over to the workspace at `index`: the outcome of
    /// the flush goes to `finish_move`, with this window and this index.
    FlushThenMove { window: Window, index: usize },
}

/// The effects that queue each of `requests`, in order.
pub open spec fn sends(requests: Seq<Request>) -> Seq<Effect> {
    requests.map_values(|r: Request| Effect::Send(r))
}

/// The requests that hide each of `windows`, in order.
pub open spec fn unmaps(windows: Seq<Window>) -> Seq<Effect> {
    windows.map_values(|w: Window| Effect::Send(Request::UnmapWindow { window: w }))
}

/// The requests that show each of `windows`, in order.
pub open spec fn maps(windows: Seq<Window>) -> Seq<Effect> {
    windows.map_values(|w: Window| Effect::Send(Request::MapWindow { window: w }))
}

/// Appends to `effects` the requests that hide each of `windows`.
pub fn queue_unmaps(effects: &mut Vec<Effect>, windows: &Vec<Window>)
    ensures
        final(effects)@ == old(effects)@ + unmaps(windows@),
{
    let mut i: usize = 0;
    while i < windows.len()
        invariant
            i <= windows.len(),
            effects@ == old(effects)@ + unmaps(windows@.take(i as int)),
        decreases windows.len() - i,
    {
        effects.push(Effect::Send(Request::UnmapWindow { window: windows[i] }));
        i = i + 1;
    }
}

/// Appends to `effects` the requests that show each of `windows`.
pub fn queue_maps(effects: &mut Vec<Effect>, windows: &Vec<Window>)
    ensures
        final(effects)@ == old(effects)@ + maps(windows@),
{
    let mut i: usize = 0;
    while i < windows.len()
        invariant
            i <= windows.len(),
            effects@ == old(effects)@ + maps(windows@.take(i as int)),
        decreases windows.len() - i,
    {
        effects.push(Effect::Send(Request::MapWindow { window: windows[i] }));
        i = i + 1;
    }
}

/// Appends to `effects` the sending of each of `requests`.
pub fn queue_all(effects: &mut Vec<Effect>, requests: &Vec<Request>)
    ensures
        final(effects)@ == old(effects)@ + sends(requests@),
{
    let mut i: usize = 0;
    while i < requests.len()
        invariant
            i <= requests.len(),
            effects@ == old(effects)@ + sends(requests@.take(i as int)),
        decreases requests.len() - i,
    {
        effects.push(Effect::Send(requests[i]));
        i = i + 1;
    }
}

} // verus!

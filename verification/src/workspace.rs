use crate::geometry::Area;
use crate::layout::{lemma_tiling_len, partition_of, Layout};
use crate::request::Request;
use crate::state::State;
use vstd::prelude::*;

verus! {

/// The colour in which the borders of tiled windows are painted.
pub const BORDER_COLOR: u32 = 0xff0000;

/// A window handle: the resource identifier that the display server assigned.
/// The library stores, compares and forwards handles and never invents one.
#[derive(Clone, Copy, Debug, PartialEq, Eq, Hash, Structural)]
pub struct Window {
    pub id: u32,
}

/// What a workspace holds: its windows in stacking order, oldest first, and
/// the window that has the focus, if any.
#[verifier::ext_equal]
pub struct WorkspaceView {
    pub windows: Seq<Window>,
    pub focused_window: Option<Window>,
}

impl WorkspaceView {
    /// The workspace without windows.
    pub open spec fn empty() -> Self {
        WorkspaceView { windows: Seq::empty(), focused_window: None }
    }

    /// No handle occurs twice, and the focused window is one of the windows.
    pub open spec fn wf(self) -> bool {
        &&& self.windows.no_duplicates()
        &&& self.focused_window matches Some(w) ==> self.windows.contains(w)
    }

    /// The workspace after `window` was added: unchanged when it is already
    /// there, else with `window` on top of the stack.
    pub open spec fn add(self, window: Window) -> Self {
        if self.windows.contains(window) {
            self
        } else {
            WorkspaceView { windows: self.windows.push(window), focused_window: self.focused_window }
        }
    }

    /// The workspace after `window` was removed: unchanged when it is not
    /// there; else without it, the others in their order, and without focus
    /// if `window` had it.
    pub open spec fn remove(self, window: Window) -> Self {
        if self.windows.contains(window) {
            WorkspaceView {
                windows: self.windows.remove(self.windows.index_of(window)),
                focused_window: if self.focused_window == Some(window) {
                    None
                } else {
                    self.focused_window
                },
            }
        } else {
            self
        }
    }

    /// Whether the focus may be set to `target`: to nothing, or to a window of
    /// this workspace.
    pub open spec fn accepts_focus(self, target: Option<Window>) -> bool {
        target matches Some(w) ==> self.windows.contains(w)
    }

    /// The workspace after a request to focus `target`: granted where
    /// `accepts_focus` holds, ignored otherwise.
    pub open spec fn focus(self, target: Option<Window>) -> Self {
        if self.accepts_focus(target) {
            WorkspaceView { windows: self.windows, focused_window: target }
        } else {
            self
        }
    }

    /// The workspace after each handle of `handles` was added in turn.
    pub open spec fn add_all(self, handles: Seq<Window>) -> Self
        decreases handles.len(),
    {
        if handles.len() == 0 {
            self
        } else {
            self.add_all(handles.drop_last()).add(handles.last())
        }
    }
}

/// The request that gives `window` the room of `area` inside a border of
/// `border_width` pixels: `area` shrunk by the border.
pub open spec fn geometry_request(window: Window, area: Area, border_width: u32) -> Request {
    let inner = area.shrunk(border_width);
    Request::ConfigureGeometry {
        window,
        x: inner.x,
        y: inner.y,
        width: inner.width,
        height: inner.height,
        border_width,
    }
}

/// The requests that put `window` into `area`: its geometry, then the colour
/// of its border, then, if it is the focused window, the input focus.
pub open spec fn window_requests(
    window: Window,
    area: Area,
    border_width: u32,
    focused: Option<Window>,
) -> Seq<Request> {
    let placed = seq![
        geometry_request(window, area, border_width),
        Request::SetBorderColor { window, color: BORDER_COLOR },
    ];
    if focused == Some(window) {
        placed.push(Request::SetInputFocus { window })
    } else {
        placed
    }
}

/// The requests that put each of `windows` into the rectangle of `areas` at
/// its own position, in window order.
pub open spec fn resize_requests(
    windows: Seq<Window>,
    areas: Seq<Area>,
    border_width: u32,
    focused: Option<Window>,
) -> Seq<Request>
    decreases windows.len(),
{
    if windows.len() == 0 {
        Seq::empty()
    } else {
        resize_requests(windows.drop_last(), areas, border_width, focused) + window_requests(
            windows.last(),
            areas[windows.len() - 1],
            border_width,
            focused,
        )
    }
}

/// One virtual desktop: an ordered collection of window handles and an
/// optional focused window.
#[derive(Debug, PartialEq, Eq)]
pub struct Workspace {
    windows: Vec<Window>,
    focused_window: Option<Window>,
}

impl View for Workspace {
    type V = WorkspaceView;

    closed spec fn view(&self) -> WorkspaceView {
        WorkspaceView { windows: self.windows@, focused_window: self.focused_window }
    }
}

impl Clone for Workspace {
    fn clone(&self) -> (copy: Self)
        ensures
            copy@ == self@,
    {
        let windows = self.windows.clone();
        Workspace { windows, focused_window: self.focused_window }
    }
}

impl Workspace {
    /// The invariant of a workspace: see `WorkspaceView::wf`.
    pub open spec fn wf(&self) -> bool {
        self@.wf()
    }

    /// The workspace without windows.
    pub fn new() -> (workspace: Self)
        ensures
            workspace@ == WorkspaceView::empty(),
            workspace.wf(),
    {
        Self { windows: Vec::new(), focused_window: None }
    }

    /// The windows in stacking order, oldest first.
    pub fn windows(&self) -> (windows: &Vec<Window>)
        ensures
            windows@ == self@.windows,
    {
        &self.windows
    }

    /// The window of this workspace that has the focus, if any.
    pub fn focused_window(&self) -> (focused: Option<Window>)
        ensures
            focused == self@.focused_window,
    {
        self.focused_window
    }

    /// The position of `window` in the stack, if it is there.
    pub fn position(&self, window: Window) -> (position: Option<usize>)
        ensures
            match position {
                Some(i) => i < self@.windows.len() && self@.windows[i as int] == window && forall|
                    j: int,
                | 0 <= j < i ==> self@.windows[j] != window,
                None => !self@.windows.contains(window),
            },
    {
        let mut i: usize = 0;
        while i < self.windows.len()
            invariant
                i <= self.windows.len(),
                forall|j: int| 0 <= j < i ==> self.windows@[j] != window,
            decreases self.windows.len() - i,
        {
            if self.windows[i] == window {
                return Some(i);
            }
            i = i + 1;
        }
        None
    }

    /// Adds `window` on top of the stack; does nothing if it is already there.
    pub fn add_window(&mut self, window: Window)
        requires
            old(self).wf(),
        ensures
            final(self)@ == old(self)@.add(window),
            final(self).wf(),
    {
        if self.position(window).is_none() {
            self.windows.push(window);
            proof {
                lemma_add_keeps_wf(old(self)@, window);
            }
        }
    }

    /// Removes `window`; does nothing if it is not there. A removed window
    /// that had the focus leaves the workspace without focus: to pick the next
    /// focused window is left to the caller.
    pub fn remove_window(&mut self, window: Window)
        requires
            old(self).wf(),
        ensures
            final(self)@ == old(self)@.remove(window),
            final(self).wf(),
    {
        if let Some(idx) = self.position(window) {
            proof {
                lemma_remove_keeps_wf(self@, window);
            }
            if self.focused_window == Some(window) {
                self.focused_window = None;
            }
            self.windows.remove(idx);
        }
    }

    /// Gives the focus to `target` if it is `None` or a window of this
    /// workspace, and says whether it did.
    pub fn set_focused_window(&mut self, target: Option<Window>) -> (granted: bool)
        requires
            old(self).wf(),
        ensures
            granted == old(self)@.accepts_focus(target),
            final(self)@ == old(self)@.focus(target),
            final(self).wf(),
    {
        let granted = match target {
            Some(window) => self.position(window).is_some(),
            None => true,
        };
        if granted {
            self.focused_window = target;
        }
        granted
    }

    /// Tiles the windows of this workspace into a screen of `width` by
    /// `height` pixels and returns the requests that bring this about: for
    /// each window, in stacking order, its geometry inside a border of
    /// `border_width` pixels and the colour of that border, and for the window
    /// that `state` holds focused, the input focus.
    pub fn resize(
        &self,
        layout: Layout,
        width: u32,
        height: u32,
        border_width: u32,
        state: &State,
    ) -> (requests: Vec<Request>)
        requires
            state.wf(),
        ensures
            requests@ == resize_requests(
                self@.windows,
                partition_of(self@.windows.len(), (Area { x: 0, y: 0, width, height })),
                border_width,
                state@.focused_window(),
            ),
    {
        let count = self.windows.len();
        let areas = layout.partition(count, Area { x: 0, y: 0, width, height });
        let focused = state.focused_window();
        proof {
            lemma_tiling_len(count as nat, Area { x: 0, y: 0, width, height }, true);
        }
        let mut requests: Vec<Request> = Vec::new();
        let mut i: usize = 0;
        while i < count
            invariant
                i <= count,
                count == self.windows@.len(),
                count == areas@.len(),
                requests@ == resize_requests(
                    self.windows@.take(i as int),
                    areas@,
                    border_width,
                    focused,
                ),
            decreases count - i,
        {
            let window = self.windows[i];
            let inner = areas[i].shrink(border_width);
            requests.push(
                Request::ConfigureGeometry {
                    window,
                    x: inner.x,
                    y: inner.y,
                    width: inner.width,
                    height: inner.height,
                    border_width,
                },
            );
            requests.push(Request::SetBorderColor { window, color: BORDER_COLOR });
            if let Some(holder) = focused {
                if holder == window {
                    requests.push(Request::SetInputFocus { window });
                }
            }
            assert(self.windows@.take(i + 1).drop_last() == self.windows@.take(i as int));
            i = i + 1;
        }
        assert(self.windows@.take(count as int) == self.windows@);
        requests
    }
}

/// Adding a window keeps a workspace well-formed.
pub proof fn lemma_add_keeps_wf(workspace: WorkspaceView, window: Window)
    requires
        workspace.wf(),
    ensures
        workspace.add(window).wf(),
        workspace.add(window).windows.contains(window),
{
    let after = workspace.add(window);
    if !workspace.windows.contains(window) {
        assert(after.windows.last() == window);
        if let Some(focused) = workspace.focused_window {
            let at = workspace.windows.index_of(focused);
            assert(after.windows[at] == focused);
        }
    }
}

/// Removing a window keeps a workspace well-formed and takes the window out.
pub proof fn lemma_remove_keeps_wf(workspace: WorkspaceView, window: Window)
    requires
        workspace.wf(),
    ensures
        workspace.remove(window).wf(),
        !workspace.remove(window).windows.contains(window),
        forall|other: Window|
            other != window ==> (workspace.remove(window).windows.contains(other)
                <==> workspace.windows.contains(other)),
{
    let after = workspace.remove(window);
    if workspace.windows.contains(window) {
        let at = workspace.windows.index_of(window);
        assert forall|i: int| 0 <= i < after.windows.len() implies #[trigger] after.windows[i]
            == workspace.windows[if i < at { i } else { i + 1 }] by {}
        assert forall|other: Window|
            other != window && workspace.windows.contains(other) implies after.windows.contains(
            other,
        ) by {
            let k = workspace.windows.index_of(other);
            if k < at {
                assert(after.windows[k] == other);
            } else {
                assert(after.windows[k - 1] == other);
            }
        }
    }
}

/// Adding a window a second time changes nothing.
pub proof fn lemma_add_is_idempotent(workspace: WorkspaceView, window: Window)
    ensures
        workspace.add(window).add(window) == workspace.add(window),
{
    if !workspace.windows.contains(window) {
        assert(workspace.windows.push(window).last() == window);
    }
}

/// Whether `window` is on a workspace after handles were added to it.
proof fn lemma_add_all_membership(start: WorkspaceView, handles: Seq<Window>, window: Window)
    requires
        start.wf(),
    ensures
        start.add_all(handles).wf(),
        start.add_all(handles).windows.contains(window) <==> start.windows.contains(window)
            || handles.contains(window),
        start.windows.is_prefix_of(start.add_all(handles).windows),
        start.add_all(handles).focused_window == start.focused_window,
    decreases handles.len(),
{
    if handles.len() > 0 {
        let earlier = start.add_all(handles.drop_last());
        let after = start.add_all(handles);
        let newest = handles.last();
        lemma_add_all_membership(start, handles.drop_last(), window);
        lemma_add_keeps_wf(earlier, newest);
        if window == newest {
            assert(handles[handles.len() - 1] == window);
        } else {
            if after.windows.contains(window) {
                let at = after.windows.index_of(window);
                assert(earlier.windows[at] == window);
            }
            if handles.contains(window) {
                let at = handles.index_of(window);
                assert(handles.drop_last()[at] == window);
            }
        }
        if handles.drop_last().contains(window) {
            let at = handles.drop_last().index_of(window);
            assert(handles[at] == window);
        }
        if earlier.windows.contains(window) {
            let at = earlier.windows.index_of(window);
            assert(after.windows[at] == window);
        }
    }
}

/// However often and in whatever order handles are added, the workspace holds
/// each of them exactly once: it stays free of duplicates, holds every handle
/// that was added, and holds nothing else that it did not hold before. The
/// windows that it held before keep their places.
pub proof fn lemma_add_all_holds_each_once(start: WorkspaceView, handles: Seq<Window>)
    requires
        start.wf(),
    ensures
        start.add_all(handles).wf(),
        start.add_all(handles).windows.no_duplicates(),
        forall|window: Window|
            #![trigger start.add_all(handles).windows.contains(window)]
            #![trigger handles.contains(window)]
            start.add_all(handles).windows.contains(window) <==> start.windows.contains(window)
                || handles.contains(window),
        start.windows.is_prefix_of(start.add_all(handles).windows),
        start.add_all(handles).focused_window == start.focused_window,
{
    assert forall|window: Window|
        #![trigger start.add_all(handles).windows.contains(window)]
        #![trigger handles.contains(window)]
        start.add_all(handles).windows.contains(window) <==> start.windows.contains(window)
            || handles.contains(window) by {
        lemma_add_all_membership(start, handles, window);
    }
    lemma_add_all_membership(start, handles, Window { id: 0 });
}

/// A window that is removed and added again is back, on top of the stack; the
/// other windows keep their order below it. Removing a window that is not
/// there changes nothing.
pub proof fn lemma_remove_then_add(workspace: WorkspaceView, window: Window)
    requires
        workspace.wf(),
    ensures
        workspace.remove(window).add(window).wf(),
        workspace.remove(window).add(window).windows == workspace.remove(window).windows.push(
            window,
        ),
        workspace.remove(window).add(window).windows.last() == window,
        !workspace.windows.contains(window) ==> workspace.remove(window) == workspace,
{
    lemma_remove_keeps_wf(workspace, window);
    lemma_add_keeps_wf(workspace.remove(window), window);
}

/// A resize asks for two things for each window, its geometry and the colour
/// of its border, and for the input focus once if the focused window is among
/// the windows, and not at all if it is not.
pub proof fn lemma_resize_requests_len(
    windows: Seq<Window>,
    areas: Seq<Area>,
    border_width: u32,
    focused: Option<Window>,
)
    requires
        windows.no_duplicates(),
    ensures
        resize_requests(windows, areas, border_width, focused).len() == 2 * windows.len() + (if focused
            matches Some(w) && windows.contains(w) {
            1int
        } else {
            0int
        }),
    decreases windows.len(),
{
    if windows.len() > 0 {
        let earlier = windows.drop_last();
        lemma_resize_requests_len(earlier, areas, border_width, focused);
        if let Some(holder) = focused {
            if earlier.contains(holder) {
                let at = earlier.index_of(holder);
                assert(windows[at] == holder);
                assert(windows.last() != holder);
            } else if windows.contains(holder) {
                let at = windows.index_of(holder);
                if at < earlier.len() {
                    assert(earlier[at] == holder);
                }
                assert(windows.last() == holder);
            }
        }
    }
}

/// A resize gives every window the rectangle at its own position, and sets
/// no geometry but these: the geometry request of each window is among the
/// requests, and every geometry request among them is that of a window and
/// its rectangle.
pub proof fn lemma_resize_places_each_window(
    windows: Seq<Window>,
    areas: Seq<Area>,
    border_width: u32,
    focused: Option<Window>,
)
    ensures
        forall|i: int|
            0 <= i < windows.len() ==> resize_requests(windows, areas, border_width, focused).contains(
                #[trigger] geometry_request(windows[i], areas[i], border_width),
            ),
        forall|k: int|
            0 <= k < resize_requests(windows, areas, border_width, focused).len() && (
            #[trigger] resize_requests(windows, areas, border_width, focused)[k])
                is ConfigureGeometry ==> exists|i: int|
                0 <= i < windows.len() && resize_requests(windows, areas, border_width, focused)[k]
                    == #[trigger] geometry_request(windows[i], areas[i], border_width),
    decreases windows.len(),
{
    let requests = resize_requests(windows, areas, border_width, focused);
    if windows.len() > 0 {
        let earlier = windows.drop_last();
        let before = resize_requests(earlier, areas, border_width, focused);
        let last = windows.len() - 1;
        lemma_resize_places_each_window(earlier, areas, border_width, focused);
        assert forall|i: int| 0 <= i < windows.len() implies requests.contains(
            #[trigger] geometry_request(windows[i], areas[i], border_width),
        ) by {
            if i < last {
                assert(earlier[i] == windows[i]);
                let k = before.index_of(geometry_request(earlier[i], areas[i], border_width));
                assert(requests[k] == before[k]);
            } else {
                assert(requests[before.len() as int] == geometry_request(
                    windows[last],
                    areas[last],
                    border_width,
                ));
            }
        }
        assert forall|k: int|
            0 <= k < requests.len() && (#[trigger] requests[k]) is ConfigureGeometry implies exists|
            i: int,
        |
            0 <= i < windows.len() && requests[k] == #[trigger] geometry_request(
                windows[i],
                areas[i],
                border_width,
            ) by {
            if k < before.len() {
                assert(requests[k] == before[k]);
                let i = choose|i: int|
                    0 <= i < earlier.len() && before[k] == #[trigger] geometry_request(
                        earlier[i],
                        areas[i],
                        border_width,
                    );
                assert(earlier[i] == windows[i]);
            } else {
                assert(requests[k] == window_requests(
                    windows[last],
                    areas[last],
                    border_width,
                    focused,
                )[k - before.len()]);
                assert(requests[k] == geometry_request(windows[last], areas[last], border_width));
            }
        }
    }
}

} // verus!

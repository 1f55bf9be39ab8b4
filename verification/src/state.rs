use crate::action::Keybind;
use crate::config::{default_keybinds, distinct_bindings, Config};
use crate::error::Error;
use crate::workspace::{Window, Workspace, WorkspaceView};
use vstd::prelude::*;

verus! {

/// The number of flushes in a row that may fail before the connection is
/// given up as lost.
pub const FLUSH_FAILURE_LIMIT: u32 = 3;

/// What the manager state holds.
#[verifier::ext_equal]
pub struct StateView {
    /// The keybind table, in lookup order.
    pub keybinds: Seq<Keybind>,
    /// Whether the event loop has been asked to stop.
    pub should_exit: bool,
    /// The number of the screen that is managed.
    pub screen_num: i32,
    /// The width of that screen in pixels.
    pub screen_width: u16,
    /// The height of that screen in pixels.
    pub screen_height: u16,
    /// The workspaces, one for each virtual desktop.
    pub workspaces: Seq<WorkspaceView>,
    /// The index of the workspace that is shown.
    pub current_workspace: int,
    /// The number of flushes that failed since the last one that succeeded.
    pub failed_flushes: int,
}

impl StateView {
    /// The active index names a workspace, every workspace is well-formed, the
    /// keybind table holds no duplicate, and the count of failed flushes is
    /// below the limit unless the loop is stopping.
    pub open spec fn wf(self) -> bool {
        &&& 0 <= self.current_workspace < self.workspaces.len()
        &&& forall|i: int| 0 <= i < self.workspaces.len() ==> (#[trigger] self.workspaces[i]).wf()
        &&& distinct_bindings(self.keybinds)
        &&& 0 <= self.failed_flushes <= FLUSH_FAILURE_LIMIT
        &&& self.failed_flushes == FLUSH_FAILURE_LIMIT ==> self.should_exit
    }

    /// The workspace that is shown.
    pub open spec fn active(self) -> WorkspaceView {
        self.workspaces[self.current_workspace]
    }

    /// The window that has the focus: the focused window of the active
    /// workspace.
    pub open spec fn focused_window(self) -> Option<Window> {
        self.active().focused_window
    }

    /// The state with the workspace at `index` replaced.
    pub open spec fn with_workspace(self, index: int, workspace: WorkspaceView) -> Self {
        StateView { workspaces: self.workspaces.update(index, workspace), ..self }
    }

    /// The state with the active workspace replaced.
    pub open spec fn with_active(self, workspace: WorkspaceView) -> Self {
        self.with_workspace(self.current_workspace, workspace)
    }

    /// The state with the workspace at `index` shown.
    pub open spec fn switched_to(self, index: int) -> Self {
        StateView { current_workspace: index, ..self }
    }

    /// The state with the event loop asked to stop.
    pub open spec fn exiting(self) -> Self {
        StateView { should_exit: true, ..self }
    }

    /// The state after `error` was reported: stopping if the error is fatal,
    /// unchanged otherwise.
    pub open spec fn after_error(self, error: Error) -> Self {
        if error.fatal() {
            self.exiting()
        } else {
            self
        }
    }

    /// The state after a flush that succeeded (`sent`) or failed.
    pub open spec fn after_flush(self, sent: bool) -> Self {
        if sent {
            StateView { failed_flushes: 0, ..self }
        } else if self.failed_flushes + 1 >= FLUSH_FAILURE_LIMIT {
            StateView { failed_flushes: FLUSH_FAILURE_LIMIT as int, should_exit: true, ..self }
        } else {
            StateView { failed_flushes: self.failed_flushes + 1, ..self }
        }
    }

    /// What a flush that succeeded (`sent`) or failed amounts to: nothing, a
    /// failed flush, or, at the limit, the loss of the connection.
    pub open spec fn flush_error(self, sent: bool) -> Option<Error> {
        if sent {
            None
        } else if self.failed_flushes + 1 >= FLUSH_FAILURE_LIMIT {
            Some(Error::ConnectionError)
        } else {
            Some(Error::RequestFlushError)
        }
    }

    /// The state at startup: `workspace_count` empty workspaces, the first of
    /// them shown.
    pub open spec fn initial(
        keybinds: Seq<Keybind>,
        screen_width: u16,
        screen_height: u16,
        screen_num: i32,
        workspace_count: nat,
    ) -> Self {
        StateView {
            keybinds,
            should_exit: false,
            screen_num,
            screen_width,
            screen_height,
            workspaces: Seq::new(workspace_count, |i: int| WorkspaceView::empty()),
            current_workspace: 0,
            failed_flushes: 0,
        }
    }
}

/// The state of the manager: the workspaces, the cursor to the one that is
/// shown, the keybind table, the geometry of the screen, and whether the
/// event loop is to stop.
#[derive(Debug, PartialEq, Eq)]
pub struct State {
    config: Config,
    should_exit: bool,
    screen_num: i32,
    screen_width: u16,
    screen_height: u16,
    workspaces: Vec<Workspace>,
    current_workspace: usize,
    failed_flushes: u32,
}

impl View for State {
    type V = StateView;

    closed spec fn view(&self) -> StateView {
        StateView {
            keybinds: self.config@,
            should_exit: self.should_exit,
            screen_num: self.screen_num,
            screen_width: self.screen_width,
            screen_height: self.screen_height,
            workspaces: self.workspaces@.map_values(|w: Workspace| w@),
            current_workspace: self.current_workspace as int,
            failed_flushes: self.failed_flushes as int,
        }
    }
}

impl Clone for State {
    fn clone(&self) -> (copy: Self)
        ensures
            copy@ == self@,
    {
        let workspaces = self.workspaces.clone();
        let copy = State {
            config: self.config.clone(),
            should_exit: self.should_exit,
            screen_num: self.screen_num,
            screen_width: self.screen_width,
            screen_height: self.screen_height,
            workspaces,
            current_workspace: self.current_workspace,
            failed_flushes: self.failed_flushes,
        };
        copy
    }
}

impl State {
    /// The invariant of the state: see `StateView::wf`.
    pub open spec fn wf(&self) -> bool {
        self@.wf()
    }

    /// The state at startup, with the built-in keybind table: the screen
    /// measures `screen_width` by `screen_height` pixels, and there are
    /// `workspace_count` workspaces.
    pub fn new(screen_width: u16, screen_height: u16, screen_num: i32, workspace_count: u32) -> (state:
        Self)
        requires
            workspace_count >= 1,
        ensures
            state@ == StateView::initial(
                default_keybinds(),
                screen_width,
                screen_height,
                screen_num,
                workspace_count as nat,
            ),
            state.wf(),
    {
        Self::with_config(Config::default(), screen_width, screen_height, screen_num, workspace_count)
    }

    /// The state at startup, with the keybind table `config`.
    pub fn with_config(
        config: Config,
        screen_width: u16,
        screen_height: u16,
        screen_num: i32,
        workspace_count: u32,
    ) -> (state: Self)
        requires
            config.wf(),
            workspace_count >= 1,
        ensures
            state@ == StateView::initial(
                config@,
                screen_width,
                screen_height,
                screen_num,
                workspace_count as nat,
            ),
            state.wf(),
    {
        let mut workspaces: Vec<Workspace> = Vec::new();
        let mut made: u32 = 0;
        while made < workspace_count
            invariant
                made <= workspace_count,
                workspaces@.len() == made,
                forall|i: int| 0 <= i < made ==> (#[trigger] workspaces@[i])@ == WorkspaceView::empty(),
            decreases workspace_count - made,
        {
            workspaces.push(Workspace::new());
            made = made + 1;
        }
        let state = Self {
            config,
            should_exit: false,
            screen_num,
            screen_width,
            screen_height,
            workspaces,
            current_workspace: 0,
            failed_flushes: 0,
        };
        assert(state@.workspaces =~= Seq::new(
            workspace_count as nat,
            |i: int| WorkspaceView::empty(),
        ));
        state
    }

    /// The keybind table.
    pub fn config(&self) -> (config: &Config)
        ensures
            config@ == self@.keybinds,
    {
        &self.config
    }

    /// The workspace that is shown.
    pub fn current_workspace(&self) -> (workspace: &Workspace)
        requires
            self.wf(),
        ensures
            workspace@ == self@.active(),
    {
        &self.workspaces[self.current_workspace]
    }

    /// The workspace that is shown, to be changed in place.
    pub fn current_workspace_mut(&mut self) -> (workspace: &mut Workspace)
        requires
            old(self).wf(),
        ensures
            workspace@ == old(self)@.active(),
            final(self)@ =~= old(self)@.with_active(final(workspace)@),
    {
        let at = self.current_workspace;
        &mut self.workspaces[at]
    }

    /// The workspace at `index`, to be changed in place.
    pub fn workspace_mut(&mut self, index: usize) -> (workspace: &mut Workspace)
        requires
            index < old(self)@.workspaces.len(),
        ensures
            workspace@ == old(self)@.workspaces[index as int],
            final(self)@ =~= old(self)@.with_workspace(index as int, final(workspace)@),
    {
        &mut self.workspaces[index]
    }

    /// The index of the workspace that is shown.
    pub fn current_workspace_idx(&self) -> (index: usize)
        ensures
            index == self@.current_workspace,
    {
        self.current_workspace
    }

    /// Moves the cursor to the workspace at `new_value`. An index that names
    /// no workspace is refused and leaves the state as it was.
    pub fn set_current_workspace(&mut self, new_value: usize) -> (outcome: Result<(), Error>)
        requires
            old(self).wf(),
        ensures
            final(self).wf(),
            new_value < old(self)@.workspaces.len() ==> outcome is Ok && final(self)@ == old(
                self,
            )@.switched_to(new_value as int),
            new_value >= old(self)@.workspaces.len() ==> outcome == Err::<(), Error>(
                Error::WorkspaceIndexOutOfRange,
            ) && final(self)@ == old(self)@,
    {
        if new_value < self.workspaces.len() {
            self.current_workspace = new_value;
            Ok(())
        } else {
            Err(Error::WorkspaceIndexOutOfRange)
        }
    }

    /// The number of the screen that is managed.
    pub fn screen_num(&self) -> (screen_num: i32)
        ensures
            screen_num == self@.screen_num,
    {
        self.screen_num
    }

    /// Whether the event loop is to stop.
    pub fn should_exit(&self) -> (should_exit: bool)
        ensures
            should_exit == self@.should_exit,
    {
        self.should_exit
    }

    /// The window that has the focus, if any.
    pub fn focused_window(&self) -> (focused: Option<Window>)
        requires
            self.wf(),
        ensures
            focused == self@.focused_window(),
    {
        self.workspaces[self.current_workspace].focused_window()
    }

    /// Gives the focus to `target` if it is `None` or a window of the active
    /// workspace, and says whether it did.
    pub fn set_focused_window(&mut self, target: Option<Window>) -> (granted: bool)
        requires
            old(self).wf(),
        ensures
            final(self).wf(),
            granted == old(self)@.active().accepts_focus(target),
            final(self)@ == old(self)@.with_active(old(self)@.active().focus(target)),
    {
        let at = self.current_workspace;
        let granted = self.workspaces[at].set_focused_window(target);
        assert(self@ =~= old(self)@.with_active(old(self)@.active().focus(target)));
        granted
    }

    /// All workspaces, in index order.
    pub fn workspaces(&self) -> (workspaces: &Vec<Workspace>)
        ensures
            workspaces@.len() == self@.workspaces.len(),
            forall|i: int|
                0 <= i < workspaces@.len() ==> (#[trigger] workspaces@[i])@ == self@.workspaces[i],
    {
        &self.workspaces
    }

    /// The width and height of the screen in pixels.
    pub fn screen_wh(&self) -> (size: (u16, u16))
        ensures
            size == (self@.screen_width, self@.screen_height),
    {
        (self.screen_width, self.screen_height)
    }

    /// Asks the event loop to stop. There is no way back.
    pub fn exit(&mut self)
        ensures
            final(self)@ == old(self)@.exiting(),
    {
        self.should_exit = true;
    }

    /// Takes note of an error that came up while a notification was handled
    /// or its effects were carried out. A fatal error stops the event loop.
    pub fn report_error(&mut self, error: Error)
        ensures
            final(self)@ == old(self)@.after_error(error),
    {
        if error.is_fatal() {
            self.should_exit = true;
        }
    }

    /// Takes note of how the flush that ends an iteration of the event loop
    /// went, and returns the error to log, if any. A failed flush is a
    /// `RequestFlushError` until `FLUSH_FAILURE_LIMIT` flushes have failed in
    /// a row: the last of them is a `ConnectionError` and stops the loop.
    pub fn record_flush(&mut self, sent: bool) -> (error: Option<Error>)
        requires
            old(self).wf(),
        ensures
            final(self).wf(),
            final(self)@ == old(self)@.after_flush(sent),
            error == old(self)@.flush_error(sent),
    {
        if sent {
            self.failed_flushes = 0;
            None
        } else if self.failed_flushes + 1 >= FLUSH_FAILURE_LIMIT {
            self.failed_flushes = FLUSH_FAILURE_LIMIT;
            self.should_exit = true;
            Some(Error::ConnectionError)
        } else {
            self.failed_flushes = self.failed_flushes + 1;
            Some(Error::RequestFlushError)
        }
    }
}

/// Once the event loop has been asked to stop, no report of an error and no
/// outcome of a flush takes the request back; and both leave a well-formed
/// state well-formed.
pub proof fn lemma_exit_is_final(state: StateView, error: Error, sent: bool)
    requires
        state.wf(),
    ensures
        state.exiting().should_exit,
        state.should_exit ==> state.after_error(error).should_exit,
        state.should_exit ==> state.after_flush(sent).should_exit,
        error.fatal() ==> state.after_error(error).should_exit,
        state.exiting().wf(),
        state.after_error(error).wf(),
        state.after_flush(sent).wf(),
{
}

} // verus!

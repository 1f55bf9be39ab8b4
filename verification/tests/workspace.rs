use winister::layout::Layout;
use winister::request::Request;
use winister::state::State;
use winister::workspace::{Window, Workspace, BORDER_COLOR};

fn win(id: u32) -> Window {
    Window { id }
}

fn workspace_of(ids: &[u32]) -> Workspace {
    let mut workspace = Workspace::new();
    for id in ids {
        workspace.add_window(win(*id));
    }
    workspace
}

fn configure(id: u32, x: u32, y: u32, width: u32, height: u32, border_width: u32) -> Request {
    Request::ConfigureGeometry { window: win(id), x, y, width, height, border_width }
}

fn border(id: u32) -> Request {
    Request::SetBorderColor { window: win(id), color: 0xff0000 }
}

#[test]
fn a_new_workspace_is_empty() {
    let workspace = Workspace::new();
    assert!(workspace.windows().is_empty());
    assert_eq!(workspace.focused_window(), None);
    assert_eq!(workspace.position(win(1)), None);
}

#[test]
fn added_windows_stack_in_order() {
    let workspace = workspace_of(&[5, 3, 9]);
    assert_eq!(workspace.windows(), &vec![win(5), win(3), win(9)]);
    assert_eq!(workspace.position(win(5)), Some(0));
    assert_eq!(workspace.position(win(9)), Some(2));
    assert_eq!(workspace.position(win(4)), None);
}

#[test]
fn adding_a_window_twice_keeps_one() {
    let mut workspace = workspace_of(&[5, 3]);
    workspace.add_window(win(5));
    assert_eq!(workspace.windows(), &vec![win(5), win(3)]);
    workspace.add_window(win(3));
    workspace.add_window(win(3));
    assert_eq!(workspace.windows(), &vec![win(5), win(3)]);
}

#[test]
fn each_distinct_handle_is_held_once() {
    let workspace = workspace_of(&[1, 2, 1, 3, 2, 2, 4, 1, 0, u32::MAX, 0]);
    assert_eq!(
        workspace.windows(),
        &vec![win(1), win(2), win(3), win(4), win(0), win(u32::MAX)]
    );
}

#[test]
fn removing_a_window_keeps_the_order_of_the_rest() {
    let mut workspace = workspace_of(&[1, 2, 3, 4]);
    workspace.remove_window(win(2));
    assert_eq!(workspace.windows(), &vec![win(1), win(3), win(4)]);
    workspace.remove_window(win(4));
    assert_eq!(workspace.windows(), &vec![win(1), win(3)]);
    workspace.remove_window(win(1));
    workspace.remove_window(win(3));
    assert!(workspace.windows().is_empty());
}

#[test]
fn removing_an_absent_window_changes_nothing() {
    let mut workspace = workspace_of(&[1, 2, 3]);
    assert!(workspace.set_focused_window(Some(win(2))));
    let before = workspace.clone();
    workspace.remove_window(win(7));
    assert_eq!(workspace, before);
    let mut empty = Workspace::new();
    empty.remove_window(win(7));
    assert_eq!(empty, Workspace::new());
}

#[test]
fn a_window_removed_and_added_again_is_on_top() {
    let mut workspace = workspace_of(&[1, 2, 3]);
    workspace.remove_window(win(1));
    workspace.add_window(win(1));
    assert_eq!(workspace.windows(), &vec![win(2), win(3), win(1)]);
    workspace.remove_window(win(1));
    workspace.add_window(win(1));
    assert_eq!(workspace.windows(), &vec![win(2), win(3), win(1)]);
    workspace.remove_window(win(8));
    workspace.add_window(win(8));
    assert_eq!(workspace.windows(), &vec![win(2), win(3), win(1), win(8)]);
}

#[test]
fn focus_goes_to_windows_of_the_workspace_only() {
    let mut workspace = workspace_of(&[1, 2]);
    assert!(workspace.set_focused_window(Some(win(2))));
    assert_eq!(workspace.focused_window(), Some(win(2)));
    assert!(!workspace.set_focused_window(Some(win(3))));
    assert_eq!(workspace.focused_window(), Some(win(2)));
    assert!(workspace.set_focused_window(None));
    assert_eq!(workspace.focused_window(), None);
    let mut empty = Workspace::new();
    assert!(!empty.set_focused_window(Some(win(1))));
    assert_eq!(empty.focused_window(), None);
}

#[test]
fn removing_the_focused_window_clears_the_focus() {
    let mut workspace = workspace_of(&[1, 2, 3]);
    workspace.set_focused_window(Some(win(2)));
    workspace.remove_window(win(3));
    assert_eq!(workspace.focused_window(), Some(win(2)));
    workspace.remove_window(win(2));
    assert_eq!(workspace.focused_window(), None);
    assert_eq!(workspace.windows(), &vec![win(1)]);
}

#[test]
fn adding_a_window_leaves_the_focus() {
    let mut workspace = workspace_of(&[1, 2]);
    workspace.set_focused_window(Some(win(1)));
    workspace.add_window(win(3));
    workspace.add_window(win(1));
    assert_eq!(workspace.focused_window(), Some(win(1)));
}

#[test]
fn resize_of_an_empty_workspace_asks_for_nothing() {
    let state = State::new(100, 100, 0, 10);
    assert_eq!(Workspace::new().resize(Layout::Winister, 100, 100, 2, &state), vec![]);
}

#[test]
fn resize_places_each_window_in_its_rectangle() {
    let state = State::new(100, 100, 0, 10);
    let workspace = workspace_of(&[7, 8, 9]);
    assert_eq!(
        workspace.resize(Layout::Winister, 100, 60, 2, &state),
        vec![
            configure(7, 0, 0, 96, 26, 2),
            border(7),
            configure(8, 0, 30, 46, 26, 2),
            border(8),
            configure(9, 50, 30, 46, 26, 2),
            border(9),
        ]
    );
}

#[test]
fn resize_without_border_fills_the_rectangles() {
    let state = State::new(100, 100, 0, 10);
    let workspace = workspace_of(&[7, 8]);
    assert_eq!(
        workspace.resize(Layout::Bsp, 101, 101, 0, &state),
        vec![configure(7, 0, 0, 101, 50, 0), border(7), configure(8, 0, 50, 101, 51, 0), border(8)]
    );
}

#[test]
fn resize_with_a_border_that_does_not_fit() {
    let state = State::new(100, 100, 0, 10);
    let workspace = workspace_of(&[7, 8]);
    assert_eq!(
        workspace.resize(Layout::Winister, 100, 7, 2, &state),
        vec![configure(7, 0, 0, 96, 0, 2), border(7), configure(8, 0, 3, 96, 0, 2), border(8)]
    );
}

#[test]
fn resize_focuses_the_focused_window_once() {
    let mut state = State::new(100, 100, 0, 10);
    state.current_workspace_mut().add_window(win(7));
    state.current_workspace_mut().add_window(win(8));
    assert!(state.set_focused_window(Some(win(7))));
    let requests = state.current_workspace().resize(Layout::Winister, 100, 100, 2, &state);
    assert_eq!(
        requests,
        vec![
            configure(7, 0, 0, 96, 46, 2),
            border(7),
            Request::SetInputFocus { window: win(7) },
            configure(8, 0, 50, 96, 46, 2),
            border(8),
        ]
    );
    assert!(state.set_focused_window(Some(win(8))));
    let requests = state.current_workspace().resize(Layout::Winister, 100, 100, 2, &state);
    assert_eq!(requests.len(), 5);
    assert_eq!(requests[4], Request::SetInputFocus { window: win(8) });
}

#[test]
fn resize_does_not_focus_a_window_of_another_workspace() {
    let mut state = State::new(100, 100, 0, 10);
    state.current_workspace_mut().add_window(win(7));
    state.set_focused_window(Some(win(7)));
    let other = workspace_of(&[1, 2]);
    let requests = other.resize(Layout::Winister, 10, 10, 1, &state);
    assert_eq!(
        requests,
        vec![configure(1, 0, 0, 8, 3, 1), border(1), configure(2, 0, 5, 8, 3, 1), border(2)]
    );
    let same = workspace_of(&[1, 7]);
    let requests = same.resize(Layout::Winister, 10, 10, 1, &state);
    assert_eq!(requests.len(), 5);
    assert_eq!(requests[4], Request::SetInputFocus { window: win(7) });
}

#[test]
fn the_border_is_red() {
    assert_eq!(BORDER_COLOR, 0xff0000);
}

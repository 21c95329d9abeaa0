use vstd::prelude::*;
use vstd::string::{StrSliceExecFns, StringExecFns};

verus! {

/// Whether the developer-tools panel of the main display surface is shown.
#[derive(Clone, Copy, Debug, PartialEq, Eq, Structural)]
pub enum DevtoolsState {
    Closed,
    Open,
}

/// What the host has to do in answer to a menu activation.
#[derive(Clone, Copy, Debug, PartialEq, Eq, Structural)]
pub enum MenuAction {
    /// The menu id is not one this bridge handles: do nothing.
    Ignore,
    /// Show the developer tools of the main surface.
    OpenDevtools,
    /// Hide the developer tools of the main surface.
    CloseDevtools,
    /// The main surface could not be found: write a diagnostic, change nothing.
    ReportSurfaceMissing,
}

/// One entry of a menu: the id reported when it is activated, and its label.
pub struct MenuEntry {
    pub id: String,
    pub label: String,
}

/// A titled submenu of the menu bar.
pub struct Submenu {
    pub title: String,
    pub entries: Vec<MenuEntry>,
}

/// Identifier of the menu item that toggles the developer tools.
pub open spec fn toggle_devtools_id() -> Seq<char> {
    "toggle-devtools"@
}

/// The state a toggle moves to.
pub open spec fn flipped(s: DevtoolsState) -> DevtoolsState {
    match s {
        DevtoolsState::Closed => DevtoolsState::Open,
        DevtoolsState::Open => DevtoolsState::Closed,
    }
}

/// The action for activating menu item `id`, given what the lookup of the main
/// surface found: `None` when there is no such surface, else its devtools state.
pub open spec fn action_for(id: Seq<char>, surface: Option<DevtoolsState>) -> MenuAction {
    if id != toggle_devtools_id() {
        MenuAction::Ignore
    } else {
        match surface {
            None => MenuAction::ReportSurfaceMissing,
            Some(DevtoolsState::Open) => MenuAction::CloseDevtools,
            Some(DevtoolsState::Closed) => MenuAction::OpenDevtools,
        }
    }
}

/// What the lookup of the main surface finds once `action` has been carried out
/// on it.
pub open spec fn state_after(surface: Option<DevtoolsState>, action: MenuAction) -> Option<
    DevtoolsState,
> {
    match surface {
        None => None,
        Some(s) => match action {
            MenuAction::OpenDevtools => Some(DevtoolsState::Open),
            MenuAction::CloseDevtools => Some(DevtoolsState::Closed),
            _ => Some(s),
        },
    }
}

/// The "View" submenu, whose single entry toggles the developer tools.
pub fn view_menu() -> (m: Submenu)
    ensures
        m.title@ == "View"@,
        m.entries@.len() == 1,
        m.entries@[0].id@ == toggle_devtools_id(),
        m.entries@[0].label@ == "Toggle Devtools"@,
{
    let toggle = MenuEntry {
        id: String::from_str("toggle-devtools"),
        label: String::from_str("Toggle Devtools"),
    };
    let mut entries: Vec<MenuEntry> = Vec::new();
    entries.push(toggle);
    Submenu { title: String::from_str("View"), entries }
}

/// Whether `id` names the devtools toggle.
pub fn is_toggle_devtools(id: &str) -> (r: bool)
    ensures
        r == (id@ == toggle_devtools_id()),
{
    let target = "toggle-devtools";
    let n = id.unicode_len();
    if n != target.unicode_len() {
        return false;
    }
    let mut i: usize = 0;
    while i < n
        invariant
            n == id@.len(),
            n == target@.len(),
            target@ == toggle_devtools_id(),
            i <= n,
            forall|j: int| 0 <= j < i ==> id@[j] == target@[j],
        decreases n - i,
    {
        if id.get_char(i) != target.get_char(i) {
            return false;
        }
        i += 1;
    }
    assert(id@ =~= target@);
    true
}

/// Decides what a menu activation asks of the host. The devtools state is read
/// from the surface at each event and never kept here, so a panel closed by
/// other means is still toggled correctly.
pub fn menu_action(id: &str, surface: Option<DevtoolsState>) -> (a: MenuAction)
    ensures
        a == action_for(id@, surface),
{
    if !is_toggle_devtools(id) {
        MenuAction::Ignore
    } else {
        match surface {
            None => MenuAction::ReportSurfaceMissing,
            Some(DevtoolsState::Open) => MenuAction::CloseDevtools,
            Some(DevtoolsState::Closed) => MenuAction::OpenDevtools,
        }
    }
}

/// The devtools state the surface is left in after `action` is carried out.
pub fn apply_action(surface: Option<DevtoolsState>, action: MenuAction) -> (r: Option<
    DevtoolsState,
>)
    ensures
        r == state_after(surface, action),
{
    match surface {
        None => None,
        Some(s) => match action {
            MenuAction::OpenDevtools => Some(DevtoolsState::Open),
            MenuAction::CloseDevtools => Some(DevtoolsState::Closed),
            _ => Some(s),
        },
    }
}

/// Handles one menu activation on a surface in state `surface`: the action to
/// perform and the state the surface is left in.
pub fn on_menu_event(id: &str, surface: Option<DevtoolsState>) -> (r: (MenuAction, Option<
    DevtoolsState,
>))
    ensures
        r.0 == action_for(id@, surface),
        r.1 == state_after(surface, r.0),
{
    let a = menu_action(id, surface);
    (a, apply_action(surface, a))
}

/// Activating the toggle on an open or closed surface flips its devtools state;
/// activating it a second time brings the state back. In particular one
/// activation from `Closed` gives `Open`, and two give `Closed`.
pub proof fn lemma_toggle_twice(s: DevtoolsState)
    ensures
        state_after(Some(s), action_for(toggle_devtools_id(), Some(s))) == Some(flipped(s)),
        ({
            let once = state_after(Some(s), action_for(toggle_devtools_id(), Some(s)));
            state_after(once, action_for(toggle_devtools_id(), once)) == Some(s)
        }),
{
}

/// When there is no main surface, any menu activation leaves it that way and
/// asks at most for a diagnostic.
pub proof fn lemma_missing_surface_unchanged(id: Seq<char>)
    ensures
        state_after(None, action_for(id, None)) == None::<DevtoolsState>,
        action_for(id, None) == MenuAction::Ignore || action_for(id, None)
            == MenuAction::ReportSurfaceMissing,
        id == toggle_devtools_id() ==> action_for(id, None) == MenuAction::ReportSurfaceMissing,
{
}

/// A menu id other than the devtools toggle is ignored and changes nothing.
pub proof fn lemma_unknown_id_ignored(id: Seq<char>, surface: Option<DevtoolsState>)
    requires
        id != toggle_devtools_id(),
    ensures
        action_for(id, surface) == MenuAction::Ignore,
        state_after(surface, action_for(id, surface)) == surface,
{
}

} // verus!

//! Keyboard routing of the map view: which open overlay a key goes to,
//! what a key means to map navigation, and the call-graph view's keys.

use vstd::prelude::*;

use crate::focus::Dir;
use crate::text::str_eq;

verus! {

/// Actions emitted by input handling for the view to carry out.
#[derive(Clone, Copy, Debug, PartialEq, Eq, Structural)]
pub enum InteractionAction {
    DismissNotification,
}

/// Which overlays are up.
#[derive(Clone, Copy, Debug, PartialEq, Eq, Structural)]
pub struct Overlays {
    pub context_menu: bool,
    pub delete_confirm: bool,
    pub rename: bool,
    pub call_graph: bool,
    pub project_setup: bool,
    pub welcome: bool,
    pub settings: bool,
    pub palette: bool,
}

/// Where a key press goes.
#[derive(Clone, Copy, Debug, PartialEq, Eq, Structural)]
pub enum KeyRoute {
    /// Escape closes the context menu.
    CloseContextMenu,
    /// Escape cancels the pending delete confirmation.
    CancelDelete,
    /// The key is consumed and does nothing.
    Swallow,
    /// The rename field takes the key.
    Rename,
    /// The call-graph view takes the key.
    CallGraph,
    /// The project setup screen takes the key.
    ProjectSetup,
    /// Escape dismisses the welcome screen.
    DismissWelcome,
    /// The settings window takes the key.
    Settings,
    /// The search palette takes the key.
    Palette,
    /// Map navigation takes the key.
    Navigate,
}

/// The routing rule: the context menu only claims Escape; a pending delete
/// confirmation claims every key (Escape cancels it); then the rename
/// field, the call graph, project setup; the welcome screen claims every
/// key (Escape dismisses it); then the settings window and the palette;
/// with no overlay up, keys navigate the map.
pub open spec fn route_spec(o: Overlays, escape: bool) -> KeyRoute {
    if o.context_menu && escape {
        KeyRoute::CloseContextMenu
    } else if o.delete_confirm {
        if escape { KeyRoute::CancelDelete } else { KeyRoute::Swallow }
    } else if o.rename {
        KeyRoute::Rename
    } else if o.call_graph {
        KeyRoute::CallGraph
    } else if o.project_setup {
        KeyRoute::ProjectSetup
    } else if o.welcome {
        if escape { KeyRoute::DismissWelcome } else { KeyRoute::Swallow }
    } else if o.settings {
        KeyRoute::Settings
    } else if o.palette {
        KeyRoute::Palette
    } else {
        KeyRoute::Navigate
    }
}

/// Routes the key named `key` (see `route_spec`).
pub fn route_key(o: &Overlays, key: &str) -> (r: KeyRoute)
    ensures
        r == route_spec(*o, key@ == "escape"@),
{
    let escape = str_eq(key, "escape");
    if o.context_menu && escape {
        KeyRoute::CloseContextMenu
    } else if o.delete_confirm {
        if escape {
            KeyRoute::CancelDelete
        } else {
            KeyRoute::Swallow
        }
    } else if o.rename {
        KeyRoute::Rename
    } else if o.call_graph {
        KeyRoute::CallGraph
    } else if o.project_setup {
        KeyRoute::ProjectSetup
    } else if o.welcome {
        if escape {
            KeyRoute::DismissWelcome
        } else {
            KeyRoute::Swallow
        }
    } else if o.settings {
        KeyRoute::Settings
    } else if o.palette {
        KeyRoute::Palette
    } else {
        KeyRoute::Navigate
    }
}

/// What a key means to map navigation.
#[derive(Clone, Copy, Debug, PartialEq, Eq, Structural)]
pub enum NavKey {
    /// Enter: step into the focused node.
    StepIn,
    /// Escape: step out to the parent.
    StepOut,
    /// End: frame the focused node's end.
    FrameEnd,
    /// Home: fit the whole map.
    Home,
    /// Tab: open the call graph.
    CallGraph,
    /// Alt+Left: back in the navigation history.
    Back,
    /// Alt+Right: forward in the navigation history.
    Forward,
    /// An arrow key: step spatially.
    Spatial(Dir),
    /// Any other key.
    Ignore,
}

/// The meaning of key `key` with Alt held or not.
pub open spec fn nav_key_spec(key: Seq<char>, alt: bool) -> NavKey {
    if key == "enter"@ {
        NavKey::StepIn
    } else if key == "escape"@ {
        NavKey::StepOut
    } else if key == "end"@ {
        NavKey::FrameEnd
    } else if key == "home"@ {
        NavKey::Home
    } else if key == "tab"@ {
        NavKey::CallGraph
    } else if key == "left"@ && alt {
        NavKey::Back
    } else if key == "right"@ && alt {
        NavKey::Forward
    } else if key == "up"@ {
        NavKey::Spatial(Dir::Up)
    } else if key == "down"@ {
        NavKey::Spatial(Dir::Down)
    } else if key == "left"@ {
        NavKey::Spatial(Dir::Left)
    } else if key == "right"@ {
        NavKey::Spatial(Dir::Right)
    } else {
        NavKey::Ignore
    }
}

/// Law: what each key means to map navigation: Enter steps in, Escape
/// steps out, End frames, Home goes home, Tab opens the call graph, Alt
/// with Left or Right goes back or forward through history, and the arrows
/// without Alt (Up and Down with or without it) move spatially; any other
/// key, including a name in another case, does nothing.
pub proof fn lemma_nav_keys(alt: bool)
    ensures
        nav_key_spec("enter"@, alt) == NavKey::StepIn,
        nav_key_spec("escape"@, alt) == NavKey::StepOut,
        nav_key_spec("end"@, alt) == NavKey::FrameEnd,
        nav_key_spec("home"@, alt) == NavKey::Home,
        nav_key_spec("tab"@, alt) == NavKey::CallGraph,
        nav_key_spec("left"@, alt) == if alt { NavKey::Back } else { NavKey::Spatial(Dir::Left) },
        nav_key_spec("right"@, alt) == if alt { NavKey::Forward } else { NavKey::Spatial(Dir::Right) },
        nav_key_spec("up"@, alt) == NavKey::Spatial(Dir::Up),
        nav_key_spec("down"@, alt) == NavKey::Spatial(Dir::Down),
        nav_key_spec("Enter"@, alt) == NavKey::Ignore,
        nav_key_spec("x"@, alt) == NavKey::Ignore,
        nav_key_spec(Seq::<char>::empty(), alt) == NavKey::Ignore,
{
    reveal_strlit("enter");
    reveal_strlit("escape");
    reveal_strlit("end");
    reveal_strlit("home");
    reveal_strlit("tab");
    reveal_strlit("left");
    reveal_strlit("right");
    reveal_strlit("up");
    reveal_strlit("down");
    reveal_strlit("Enter");
    reveal_strlit("x");
    assert("enter"@.len() == 5 && "enter"@[0] == 'e' && "enter"@[1] == 'n' && "enter"@[2] == 't' && "enter"@[3] == 'e' && "enter"@[4] == 'r');
    assert("escape"@.len() == 6 && "escape"@[0] == 'e' && "escape"@[1] == 's' && "escape"@[2] == 'c' && "escape"@[3] == 'a' && "escape"@[4] == 'p' && "escape"@[5] == 'e');
    assert("end"@.len() == 3 && "end"@[0] == 'e' && "end"@[1] == 'n' && "end"@[2] == 'd');
    assert("home"@.len() == 4 && "home"@[0] == 'h' && "home"@[1] == 'o' && "home"@[2] == 'm' && "home"@[3] == 'e');
    assert("tab"@.len() == 3 && "tab"@[0] == 't' && "tab"@[1] == 'a' && "tab"@[2] == 'b');
    assert("left"@.len() == 4 && "left"@[0] == 'l' && "left"@[1] == 'e' && "left"@[2] == 'f' && "left"@[3] == 't');
    assert("right"@.len() == 5 && "right"@[0] == 'r' && "right"@[1] == 'i' && "right"@[2] == 'g' && "right"@[3] == 'h' && "right"@[4] == 't');
    assert("up"@.len() == 2 && "up"@[0] == 'u' && "up"@[1] == 'p');
    assert("down"@.len() == 4 && "down"@[0] == 'd' && "down"@[1] == 'o' && "down"@[2] == 'w' && "down"@[3] == 'n');
    assert("Enter"@.len() == 5 && "Enter"@[0] == 'E' && "Enter"@[1] == 'n' && "Enter"@[2] == 't' && "Enter"@[3] == 'e' && "Enter"@[4] == 'r');
    assert("x"@.len() == 1 && "x"@[0] == 'x');
}

/// The meaning of key `key` to map navigation (see `nav_key_spec`).
pub fn nav_key(key: &str, alt: bool) -> (r: NavKey)
    ensures
        r == nav_key_spec(key@, alt),
{
    if str_eq(key, "enter") {
        NavKey::StepIn
    } else if str_eq(key, "escape") {
        NavKey::StepOut
    } else if str_eq(key, "end") {
        NavKey::FrameEnd
    } else if str_eq(key, "home") {
        NavKey::Home
    } else if str_eq(key, "tab") {
        NavKey::CallGraph
    } else if str_eq(key, "left") && alt {
        NavKey::Back
    } else if str_eq(key, "right") && alt {
        NavKey::Forward
    } else if str_eq(key, "up") {
        NavKey::Spatial(Dir::Up)
    } else if str_eq(key, "down") {
        NavKey::Spatial(Dir::Down)
    } else if str_eq(key, "left") {
        NavKey::Spatial(Dir::Left)
    } else if str_eq(key, "right") {
        NavKey::Spatial(Dir::Right)
    } else {
        NavKey::Ignore
    }
}

/// A key pressed in the settings window, as the window reads it: Escape,
/// Tab and Backspace by name, otherwise the single character it types.
pub fn draft_key(key: &str, typed: Option<char>) -> (r: crate::settings_draft::DraftKey)
    ensures
        r == (if key@ == "escape"@ {
            crate::settings_draft::DraftKey::Close
        } else if key@ == "tab"@ {
            crate::settings_draft::DraftKey::NextField
        } else if key@ == "backspace"@ {
            crate::settings_draft::DraftKey::DeleteChar
        } else {
            match typed {
                Some(c) => crate::settings_draft::DraftKey::Type(c),
                None => crate::settings_draft::DraftKey::Ignore,
            }
        }),
{
    if str_eq(key, "escape") {
        crate::settings_draft::DraftKey::Close
    } else if str_eq(key, "tab") {
        crate::settings_draft::DraftKey::NextField
    } else if str_eq(key, "backspace") {
        crate::settings_draft::DraftKey::DeleteChar
    } else {
        match typed {
            Some(c) => crate::settings_draft::DraftKey::Type(c),
            None => crate::settings_draft::DraftKey::Ignore,
        }
    }
}

/// An open overlay always takes keys before map navigation: keys reach
/// navigation only when no overlay that claims keys is up.
pub proof fn lemma_navigation_only_without_overlays(o: Overlays, escape: bool)
    ensures
        route_spec(o, escape) == KeyRoute::Navigate <==> !o.delete_confirm && !o.rename && !o.call_graph
            && !o.project_setup && !o.welcome && !o.settings && !o.palette && !(o.context_menu
            && escape),
{
}


/// The selected row of the call-graph view: a caller group or a callee
/// group, by position.
#[derive(Clone, Copy, Debug, PartialEq, Eq, Structural)]
pub enum CgSelection {
    Caller(usize),
    Callee(usize),
}

/// What a key does in the call-graph view.
#[derive(Clone, Copy, Debug, PartialEq, Eq, Structural)]
pub enum CgStep {
    /// Tab or Escape: leave the call graph.
    Exit,
    /// The key changes nothing.
    Ignore,
    /// The selection moves to this row (its column scrolls to it).
    Select(CgSelection),
    /// The active edge of a group (of the callers when `caller`) changes.
    SetActive { caller: bool, group: usize, active: usize },
    /// Enter: the target of this edge becomes the new centre.
    Open { caller: bool, group: usize, edge: usize },
}

/// Every group has at least one edge, and its active edge is one of them.
pub open spec fn cg_groups_ok(sizes: Seq<usize>, actives: Seq<usize>) -> bool {
    &&& sizes.len() == actives.len()
    &&& forall|i: int| 0 <= i < sizes.len() ==> 0 < #[trigger] sizes[i] && actives[i] < sizes[i]
}

/// The call-graph key rule. Left and Right move between the caller column
/// (left) and the callee column (right), landing on the first group of a
/// non-empty column; inside its own column they cycle the selected group's
/// active edge (backwards on Left, forwards on Right) when it has more than
/// one. Up and Down move within a column without leaving it. Enter opens
/// the selected group's active edge. Tab and Escape leave.
pub open spec fn cg_step_spec(
    sel: CgSelection,
    caller_sizes: Seq<usize>,
    callee_sizes: Seq<usize>,
    caller_active: Seq<usize>,
    callee_active: Seq<usize>,
    key: Seq<char>,
) -> CgStep {
    if key == "tab"@ || key == "escape"@ {
        CgStep::Exit
    } else if key == "left"@ {
        match sel {
            CgSelection::Callee(_) => if caller_sizes.len() == 0 {
                CgStep::Ignore
            } else {
                CgStep::Select(CgSelection::Caller(0))
            },
            CgSelection::Caller(i) => if i < caller_sizes.len() && caller_sizes[i as int] > 1 {
                CgStep::SetActive {
                    caller: true,
                    group: i,
                    active: ((caller_active[i as int] + caller_sizes[i as int] - 1) % (caller_sizes[i as int] as int)) as usize,
                }
            } else {
                CgStep::Ignore
            },
        }
    } else if key == "right"@ {
        match sel {
            CgSelection::Caller(_) => if callee_sizes.len() == 0 {
                CgStep::Ignore
            } else {
                CgStep::Select(CgSelection::Callee(0))
            },
            CgSelection::Callee(i) => if i < callee_sizes.len() && callee_sizes[i as int] > 1 {
                CgStep::SetActive {
                    caller: false,
                    group: i,
                    active: ((callee_active[i as int] + 1) % (callee_sizes[i as int] as int)) as usize,
                }
            } else {
                CgStep::Ignore
            },
        }
    } else if key == "up"@ {
        match sel {
            CgSelection::Caller(i) => if i > 0 { CgStep::Select(CgSelection::Caller((i - 1) as usize)) } else { CgStep::Ignore },
            CgSelection::Callee(i) => if i > 0 { CgStep::Select(CgSelection::Callee((i - 1) as usize)) } else { CgStep::Ignore },
        }
    } else if key == "down"@ {
        match sel {
            CgSelection::Caller(i) => if i + 1 < caller_sizes.len() {
                CgStep::Select(CgSelection::Caller((i + 1) as usize))
            } else {
                CgStep::Ignore
            },
            CgSelection::Callee(i) => if i + 1 < callee_sizes.len() {
                CgStep::Select(CgSelection::Callee((i + 1) as usize))
            } else {
                CgStep::Ignore
            },
        }
    } else if key == "enter"@ {
        match sel {
            CgSelection::Caller(i) => if i < caller_sizes.len() {
                CgStep::Open { caller: true, group: i, edge: caller_active[i as int] }
            } else {
                CgStep::Ignore
            },
            CgSelection::Callee(i) => if i < callee_sizes.len() {
                CgStep::Open { caller: false, group: i, edge: callee_active[i as int] }
            } else {
                CgStep::Ignore
            },
        }
    } else {
        CgStep::Ignore
    }
}

/// Law: Up and Down move within the selected column, to the previous or
/// next group whenever there is one, whatever the other column holds, and
/// do nothing at its ends; Enter opens the selected group's active edge;
/// Left from the callee column and Right from the caller column cross to
/// the first group of the other column when it has any; Tab and Escape
/// leave the view.
pub proof fn lemma_cg_key_moves(
    sel: CgSelection,
    caller_sizes: Seq<usize>,
    callee_sizes: Seq<usize>,
    caller_active: Seq<usize>,
    callee_active: Seq<usize>,
)
    ensures
        cg_step_spec(sel, caller_sizes, callee_sizes, caller_active, callee_active, "tab"@) == CgStep::Exit,
        cg_step_spec(sel, caller_sizes, callee_sizes, caller_active, callee_active, "escape"@) == CgStep::Exit,
        match sel {
            CgSelection::Callee(i) => {
                &&& cg_step_spec(sel, caller_sizes, callee_sizes, caller_active, callee_active, "down"@) == if i + 1
                    < callee_sizes.len() {
                    CgStep::Select(CgSelection::Callee((i + 1) as usize))
                } else {
                    CgStep::Ignore
                }
                &&& cg_step_spec(sel, caller_sizes, callee_sizes, caller_active, callee_active, "up"@) == if i > 0 {
                    CgStep::Select(CgSelection::Callee((i - 1) as usize))
                } else {
                    CgStep::Ignore
                }
                &&& i < callee_sizes.len() ==> cg_step_spec(sel, caller_sizes, callee_sizes, caller_active, callee_active, "enter"@)
                    == (CgStep::Open { caller: false, group: i, edge: callee_active[i as int] })
                &&& cg_step_spec(sel, caller_sizes, callee_sizes, caller_active, callee_active, "left"@) == if caller_sizes.len()
                    > 0 {
                    CgStep::Select(CgSelection::Caller(0))
                } else {
                    CgStep::Ignore
                }
            },
            CgSelection::Caller(i) => {
                &&& cg_step_spec(sel, caller_sizes, callee_sizes, caller_active, callee_active, "down"@) == if i + 1
                    < caller_sizes.len() {
                    CgStep::Select(CgSelection::Caller((i + 1) as usize))
                } else {
                    CgStep::Ignore
                }
                &&& cg_step_spec(sel, caller_sizes, callee_sizes, caller_active, callee_active, "up"@) == if i > 0 {
                    CgStep::Select(CgSelection::Caller((i - 1) as usize))
                } else {
                    CgStep::Ignore
                }
                &&& i < caller_sizes.len() ==> cg_step_spec(sel, caller_sizes, callee_sizes, caller_active, callee_active, "enter"@)
                    == (CgStep::Open { caller: true, group: i, edge: caller_active[i as int] })
                &&& cg_step_spec(sel, caller_sizes, callee_sizes, caller_active, callee_active, "right"@) == if callee_sizes.len()
                    > 0 {
                    CgStep::Select(CgSelection::Callee(0))
                } else {
                    CgStep::Ignore
                }
            },
        },
{
    reveal_strlit("tab");
    reveal_strlit("escape");
    reveal_strlit("left");
    reveal_strlit("right");
    reveal_strlit("up");
    reveal_strlit("down");
    reveal_strlit("enter");
    assert("tab"@.len() == 3 && "tab"@[0] == 't' && "tab"@[1] == 'a' && "tab"@[2] == 'b');
    assert("escape"@.len() == 6 && "escape"@[0] == 'e' && "escape"@[1] == 's' && "escape"@[2] == 'c' && "escape"@[3] == 'a' && "escape"@[4] == 'p' && "escape"@[5] == 'e');
    assert("left"@.len() == 4 && "left"@[0] == 'l' && "left"@[1] == 'e' && "left"@[2] == 'f' && "left"@[3] == 't');
    assert("right"@.len() == 5 && "right"@[0] == 'r' && "right"@[1] == 'i' && "right"@[2] == 'g' && "right"@[3] == 'h' && "right"@[4] == 't');
    assert("up"@.len() == 2 && "up"@[0] == 'u' && "up"@[1] == 'p');
    assert("down"@.len() == 4 && "down"@[0] == 'd' && "down"@[1] == 'o' && "down"@[2] == 'w' && "down"@[3] == 'n');
    assert("enter"@.len() == 5 && "enter"@[0] == 'e' && "enter"@[1] == 'n' && "enter"@[2] == 't' && "enter"@[3] == 'e' && "enter"@[4] == 'r');
}

/// What key `key` does in the call-graph view (see `cg_step_spec`), given
/// the selection, the number of edges of each caller and callee group,
/// and each group's active edge.
pub fn call_graph_step(
    sel: CgSelection,
    caller_sizes: &Vec<usize>,
    callee_sizes: &Vec<usize>,
    caller_active: &Vec<usize>,
    callee_active: &Vec<usize>,
    key: &str,
) -> (r: CgStep)
    requires
        cg_groups_ok(caller_sizes@, caller_active@),
        cg_groups_ok(callee_sizes@, callee_active@),
    ensures
        r == cg_step_spec(sel, caller_sizes@, callee_sizes@, caller_active@, callee_active@, key@),
{
    if str_eq(key, "tab") || str_eq(key, "escape") {
        CgStep::Exit
    } else if str_eq(key, "left") {
        match sel {
            CgSelection::Callee(_) => if caller_sizes.len() == 0 {
                CgStep::Ignore
            } else {
                CgStep::Select(CgSelection::Caller(0))
            },
            CgSelection::Caller(i) => if i < caller_sizes.len() && caller_sizes[i] > 1 {
                let n = caller_sizes[i];
                let a = caller_active[i];
                let back = if a == 0 { n - 1 } else { a - 1 };
                assert(back as int == (a + n - 1) % (n as int)) by (nonlinear_arith)
                    requires
                        a < n,
                        back == if a == 0 { n - 1 } else { a - 1 },
                ;
                CgStep::SetActive { caller: true, group: i, active: back }
            } else {
                CgStep::Ignore
            },
        }
    } else if str_eq(key, "right") {
        match sel {
            CgSelection::Caller(_) => if callee_sizes.len() == 0 {
                CgStep::Ignore
            } else {
                CgStep::Select(CgSelection::Callee(0))
            },
            CgSelection::Callee(i) => if i < callee_sizes.len() && callee_sizes[i] > 1 {
                let n = callee_sizes[i];
                let a = callee_active[i];
                let fwd = if a + 1 == n { 0 } else { a + 1 };
                assert(fwd as int == (a + 1) % (n as int)) by (nonlinear_arith)
                    requires
                        a < n,
                        fwd == if a + 1 == n { 0 } else { a + 1 },
                ;
                CgStep::SetActive { caller: false, group: i, active: fwd }
            } else {
                CgStep::Ignore
            },
        }
    } else if str_eq(key, "up") {
        match sel {
            CgSelection::Caller(i) => if i > 0 { CgStep::Select(CgSelection::Caller(i - 1)) } else { CgStep::Ignore },
            CgSelection::Callee(i) => if i > 0 { CgStep::Select(CgSelection::Callee(i - 1)) } else { CgStep::Ignore },
        }
    } else if str_eq(key, "down") {
        match sel {
            CgSelection::Caller(i) => if i < caller_sizes.len() && i + 1 < caller_sizes.len() {
                CgStep::Select(CgSelection::Caller(i + 1))
            } else {
                CgStep::Ignore
            },
            CgSelection::Callee(i) => if i < callee_sizes.len() && i + 1 < callee_sizes.len() {
                CgStep::Select(CgSelection::Callee(i + 1))
            } else {
                CgStep::Ignore
            },
        }
    } else if str_eq(key, "enter") {
        match sel {
            CgSelection::Caller(i) => if i < caller_sizes.len() {
                CgStep::Open { caller: true, group: i, edge: caller_active[i] }
            } else {
                CgStep::Ignore
            },
            CgSelection::Callee(i) => if i < callee_sizes.len() {
                CgStep::Open { caller: false, group: i, edge: callee_active[i] }
            } else {
                CgStep::Ignore
            },
        }
    } else {
        CgStep::Ignore
    }
}

/// Law: the call-graph keys keep the state valid: a row selected within a
/// column stays a group of it, switching columns lands on a group, a
/// changed active edge is an edge of its group, and an opened edge exists.
pub proof fn lemma_call_graph_step_stays_in_range(
    sel: CgSelection,
    caller_sizes: Seq<usize>,
    callee_sizes: Seq<usize>,
    caller_active: Seq<usize>,
    callee_active: Seq<usize>,
    key: Seq<char>,
)
    requires
        cg_groups_ok(caller_sizes, caller_active),
        cg_groups_ok(callee_sizes, callee_active),
    ensures
        match cg_step_spec(sel, caller_sizes, callee_sizes, caller_active, callee_active, key) {
            CgStep::SetActive { caller, group, active } => if caller {
                group < caller_sizes.len() && active < caller_sizes[group as int]
            } else {
                group < callee_sizes.len() && active < callee_sizes[group as int]
            },
            CgStep::Open { caller, group, edge } => if caller {
                group < caller_sizes.len() && edge < caller_sizes[group as int]
            } else {
                group < callee_sizes.len() && edge < callee_sizes[group as int]
            },
            CgStep::Select(CgSelection::Caller(i)) => match sel {
                CgSelection::Caller(j) => j < caller_sizes.len() ==> i < caller_sizes.len(),
                CgSelection::Callee(_) => i < caller_sizes.len(),
            },
            CgStep::Select(CgSelection::Callee(i)) => match sel {
                CgSelection::Callee(j) => j < callee_sizes.len() ==> i < callee_sizes.len(),
                CgSelection::Caller(_) => i < callee_sizes.len(),
            },
            _ => true,
        },
{
    match sel {
        CgSelection::Caller(i) => {
            if i < caller_sizes.len() {
                let n = caller_sizes[i as int] as int;
                let a = caller_active[i as int] as int;
                assert(0 <= (a + n - 1) % n < n) by (nonlinear_arith)
                    requires
                        0 <= a < n,
                ;
                assert(a < n);
            }
        },
        CgSelection::Callee(i) => {
            if i < callee_sizes.len() {
                let n = callee_sizes[i as int] as int;
                let a = callee_active[i as int] as int;
                assert(0 <= (a + 1) % n < n) by (nonlinear_arith)
                    requires
                        0 <= a < n,
                ;
                assert(a < n);
            }
        },
    }
}


/// Whether edge `i` is the first with its name.
pub open spec fn first_of_name(names: Seq<String>, i: int) -> bool {
    forall|j: int| 0 <= j < i ==> (#[trigger] names[j])@ != names[i]@
}

/// Call edges grouped by the name they call through: one group per name,
/// holding the positions of that name's edges in increasing order, and the
/// groups ordered by where their name first occurs.
pub open spec fn edge_groups(names: Seq<String>, groups: Seq<Seq<usize>>) -> bool {
    &&& forall|g: int| 0 <= g < groups.len() ==> (#[trigger] groups[g]).len() > 0 && first_of_name(names, groups[g][0] as int)
    &&& forall|g: int, h: int| 0 <= g < h < groups.len() ==> (#[trigger] groups[g])[0] < (#[trigger] groups[h])[0]
    &&& forall|i: int| 0 <= i < names.len() && first_of_name(names, i) ==> exists|g: int| 0 <= g < groups.len() && (#[trigger] groups[g])[0] == i
    &&& forall|g: int, k: int, l: int|
        #![trigger groups[g][k], groups[g][l]]
        0 <= g < groups.len() && 0 <= k < l < groups[g].len() ==> groups[g][k] < groups[g][l]
    &&& forall|g: int, k: int|
        0 <= g < groups.len() && 0 <= k < groups[g].len() ==> #[trigger] groups[g][k] < names.len() && names[groups[g][k] as int]@ == names[groups[g][0] as int]@
    &&& forall|g: int, j: int|
        #![trigger groups[g], names[j]]
        0 <= g < groups.len() && 0 <= j < names.len() && names[j]@ == names[groups[g][0] as int]@ ==> groups[g].contains(j as usize)
}

/// The first position before `upto` whose name is `x`, if any.
fn position_of_name(names: &Vec<String>, x: &String, upto: usize) -> (r: Option<usize>)
    requires
        upto <= names@.len(),
    ensures
        match r {
            Some(k) => k < upto && names@[k as int]@ == x@ && forall|j: int| 0 <= j < k ==> (#[trigger] names@[j])@ != x@,
            None => forall|j: int| 0 <= j < upto ==> (#[trigger] names@[j])@ != x@,
        },
{
    let mut j: usize = 0;
    while j < upto
        invariant
            j <= upto <= names@.len(),
            forall|k: int| 0 <= k < j ==> (#[trigger] names@[k])@ != x@,
        decreases upto - j,
    {
        if names[j] == *x {
            return Some(j);
        }
        j = j + 1;
    }
    None
}

/// The positions of the edges called `x`, in increasing order.
fn positions_of_name(names: &Vec<String>, x: &String) -> (r: Vec<usize>)
    ensures
        forall|k: int, l: int| 0 <= k < l < r@.len() ==> (#[trigger] r@[k]) < (#[trigger] r@[l]),
        forall|k: int| 0 <= k < r@.len() ==> (#[trigger] r@[k]) < names@.len() && names@[r@[k] as int]@ == x@,
        forall|j: int| 0 <= j < names@.len() && (#[trigger] names@[j])@ == x@ ==> r@.contains(j as usize),
{
    let mut r: Vec<usize> = Vec::new();
    let mut j: usize = 0;
    while j < names.len()
        invariant
            j <= names@.len(),
            forall|k: int, l: int| 0 <= k < l < r@.len() ==> (#[trigger] r@[k]) < (#[trigger] r@[l]),
            forall|k: int| 0 <= k < r@.len() ==> (#[trigger] r@[k]) < j && names@[r@[k] as int]@ == x@,
            forall|i: int| 0 <= i < j && (#[trigger] names@[i])@ == x@ ==> r@.contains(i as usize),
        decreases names@.len() - j,
    {
        if names[j] == *x {
            let ghost before = r@;
            r.push(j);
            assert forall|i: int| 0 <= i < j + 1 && (#[trigger] names@[i])@ == x@ implies r@.contains(i as usize) by {
                if i < j {
                    let k = choose|k: int| 0 <= k < before.len() && before[k] == i as usize;
                    assert(r@[k] == i as usize);
                } else {
                    assert(r@[before.len() as int] == j);
                }
            }
        } else {
            assert forall|i: int| 0 <= i < j + 1 && (#[trigger] names@[i])@ == x@ implies r@.contains(i as usize) by {
                assert(i != j);
            }
        }
        j = j + 1;
    }
    r
}

/// Groups call edges, given by the names they call through, into one group
/// per name (see `edge_groups`): the first edge with a name opens its
/// group, later edges with that name join it.
pub fn group_edges(names: &Vec<String>) -> (r: Vec<Vec<usize>>)
    ensures
        edge_groups(names@, r@.map_values(|g: Vec<usize>| g@)),
{
    let mut leaders: Vec<usize> = Vec::new();
    let mut i: usize = 0;
    while i < names.len()
        invariant
            i <= names@.len(),
            forall|k: int, l: int| 0 <= k < l < leaders@.len() ==> (#[trigger] leaders@[k]) < (#[trigger] leaders@[l]),
            forall|k: int| 0 <= k < leaders@.len() ==> (#[trigger] leaders@[k]) < i && first_of_name(names@, leaders@[k] as int),
            forall|j: int| 0 <= j < i && first_of_name(names@, j) ==> #[trigger] leaders@.contains(j as usize),
        decreases names@.len() - i,
    {
        let ghost before = leaders@;
        if position_of_name(names, &names[i], i).is_none() {
            leaders.push(i);
            assert forall|j: int| 0 <= j < i + 1 && first_of_name(names@, j) implies #[trigger] leaders@.contains(j as usize) by {
                if j < i {
                    assert(before.contains(j as usize));
                    let k = choose|k: int| 0 <= k < before.len() && before[k] == j as usize;
                    assert(leaders@[k] == j as usize);
                } else {
                    assert(leaders@[before.len() as int] == i);
                }
            }
        } else {
            assert forall|j: int| 0 <= j < i + 1 && first_of_name(names@, j) implies #[trigger] leaders@.contains(j as usize) by {
                if j == i {
                    let k = choose|k: int| 0 <= k < i && (#[trigger] names@[k])@ == names@[i as int]@;
                    assert(names@[k]@ == names@[j]@);
                }
            }
        }
        i = i + 1;
    }
    let mut groups: Vec<Vec<usize>> = Vec::new();
    let mut g: usize = 0;
    while g < leaders.len()
        invariant
            g <= leaders@.len(),
            groups@.len() == g,
            forall|k: int, l: int| 0 <= k < l < leaders@.len() ==> (#[trigger] leaders@[k]) < (#[trigger] leaders@[l]),
            forall|k: int| 0 <= k < leaders@.len() ==> (#[trigger] leaders@[k]) < names@.len() && first_of_name(names@, leaders@[k] as int),
            forall|h: int| 0 <= h < g ==> (#[trigger] groups@[h])@.len() > 0 && groups@[h]@[0] == leaders@[h],
            forall|h: int, k: int, l: int|
                #![trigger groups@[h]@[k], groups@[h]@[l]]
                0 <= h < g && 0 <= k < l < groups@[h]@.len() ==> groups@[h]@[k] < groups@[h]@[l],
            forall|h: int, k: int|
                0 <= h < g && 0 <= k < groups@[h]@.len() ==> #[trigger] groups@[h]@[k] < names@.len() && names@[groups@[h]@[k] as int]@
                    == names@[leaders@[h] as int]@,
            forall|h: int, j: int|
                #![trigger groups@[h], names@[j]]
                0 <= h < g && 0 <= j < names@.len() && names@[j]@ == names@[leaders@[h] as int]@ ==> groups@[h]@.contains(j as usize),
        decreases leaders@.len() - g,
    {
        let leader = leaders[g];
        let grp = positions_of_name(names, &names[leader]);
        proof {
            assert(grp@.contains(leader));
            let m = choose|m: int| 0 <= m < grp@.len() && grp@[m] == leader;
            if grp@[0] != leader {
                assert(grp@[0] < grp@[m]);
                assert(names@[grp@[0] as int]@ == names@[leader as int]@);
                assert(first_of_name(names@, leader as int));
                assert(false);
            }
        }
        groups.push(grp);
        g = g + 1;
    }
    let ghost view = groups@.map_values(|v: Vec<usize>| v@);
    proof {
        assert forall|j: int| 0 <= j < names@.len() && first_of_name(names@, j) implies exists|h: int|
            0 <= h < view.len() && (#[trigger] view[h])[0] == j by {
            assert(leaders@.contains(j as usize));
            let h = choose|h: int| 0 <= h < leaders@.len() && leaders@[h] == j as usize;
            assert(view[h][0] == j);
        }
        assert forall|h: int, j: int|
            #![trigger view[h], names@[j]]
            0 <= h < view.len() && 0 <= j < names@.len() && names@[j]@ == names@[view[h][0] as int]@ implies view[h].contains(j as usize) by {
            assert(view[h] == groups@[h]@);
        }
    }
    groups
}

/// The groups the call-graph view opens on and the row it selects: the
/// first callee group when there is one, else the first caller group.
pub fn call_graph_entry(callers: &Vec<String>, callees: &Vec<String>) -> (r: (Vec<Vec<usize>>, Vec<Vec<usize>>, CgSelection))
    ensures
        edge_groups(callers@, r.0@.map_values(|g: Vec<usize>| g@)),
        edge_groups(callees@, r.1@.map_values(|g: Vec<usize>| g@)),
        r.2 == if r.1@.len() > 0 { CgSelection::Callee(0) } else { CgSelection::Caller(0) },
{
    let caller_groups = group_edges(callers);
    let callee_groups = group_edges(callees);
    let selection = if callee_groups.len() > 0 { CgSelection::Callee(0) } else { CgSelection::Caller(0) };
    (caller_groups, callee_groups, selection)
}

} // verus!

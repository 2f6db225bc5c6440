use outrider::focus::Dir;
use outrider::interaction::{
    call_graph_entry, call_graph_step, draft_key, group_edges, nav_key, route_key, CgSelection, CgStep, KeyRoute, NavKey,
    Overlays,
};
use outrider::settings_draft::DraftKey;

fn none() -> Overlays {
    Overlays {
        context_menu: false,
        delete_confirm: false,
        rename: false,
        call_graph: false,
        project_setup: false,
        welcome: false,
        settings: false,
        palette: false,
    }
}

#[test]
fn keys_navigate_when_nothing_is_open() {
    assert_eq!(route_key(&none(), "enter"), KeyRoute::Navigate);
    assert_eq!(route_key(&none(), "escape"), KeyRoute::Navigate);
}

#[test]
fn overlays_claim_keys_in_order() {
    let menu = Overlays { context_menu: true, palette: true, ..none() };
    assert_eq!(route_key(&menu, "escape"), KeyRoute::CloseContextMenu);
    assert_eq!(route_key(&menu, "a"), KeyRoute::Palette);
    let confirm = Overlays { delete_confirm: true, rename: true, ..none() };
    assert_eq!(route_key(&confirm, "escape"), KeyRoute::CancelDelete);
    assert_eq!(route_key(&confirm, "enter"), KeyRoute::Swallow);
    assert_eq!(route_key(&Overlays { rename: true, call_graph: true, ..none() }, "x"), KeyRoute::Rename);
    assert_eq!(route_key(&Overlays { call_graph: true, project_setup: true, ..none() }, "x"), KeyRoute::CallGraph);
    assert_eq!(route_key(&Overlays { project_setup: true, welcome: true, ..none() }, "x"), KeyRoute::ProjectSetup);
    let welcome = Overlays { welcome: true, settings: true, ..none() };
    assert_eq!(route_key(&welcome, "escape"), KeyRoute::DismissWelcome);
    assert_eq!(route_key(&welcome, "tab"), KeyRoute::Swallow);
    assert_eq!(route_key(&Overlays { settings: true, palette: true, ..none() }, "x"), KeyRoute::Settings);
    assert_eq!(route_key(&Overlays { palette: true, ..none() }, "escape"), KeyRoute::Palette);
}

#[test]
fn navigation_keys() {
    assert_eq!(nav_key("enter", false), NavKey::StepIn);
    assert_eq!(nav_key("escape", true), NavKey::StepOut);
    assert_eq!(nav_key("end", false), NavKey::FrameEnd);
    assert_eq!(nav_key("home", false), NavKey::Home);
    assert_eq!(nav_key("tab", false), NavKey::CallGraph);
    assert_eq!(nav_key("left", true), NavKey::Back);
    assert_eq!(nav_key("right", true), NavKey::Forward);
    assert_eq!(nav_key("left", false), NavKey::Spatial(Dir::Left));
    assert_eq!(nav_key("right", false), NavKey::Spatial(Dir::Right));
    assert_eq!(nav_key("up", true), NavKey::Spatial(Dir::Up));
    assert_eq!(nav_key("down", false), NavKey::Spatial(Dir::Down));
    assert_eq!(nav_key("q", false), NavKey::Ignore);
}

#[test]
fn settings_window_keys() {
    assert_eq!(draft_key("escape", None), DraftKey::Close);
    assert_eq!(draft_key("tab", Some('\t')), DraftKey::NextField);
    assert_eq!(draft_key("backspace", None), DraftKey::DeleteChar);
    assert_eq!(draft_key("a", Some('a')), DraftKey::Type('a'));
    assert_eq!(draft_key("shift", None), DraftKey::Ignore);
}

#[test]
fn call_graph_keys_move_between_columns_and_cycle_edges() {
    // two caller groups (3 edges, 1 edge), one callee group (2 edges)
    let callers = vec![3, 1];
    let callees = vec![2];
    let caller_active = vec![0, 0];
    let callee_active = vec![1];
    let step = |sel: CgSelection, key: &str| call_graph_step(sel, &callers, &callees, &caller_active, &callee_active, key);
    assert_eq!(step(CgSelection::Callee(0), "tab"), CgStep::Exit);
    assert_eq!(step(CgSelection::Callee(0), "escape"), CgStep::Exit);
    assert_eq!(step(CgSelection::Callee(0), "left"), CgStep::Select(CgSelection::Caller(0)));
    assert_eq!(step(CgSelection::Caller(1), "right"), CgStep::Select(CgSelection::Callee(0)));
    // Left inside the caller column cycles backwards, wrapping round
    assert_eq!(step(CgSelection::Caller(0), "left"), CgStep::SetActive { caller: true, group: 0, active: 2 });
    // a single-edge group does not cycle
    assert_eq!(step(CgSelection::Caller(1), "left"), CgStep::Ignore);
    // Right inside the callee column cycles forwards, wrapping round
    assert_eq!(step(CgSelection::Callee(0), "right"), CgStep::SetActive { caller: false, group: 0, active: 0 });
    assert_eq!(step(CgSelection::Caller(0), "down"), CgStep::Select(CgSelection::Caller(1)));
    assert_eq!(step(CgSelection::Caller(1), "down"), CgStep::Ignore);
    assert_eq!(step(CgSelection::Caller(1), "up"), CgStep::Select(CgSelection::Caller(0)));
    assert_eq!(step(CgSelection::Caller(0), "up"), CgStep::Ignore);
    assert_eq!(step(CgSelection::Callee(0), "enter"), CgStep::Open { caller: false, group: 0, edge: 1 });
    assert_eq!(step(CgSelection::Caller(1), "enter"), CgStep::Open { caller: true, group: 1, edge: 0 });
    assert_eq!(step(CgSelection::Caller(0), "x"), CgStep::Ignore);
    let none: Vec<usize> = vec![];
    assert_eq!(
        call_graph_step(CgSelection::Caller(0), &callers, &none, &caller_active, &none, "right"),
        CgStep::Ignore
    );
}

#[test]
fn call_edges_group_by_name_in_first_seen_order() {
    let names: Vec<String> = ["draw", "layout", "draw", "paint", "layout", "draw"].iter().map(|s| s.to_string()).collect();
    assert_eq!(group_edges(&names), vec![vec![0, 2, 5], vec![1, 4], vec![3]]);
    assert!(group_edges(&Vec::new()).is_empty());
}

#[test]
fn call_graph_opens_on_first_callee_group_else_first_caller_group() {
    let callers: Vec<String> = vec!["main".to_string(), "main".to_string()];
    let callees: Vec<String> = vec!["helper".to_string()];
    let (caller_groups, callee_groups, selection) = call_graph_entry(&callers, &callees);
    assert_eq!(caller_groups, vec![vec![0, 1]]);
    assert_eq!(callee_groups, vec![vec![0]]);
    assert_eq!(selection, CgSelection::Callee(0));
    let (_, callee_groups, selection) = call_graph_entry(&callers, &Vec::new());
    assert!(callee_groups.is_empty());
    assert_eq!(selection, CgSelection::Caller(0));
}

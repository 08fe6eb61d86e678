use herdr_pointer::cursor_shape::MousePointerShape;
use herdr_pointer::geometry::{in_rect, Rect};
use herdr_pointer::pointer::{
    shape_for_drag_target, shape_for_scrollbar_target, AppState, Direction, DragTarget, HoverHits,
    Mode, ScrollbarClickTarget, ViewLayout,
};

/// A desktop layout with the sidebar open, a 20-column sidebar and the
/// launcher button in the bottom-right corner of an 80x24 screen.
fn app_state() -> AppState {
    AppState {
        mouse_pointer_shapes_enabled: false,
        layout: ViewLayout::Desktop,
        drag: None,
        mode: Mode::Terminal,
        sidebar_collapsed: false,
        global_launcher_rect: Rect::new(76, 23, 4, 1),
        last_mouse_pos: None,
        pending_mouse_pointer_shape: MousePointerShape::Default,
    }
}

fn on_sidebar_divider() -> HoverHits {
    HoverHits { sidebar_divider: true, ..HoverHits::default() }
}

#[test]
fn disabled_config_always_returns_default() {
    let mut state = app_state();
    state.mouse_pointer_shapes_enabled = false;
    let divider_col = 19;
    state.recompute_mouse_pointer_shape(&on_sidebar_divider(), divider_col, 5);
    assert_eq!(state.pending_mouse_pointer_shape, MousePointerShape::Default);
}

#[test]
fn enabled_returns_col_resize_over_sidebar_divider() {
    let mut state = app_state();
    state.mouse_pointer_shapes_enabled = true;
    let divider_col = 19;
    state.recompute_mouse_pointer_shape(&on_sidebar_divider(), divider_col, 5);
    assert_eq!(state.pending_mouse_pointer_shape, MousePointerShape::ColResize);
}

#[test]
fn enabled_returns_default_in_pane_content() {
    let mut state = app_state();
    state.mouse_pointer_shapes_enabled = true;
    // Middle of the terminal area is plain pane content.
    state.recompute_mouse_pointer_shape(&HoverHits::default(), 20 + 60 / 2, 1 + 22 / 2);
    assert_eq!(state.pending_mouse_pointer_shape, MousePointerShape::Default);
}

#[test]
fn drag_pane_split_horizontal_returns_col_resize() {
    let mut state = app_state();
    state.mouse_pointer_shapes_enabled = true;
    state.drag = Some(DragTarget::PaneSplit { direction: Direction::Horizontal });
    state.recompute_mouse_pointer_shape(&HoverHits::default(), 0, 0);
    assert_eq!(state.pending_mouse_pointer_shape, MousePointerShape::ColResize);
}

#[test]
fn drag_tab_reorder_returns_grabbing() {
    let mut state = app_state();
    state.mouse_pointer_shapes_enabled = true;
    state.drag = Some(DragTarget::TabReorder);
    state.recompute_mouse_pointer_shape(&HoverHits::default(), 5, 5);
    assert_eq!(state.pending_mouse_pointer_shape, MousePointerShape::Grabbing);
}

#[test]
fn mobile_layout_returns_default_even_when_enabled() {
    let mut state = app_state();
    state.mouse_pointer_shapes_enabled = true;
    state.layout = ViewLayout::Mobile;
    state.recompute_mouse_pointer_shape(&on_sidebar_divider(), 5, 5);
    assert_eq!(state.pending_mouse_pointer_shape, MousePointerShape::Default);
}

#[test]
fn drag_shape_holds_wherever_the_pointer_goes() {
    let mut state = app_state();
    state.mouse_pointer_shapes_enabled = true;
    state.drag = Some(DragTarget::SidebarSectionDivider);
    let tab = HoverHits { tab: true, ..HoverHits::default() };
    assert_eq!(state.compute_mouse_pointer_shape(&tab, 3, 0), MousePointerShape::RowResize);
    assert_eq!(
        state.compute_mouse_pointer_shape(&on_sidebar_divider(), 19, 7),
        MousePointerShape::RowResize
    );
}

#[test]
fn every_drag_target_has_its_shape() {
    let cases = [
        (DragTarget::PaneSplit { direction: Direction::Horizontal }, MousePointerShape::ColResize),
        (DragTarget::PaneSplit { direction: Direction::Vertical }, MousePointerShape::RowResize),
        (DragTarget::SidebarDivider, MousePointerShape::ColResize),
        (DragTarget::SidebarSectionDivider, MousePointerShape::RowResize),
        (DragTarget::TabReorder, MousePointerShape::Grabbing),
        (DragTarget::WorkspaceReorder, MousePointerShape::Grabbing),
        (DragTarget::WorkspaceListScrollbar, MousePointerShape::Grabbing),
        (DragTarget::AgentPanelScrollbar, MousePointerShape::Grabbing),
        (DragTarget::PaneScrollbar, MousePointerShape::Grabbing),
        (DragTarget::ReleaseNotesScrollbar, MousePointerShape::Grabbing),
        (DragTarget::ProductAnnouncementScrollbar, MousePointerShape::Grabbing),
        (DragTarget::KeybindHelpScrollbar, MousePointerShape::Grabbing),
    ];
    for (target, shape) in cases {
        assert_eq!(shape_for_drag_target(&target), shape);
    }
}

#[test]
fn scrollbar_thumb_grabs_and_track_points() {
    assert_eq!(shape_for_scrollbar_target(&ScrollbarClickTarget::Thumb), MousePointerShape::Grab);
    assert_eq!(shape_for_scrollbar_target(&ScrollbarClickTarget::Track), MousePointerShape::Pointer);
}

#[test]
fn plain_overlays_show_default_over_any_region() {
    let everything = HoverHits {
        release_notes_scrollbar: Some(ScrollbarClickTarget::Thumb),
        product_announcement_scrollbar: Some(ScrollbarClickTarget::Thumb),
        keybind_help_scrollbar: Some(ScrollbarClickTarget::Thumb),
        global_menu_item: true,
        sidebar_divider: true,
        sidebar_section_divider: true,
        border: Some(Direction::Vertical),
        pane_scrollbar: Some(ScrollbarClickTarget::Track),
        workspace_list_scrollbar: Some(ScrollbarClickTarget::Track),
        agent_panel_scrollbar: Some(ScrollbarClickTarget::Track),
        tab: true,
        tab_scroll_left_button: true,
        tab_scroll_right_button: true,
        new_tab_button: true,
        workspace_row: true,
        collapsed_sidebar_toggle: true,
        agent_panel_scope_toggle: true,
        clickable_toast: true,
    };
    let mut state = app_state();
    state.mouse_pointer_shapes_enabled = true;
    for mode in [
        Mode::Onboarding,
        Mode::Settings,
        Mode::ConfirmClose,
        Mode::RenameWorkspace,
        Mode::RenameTab,
        Mode::RenamePane,
        Mode::Resize,
        Mode::ContextMenu,
    ] {
        state.mode = mode;
        assert_eq!(state.compute_mouse_pointer_shape(&everything, 77, 23), MousePointerShape::Default);
    }
}

#[test]
fn modal_scrollbars_and_menu_items() {
    let mut state = app_state();
    state.mouse_pointer_shapes_enabled = true;
    state.mode = Mode::ReleaseNotes;
    let thumb = HoverHits {
        release_notes_scrollbar: Some(ScrollbarClickTarget::Thumb),
        ..HoverHits::default()
    };
    assert_eq!(state.compute_mouse_pointer_shape(&thumb, 40, 10), MousePointerShape::Grab);
    assert_eq!(
        state.compute_mouse_pointer_shape(&on_sidebar_divider(), 19, 10),
        MousePointerShape::Default
    );
    state.mode = Mode::ProductAnnouncement;
    let track = HoverHits {
        product_announcement_scrollbar: Some(ScrollbarClickTarget::Track),
        ..HoverHits::default()
    };
    assert_eq!(state.compute_mouse_pointer_shape(&track, 40, 10), MousePointerShape::Pointer);
    state.mode = Mode::KeybindHelp;
    let help = HoverHits {
        keybind_help_scrollbar: Some(ScrollbarClickTarget::Thumb),
        ..HoverHits::default()
    };
    assert_eq!(state.compute_mouse_pointer_shape(&help, 40, 10), MousePointerShape::Grab);
    // The launcher is not tested under the help overlay.
    assert_eq!(
        state.compute_mouse_pointer_shape(&HoverHits::default(), 77, 23),
        MousePointerShape::Default
    );
    state.mode = Mode::GlobalMenu;
    let item = HoverHits { global_menu_item: true, ..HoverHits::default() };
    assert_eq!(state.compute_mouse_pointer_shape(&item, 40, 10), MousePointerShape::Pointer);
    assert_eq!(
        state.compute_mouse_pointer_shape(&HoverHits::default(), 40, 10),
        MousePointerShape::Default
    );
}

#[test]
fn regions_are_tested_in_priority_order() {
    let mut state = app_state();
    state.mouse_pointer_shapes_enabled = true;
    state.mode = Mode::Navigate;
    let divider_and_tab = HoverHits { sidebar_divider: true, tab: true, ..HoverHits::default() };
    assert_eq!(state.compute_mouse_pointer_shape(&divider_and_tab, 19, 0), MousePointerShape::ColResize);
    let section = HoverHits { sidebar_section_divider: true, ..HoverHits::default() };
    assert_eq!(state.compute_mouse_pointer_shape(&section, 5, 12), MousePointerShape::RowResize);
    let border = HoverHits {
        border: Some(Direction::Vertical),
        pane_scrollbar: Some(ScrollbarClickTarget::Thumb),
        ..HoverHits::default()
    };
    assert_eq!(state.compute_mouse_pointer_shape(&border, 40, 12), MousePointerShape::RowResize);
    let vertical_line = HoverHits { border: Some(Direction::Horizontal), ..HoverHits::default() };
    assert_eq!(state.compute_mouse_pointer_shape(&vertical_line, 40, 12), MousePointerShape::ColResize);
    let scrollbar = HoverHits {
        workspace_list_scrollbar: Some(ScrollbarClickTarget::Track),
        tab: true,
        ..HoverHits::default()
    };
    assert_eq!(state.compute_mouse_pointer_shape(&scrollbar, 18, 4), MousePointerShape::Pointer);
    let agent = HoverHits {
        agent_panel_scrollbar: Some(ScrollbarClickTarget::Thumb),
        ..HoverHits::default()
    };
    assert_eq!(state.compute_mouse_pointer_shape(&agent, 18, 14), MousePointerShape::Grab);
    let tab_and_button = HoverHits { tab: true, new_tab_button: true, ..HoverHits::default() };
    assert_eq!(state.compute_mouse_pointer_shape(&tab_and_button, 30, 0), MousePointerShape::Grab);
    let button = HoverHits { tab_scroll_right_button: true, ..HoverHits::default() };
    assert_eq!(state.compute_mouse_pointer_shape(&button, 70, 0), MousePointerShape::Pointer);
    let card = HoverHits { workspace_row: true, clickable_toast: true, ..HoverHits::default() };
    assert_eq!(state.compute_mouse_pointer_shape(&card, 5, 3), MousePointerShape::Grab);
    let toggle = HoverHits { agent_panel_scope_toggle: true, ..HoverHits::default() };
    assert_eq!(state.compute_mouse_pointer_shape(&toggle, 5, 15), MousePointerShape::Pointer);
    let toast = HoverHits { clickable_toast: true, ..HoverHits::default() };
    assert_eq!(state.compute_mouse_pointer_shape(&toast, 60, 20), MousePointerShape::Pointer);
}

#[test]
fn launcher_button_points_only_when_the_sidebar_is_open() {
    let mut state = app_state();
    state.mouse_pointer_shapes_enabled = true;
    let none = HoverHits::default();
    assert_eq!(state.compute_mouse_pointer_shape(&none, 76, 23), MousePointerShape::Pointer);
    assert_eq!(state.compute_mouse_pointer_shape(&none, 79, 23), MousePointerShape::Pointer);
    assert_eq!(state.compute_mouse_pointer_shape(&none, 75, 23), MousePointerShape::Default);
    assert_eq!(state.compute_mouse_pointer_shape(&none, 76, 22), MousePointerShape::Default);
    state.sidebar_collapsed = true;
    assert_eq!(state.compute_mouse_pointer_shape(&none, 76, 23), MousePointerShape::Default);
}

#[test]
fn recompute_from_last_pos_uses_the_last_position() {
    let mut state = app_state();
    state.mouse_pointer_shapes_enabled = true;
    state.pending_mouse_pointer_shape = MousePointerShape::Grab;
    state.recompute_mouse_pointer_shape_from_last_pos(&on_sidebar_divider());
    // No mouse seen yet: nothing changes.
    assert_eq!(state.pending_mouse_pointer_shape, MousePointerShape::Grab);
    state.last_mouse_pos = Some((77, 23));
    state.recompute_mouse_pointer_shape_from_last_pos(&HoverHits::default());
    assert_eq!(state.pending_mouse_pointer_shape, MousePointerShape::Pointer);
    state.recompute_mouse_pointer_shape_from_last_pos(&on_sidebar_divider());
    assert_eq!(state.pending_mouse_pointer_shape, MousePointerShape::ColResize);
    assert_eq!(state.last_mouse_pos, Some((77, 23)));
}

#[test]
fn rect_clamps_to_the_screen_edge_and_tests_membership() {
    let r = Rect::new(65530, 10, 100, 65535);
    assert_eq!((r.x(), r.y(), r.width(), r.height()), (65530, 10, 5, 65525));
    assert!(in_rect(r, 65534, 10));
    assert!(!in_rect(r, 65535, 10));
    assert!(!in_rect(r, 65529, 10));
    let s = Rect::new(2, 3, 4, 5);
    assert_eq!((s.x(), s.y(), s.width(), s.height()), (2, 3, 4, 5));
    assert!(in_rect(s, 2, 3));
    assert!(in_rect(s, 5, 7));
    assert!(!in_rect(s, 6, 7));
    assert!(!in_rect(s, 5, 8));
    assert!(!in_rect(Rect::new(0, 0, 0, 10), 0, 0));
}

//! Choosing the OS mouse pointer shape from the hover position and the drag
//! state. When the feature is off or the layout is mobile, the shape is always
//! `Default`, so that the renderer emits a reset.
use vstd::prelude::*;

use crate::cursor_shape::MousePointerShape;
use crate::geometry::{in_rect, Rect};

verus! {

/// The orientation of a split: `Horizontal` places children side by side,
/// `Vertical` stacks them.
#[derive(Debug, Clone, Copy, PartialEq, Eq, Structural)]
pub enum Direction {
    Horizontal,
    Vertical,
}

/// The part of a scrollbar under the pointer.
#[derive(Debug, Clone, Copy, PartialEq, Eq, Structural)]
pub enum ScrollbarClickTarget {
    /// The thumb, which can be dragged.
    Thumb,
    /// The track around the thumb, which can be clicked.
    Track,
}

/// What an active drag is moving.
#[derive(Debug, Clone, Copy, PartialEq, Eq, Structural)]
pub enum DragTarget {
    PaneSplit { direction: Direction },
    SidebarDivider,
    SidebarSectionDivider,
    TabReorder,
    WorkspaceReorder,
    WorkspaceListScrollbar,
    AgentPanelScrollbar,
    PaneScrollbar,
    ReleaseNotesScrollbar,
    ProductAnnouncementScrollbar,
    KeybindHelpScrollbar,
}

/// The input mode of the application.
#[derive(Debug, Clone, Copy, PartialEq, Eq, Structural)]
pub enum Mode {
    Onboarding,
    Settings,
    ConfirmClose,
    RenameWorkspace,
    RenameTab,
    RenamePane,
    Resize,
    ContextMenu,
    ReleaseNotes,
    ProductAnnouncement,
    KeybindHelp,
    GlobalMenu,
    Terminal,
    Navigate,
}

/// How the view is laid out; the mobile layout is touch-first.
#[derive(Debug, Clone, Copy, PartialEq, Eq, Structural)]
pub enum ViewLayout {
    Desktop,
    Mobile,
}

/// What the pointer is over at one cell: the results of the view's hit tests
/// at that cell.
#[derive(Debug, Clone, Copy, PartialEq, Eq, Default)]
pub struct HoverHits {
    /// Scrollbar part of the release-notes overlay under the pointer.
    pub release_notes_scrollbar: Option<ScrollbarClickTarget>,
    /// Scrollbar part of the product-announcement overlay under the pointer.
    pub product_announcement_scrollbar: Option<ScrollbarClickTarget>,
    /// Scrollbar part of the keybinding-help overlay under the pointer.
    pub keybind_help_scrollbar: Option<ScrollbarClickTarget>,
    /// An item of the global menu is under the pointer.
    pub global_menu_item: bool,
    /// The sidebar divider is under the pointer.
    pub sidebar_divider: bool,
    /// The divider between sidebar sections is under the pointer.
    pub sidebar_section_divider: bool,
    /// A pane border is under the pointer, with the direction of its split.
    pub border: Option<Direction>,
    /// Scrollbar part of a pane under the pointer.
    pub pane_scrollbar: Option<ScrollbarClickTarget>,
    /// Scrollbar part of the workspace list under the pointer.
    pub workspace_list_scrollbar: Option<ScrollbarClickTarget>,
    /// Scrollbar part of the agent panel under the pointer.
    pub agent_panel_scrollbar: Option<ScrollbarClickTarget>,
    /// A tab is under the pointer.
    pub tab: bool,
    /// The tab-bar scroll-left button is under the pointer.
    pub tab_scroll_left_button: bool,
    /// The tab-bar scroll-right button is under the pointer.
    pub tab_scroll_right_button: bool,
    /// The new-tab button is under the pointer.
    pub new_tab_button: bool,
    /// A workspace card is on the pointer's row.
    pub workspace_row: bool,
    /// The collapsed-sidebar toggle is under the pointer.
    pub collapsed_sidebar_toggle: bool,
    /// The agent-panel scope toggle is under the pointer.
    pub agent_panel_scope_toggle: bool,
    /// A clickable toast is under the pointer.
    pub clickable_toast: bool,
}

/// The state that the pointer shape depends on.
#[derive(Debug, Clone, Copy, PartialEq, Eq)]
pub struct AppState {
    /// Pointer shapes are enabled by configuration.
    pub mouse_pointer_shapes_enabled: bool,
    /// The current view layout.
    pub layout: ViewLayout,
    /// The target of the drag in progress, if any.
    pub drag: Option<DragTarget>,
    /// The current input mode.
    pub mode: Mode,
    /// The sidebar is collapsed.
    pub sidebar_collapsed: bool,
    /// The area of the global launcher button (bottom-right corner).
    pub global_launcher_rect: Rect,
    /// The last mouse position seen, as `(column, row)`.
    pub last_mouse_pos: Option<(u16, u16)>,
    /// The shape to publish at the next render.
    pub pending_mouse_pointer_shape: MousePointerShape,
}

/// The shape over a part of a scrollbar: the thumb can be grabbed, the track
/// clicked.
pub open spec fn scrollbar_shape(target: ScrollbarClickTarget) -> MousePointerShape {
    match target {
        ScrollbarClickTarget::Thumb => MousePointerShape::Grab,
        ScrollbarClickTarget::Track => MousePointerShape::Pointer,
    }
}

/// The shape over a divider: a horizontal split's divider is a vertical line
/// dragged sideways, a vertical split's divider a horizontal line dragged up
/// and down.
pub open spec fn split_shape(direction: Direction) -> MousePointerShape {
    match direction {
        Direction::Horizontal => MousePointerShape::ColResize,
        Direction::Vertical => MousePointerShape::RowResize,
    }
}

/// The shape kept for the whole of a drag.
pub open spec fn drag_shape(target: DragTarget) -> MousePointerShape {
    match target {
        DragTarget::PaneSplit { direction } => split_shape(direction),
        DragTarget::SidebarDivider => MousePointerShape::ColResize,
        DragTarget::SidebarSectionDivider => MousePointerShape::RowResize,
        _ => MousePointerShape::Grabbing,
    }
}

/// The shape over an optional scrollbar part; `Default` off the scrollbar.
pub open spec fn scrollbar_or_default(target: Option<ScrollbarClickTarget>) -> MousePointerShape {
    match target {
        Some(t) => scrollbar_shape(t),
        None => MousePointerShape::Default,
    }
}

/// Under a modal overlay, the shape that the overlay decides; `None` for the
/// two non-modal modes, `Terminal` and `Navigate`.
pub open spec fn modal_shape(mode: Mode, hits: HoverHits) -> Option<MousePointerShape> {
    match mode {
        Mode::ReleaseNotes => Some(scrollbar_or_default(hits.release_notes_scrollbar)),
        Mode::ProductAnnouncement => Some(scrollbar_or_default(hits.product_announcement_scrollbar)),
        Mode::KeybindHelp => Some(scrollbar_or_default(hits.keybind_help_scrollbar)),
        Mode::GlobalMenu => Some(
            if hits.global_menu_item {
                MousePointerShape::Pointer
            } else {
                MousePointerShape::Default
            },
        ),
        Mode::Terminal | Mode::Navigate => None,
        _ => Some(MousePointerShape::Default),
    }
}

/// Outside overlays, the shape of the first region under the pointer, in
/// priority order; `None` when none of them is.
pub open spec fn region_shape(hits: HoverHits) -> Option<MousePointerShape> {
    if hits.sidebar_divider {
        Some(MousePointerShape::ColResize)
    } else if hits.sidebar_section_divider {
        Some(MousePointerShape::RowResize)
    } else if hits.border is Some {
        Some(split_shape(hits.border->0))
    } else if hits.pane_scrollbar is Some {
        Some(scrollbar_shape(hits.pane_scrollbar->0))
    } else if hits.workspace_list_scrollbar is Some {
        Some(scrollbar_shape(hits.workspace_list_scrollbar->0))
    } else if hits.agent_panel_scrollbar is Some {
        Some(scrollbar_shape(hits.agent_panel_scrollbar->0))
    } else if hits.tab {
        Some(MousePointerShape::Grab)
    } else if hits.tab_scroll_left_button || hits.tab_scroll_right_button || hits.new_tab_button {
        Some(MousePointerShape::Pointer)
    } else if hits.workspace_row {
        Some(MousePointerShape::Grab)
    } else if hits.collapsed_sidebar_toggle || hits.agent_panel_scope_toggle {
        Some(MousePointerShape::Pointer)
    } else if hits.clickable_toast {
        Some(MousePointerShape::Pointer)
    } else {
        None
    }
}

/// The global launcher is shown: the sidebar is open and the mode is one in
/// which the launcher takes clicks.
pub open spec fn launcher_enabled(state: AppState) -> bool {
    &&& !state.sidebar_collapsed
    &&& (state.mode == Mode::Terminal || state.mode == Mode::Navigate || state.mode == Mode::Resize
        || state.mode == Mode::GlobalMenu || state.mode == Mode::KeybindHelp)
}

/// The pointer shape wanted with the pointer at `(col, row)`, where `hits` are
/// the hit tests at that cell.
pub open spec fn pointer_shape(state: AppState, hits: HoverHits, col: u16, row: u16) -> MousePointerShape {
    if !state.mouse_pointer_shapes_enabled || state.layout == ViewLayout::Mobile {
        MousePointerShape::Default
    } else if state.drag is Some {
        drag_shape(state.drag->0)
    } else if modal_shape(state.mode, hits) is Some {
        modal_shape(state.mode, hits)->0
    } else if region_shape(hits) is Some {
        region_shape(hits)->0
    } else if launcher_enabled(state) && state.global_launcher_rect.contains(col, row) {
        MousePointerShape::Pointer
    } else {
        MousePointerShape::Default
    }
}

/// With pointer shapes disabled, or in the mobile layout, the shape is always
/// `Default`, wherever the pointer is and whatever is being dragged.
pub proof fn lemma_disabled_or_mobile_is_default(state: AppState, hits: HoverHits, col: u16, row: u16)
    requires
        !state.mouse_pointer_shapes_enabled || state.layout == ViewLayout::Mobile,
    ensures
        pointer_shape(state, hits, col, row) == MousePointerShape::Default,
{
}

/// An active drag decides the shape alone: wherever the pointer goes and
/// whatever lies under it, the shape stays the drag's.
pub proof fn lemma_drag_overrides_hover(
    state: AppState,
    hits1: HoverHits,
    col1: u16,
    row1: u16,
    hits2: HoverHits,
    col2: u16,
    row2: u16,
)
    requires
        state.mouse_pointer_shapes_enabled,
        state.layout != ViewLayout::Mobile,
        state.drag is Some,
    ensures
        pointer_shape(state, hits1, col1, row1) == drag_shape(state.drag->0),
        pointer_shape(state, hits1, col1, row1) == pointer_shape(state, hits2, col2, row2),
{
}

/// Overlays without scrollbars or items (onboarding, settings, confirmation,
/// renaming, resizing, context menu) show the default pointer everywhere
/// while nothing is dragged.
pub proof fn lemma_plain_overlays_are_default(state: AppState, hits: HoverHits, col: u16, row: u16)
    requires
        state.drag is None,
        state.mode == Mode::Onboarding || state.mode == Mode::Settings || state.mode == Mode::ConfirmClose
            || state.mode == Mode::RenameWorkspace || state.mode == Mode::RenameTab
            || state.mode == Mode::RenamePane || state.mode == Mode::Resize || state.mode
            == Mode::ContextMenu,
    ensures
        pointer_shape(state, hits, col, row) == MousePointerShape::Default,
{
}

/// Under an overlay (any mode but `Terminal` and `Navigate`), only the
/// overlay's own scrollbars and menu items can change the shape: regions
/// beneath the overlay, and the pointer's position, do not.
pub proof fn lemma_overlay_hides_regions_below(
    state: AppState,
    hits1: HoverHits,
    col1: u16,
    row1: u16,
    hits2: HoverHits,
    col2: u16,
    row2: u16,
)
    requires
        state.mode != Mode::Terminal,
        state.mode != Mode::Navigate,
        hits1.release_notes_scrollbar == hits2.release_notes_scrollbar,
        hits1.product_announcement_scrollbar == hits2.product_announcement_scrollbar,
        hits1.keybind_help_scrollbar == hits2.keybind_help_scrollbar,
        hits1.global_menu_item == hits2.global_menu_item,
    ensures
        pointer_shape(state, hits1, col1, row1) == pointer_shape(state, hits2, col2, row2),
{
}

/// `Grabbing` is shown only while something is being dragged.
pub proof fn lemma_grabbing_only_while_dragging(state: AppState, hits: HoverHits, col: u16, row: u16)
    ensures
        pointer_shape(state, hits, col, row) == MousePointerShape::Grabbing ==> state.drag is Some,
{
}

/// Pointer shapes are on, the layout is not mobile, nothing is dragged and
/// the mode is one without an overlay (`Terminal` or `Navigate`).
pub open spec fn hovering_without_overlay(state: AppState) -> bool {
    &&& state.mouse_pointer_shapes_enabled
    &&& state.layout != ViewLayout::Mobile
    &&& state.drag is None
    &&& (state.mode == Mode::Terminal || state.mode == Mode::Navigate)
}

/// None of the regions outside overlays is under the pointer.
pub open spec fn no_region_hit(hits: HoverHits) -> bool {
    &&& !hits.sidebar_divider
    &&& !hits.sidebar_section_divider
    &&& hits.border is None
    &&& hits.pane_scrollbar is None
    &&& hits.workspace_list_scrollbar is None
    &&& hits.agent_panel_scrollbar is None
    &&& !hits.tab
    &&& !hits.tab_scroll_left_button
    &&& !hits.tab_scroll_right_button
    &&& !hits.new_tab_button
    &&& !hits.workspace_row
    &&& !hits.collapsed_sidebar_toggle
    &&& !hits.agent_panel_scope_toggle
    &&& !hits.clickable_toast
}

/// Every drag keeps its own shape: dividers resize along their axis, and
/// anything else being moved (tabs, workspace cards, scrollbar thumbs) is
/// shown grabbed.
pub proof fn lemma_drag_shapes(state: AppState, hits: HoverHits, col: u16, row: u16)
    requires
        state.mouse_pointer_shapes_enabled,
        state.layout != ViewLayout::Mobile,
        state.drag is Some,
    ensures
        state.drag == Some(DragTarget::PaneSplit { direction: Direction::Horizontal })
            ==> pointer_shape(state, hits, col, row) == MousePointerShape::ColResize,
        state.drag == Some(DragTarget::PaneSplit { direction: Direction::Vertical })
            ==> pointer_shape(state, hits, col, row) == MousePointerShape::RowResize,
        state.drag == Some(DragTarget::SidebarDivider) ==> pointer_shape(state, hits, col, row)
            == MousePointerShape::ColResize,
        state.drag == Some(DragTarget::SidebarSectionDivider) ==> pointer_shape(state, hits, col, row)
            == MousePointerShape::RowResize,
        !(state.drag matches Some(DragTarget::PaneSplit { .. })) && state.drag != Some(DragTarget::SidebarDivider)
            && state.drag != Some(DragTarget::SidebarSectionDivider) ==> pointer_shape(state, hits, col, row)
            == MousePointerShape::Grabbing,
{
}

/// Under the release-notes, product-announcement and keybinding-help
/// overlays, the overlay's scrollbar thumb can be grabbed, its track clicked,
/// and anywhere else the pointer is the default one.
pub proof fn lemma_overlay_scrollbars(state: AppState, hits: HoverHits, col: u16, row: u16)
    requires
        state.mouse_pointer_shapes_enabled,
        state.layout != ViewLayout::Mobile,
        state.drag is None,
    ensures
        state.mode == Mode::ReleaseNotes ==> pointer_shape(state, hits, col, row) == (match hits.release_notes_scrollbar {
            Some(ScrollbarClickTarget::Thumb) => MousePointerShape::Grab,
            Some(ScrollbarClickTarget::Track) => MousePointerShape::Pointer,
            None => MousePointerShape::Default,
        }),
        state.mode == Mode::ProductAnnouncement ==> pointer_shape(state, hits, col, row) == (match hits.product_announcement_scrollbar {
            Some(ScrollbarClickTarget::Thumb) => MousePointerShape::Grab,
            Some(ScrollbarClickTarget::Track) => MousePointerShape::Pointer,
            None => MousePointerShape::Default,
        }),
        state.mode == Mode::KeybindHelp ==> pointer_shape(state, hits, col, row) == (match hits.keybind_help_scrollbar {
            Some(ScrollbarClickTarget::Thumb) => MousePointerShape::Grab,
            Some(ScrollbarClickTarget::Track) => MousePointerShape::Pointer,
            None => MousePointerShape::Default,
        }),
        state.mode == Mode::GlobalMenu ==> pointer_shape(state, hits, col, row) == (if hits.global_menu_item {
            MousePointerShape::Pointer
        } else {
            MousePointerShape::Default
        }),
{
}

/// Outside overlays, the dividers come first: the sidebar divider resizes
/// columns, the sidebar section divider rows, and a pane border along the
/// axis of its split.
pub proof fn lemma_dividers(state: AppState, hits: HoverHits, col: u16, row: u16)
    requires
        hovering_without_overlay(state),
    ensures
        hits.sidebar_divider ==> pointer_shape(state, hits, col, row) == MousePointerShape::ColResize,
        !hits.sidebar_divider && hits.sidebar_section_divider ==> pointer_shape(state, hits, col, row)
            == MousePointerShape::RowResize,
        !hits.sidebar_divider && !hits.sidebar_section_divider && hits.border == Some(Direction::Horizontal)
            ==> pointer_shape(state, hits, col, row) == MousePointerShape::ColResize,
        !hits.sidebar_divider && !hits.sidebar_section_divider && hits.border == Some(Direction::Vertical)
            ==> pointer_shape(state, hits, col, row) == MousePointerShape::RowResize,
{
}

/// Outside overlays and off the dividers, a scrollbar under the pointer
/// (a pane's, then the workspace list's, then the agent panel's) decides:
/// its thumb can be grabbed and its track clicked.
pub proof fn lemma_region_scrollbars(state: AppState, hits: HoverHits, col: u16, row: u16)
    requires
        hovering_without_overlay(state),
        !hits.sidebar_divider,
        !hits.sidebar_section_divider,
        hits.border is None,
    ensures
        hits.pane_scrollbar == Some(ScrollbarClickTarget::Thumb) ==> pointer_shape(state, hits, col, row)
            == MousePointerShape::Grab,
        hits.pane_scrollbar == Some(ScrollbarClickTarget::Track) ==> pointer_shape(state, hits, col, row)
            == MousePointerShape::Pointer,
        hits.pane_scrollbar is None && hits.workspace_list_scrollbar == Some(ScrollbarClickTarget::Thumb)
            ==> pointer_shape(state, hits, col, row) == MousePointerShape::Grab,
        hits.pane_scrollbar is None && hits.workspace_list_scrollbar == Some(ScrollbarClickTarget::Track)
            ==> pointer_shape(state, hits, col, row) == MousePointerShape::Pointer,
        hits.pane_scrollbar is None && hits.workspace_list_scrollbar is None && hits.agent_panel_scrollbar
            == Some(ScrollbarClickTarget::Thumb) ==> pointer_shape(state, hits, col, row)
            == MousePointerShape::Grab,
        hits.pane_scrollbar is None && hits.workspace_list_scrollbar is None && hits.agent_panel_scrollbar
            == Some(ScrollbarClickTarget::Track) ==> pointer_shape(state, hits, col, row)
            == MousePointerShape::Pointer,
{
}

/// Outside overlays, off dividers and scrollbars: tabs and workspace cards
/// can be grabbed; the tab-bar buttons, the sidebar toggles and clickable
/// toasts are clicked; tabs win over the tab-bar buttons, which win over
/// workspace cards, which win over toggles and toasts.
pub proof fn lemma_clickable_regions(state: AppState, hits: HoverHits, col: u16, row: u16)
    requires
        hovering_without_overlay(state),
        !hits.sidebar_divider,
        !hits.sidebar_section_divider,
        hits.border is None,
        hits.pane_scrollbar is None,
        hits.workspace_list_scrollbar is None,
        hits.agent_panel_scrollbar is None,
    ensures
        hits.tab ==> pointer_shape(state, hits, col, row) == MousePointerShape::Grab,
        !hits.tab && (hits.tab_scroll_left_button || hits.tab_scroll_right_button || hits.new_tab_button)
            ==> pointer_shape(state, hits, col, row) == MousePointerShape::Pointer,
        !hits.tab && !hits.tab_scroll_left_button && !hits.tab_scroll_right_button && !hits.new_tab_button
            && hits.workspace_row ==> pointer_shape(state, hits, col, row) == MousePointerShape::Grab,
        !hits.tab && !hits.tab_scroll_left_button && !hits.tab_scroll_right_button && !hits.new_tab_button
            && !hits.workspace_row && (hits.collapsed_sidebar_toggle || hits.agent_panel_scope_toggle
            || hits.clickable_toast) ==> pointer_shape(state, hits, col, row) == MousePointerShape::Pointer,
{
}

/// Outside overlays and with nothing else under the pointer, the global
/// launcher button is clicked when the sidebar is open (in `Terminal` and in
/// `Navigate` alike); anywhere else the pointer is the default one.
pub proof fn lemma_launcher_or_default(state: AppState, hits: HoverHits, col: u16, row: u16)
    requires
        hovering_without_overlay(state),
        no_region_hit(hits),
    ensures
        pointer_shape(state, hits, col, row) == (if !state.sidebar_collapsed
            && state.global_launcher_rect.spec_x() <= col
            && col < state.global_launcher_rect.spec_x() + state.global_launcher_rect.spec_width()
            && state.global_launcher_rect.spec_y() <= row
            && row < state.global_launcher_rect.spec_y() + state.global_launcher_rect.spec_height() {
            MousePointerShape::Pointer
        } else {
            MousePointerShape::Default
        }),
{
}

/// `Terminal` and `Navigate` choose the same shape everywhere.
pub proof fn lemma_terminal_and_navigate_agree(state: AppState, hits: HoverHits, col: u16, row: u16)
    requires
        state.mode == Mode::Terminal,
    ensures
        pointer_shape(state, hits, col, row) == pointer_shape(AppState { mode: Mode::Navigate, ..state }, hits, col, row),
{
}

/// The shape over a part of a scrollbar.
pub fn shape_for_scrollbar_target(target: &ScrollbarClickTarget) -> (shape: MousePointerShape)
    ensures
        shape == scrollbar_shape(*target),
        *target == ScrollbarClickTarget::Thumb ==> shape == MousePointerShape::Grab,
        *target == ScrollbarClickTarget::Track ==> shape == MousePointerShape::Pointer,
{
    match target {
        ScrollbarClickTarget::Thumb => MousePointerShape::Grab,
        ScrollbarClickTarget::Track => MousePointerShape::Pointer,
    }
}

/// The shape kept while dragging `target`.
pub fn shape_for_drag_target(target: &DragTarget) -> (shape: MousePointerShape)
    ensures
        shape == drag_shape(*target),
        *target == (DragTarget::PaneSplit { direction: Direction::Horizontal }) ==> shape == MousePointerShape::ColResize,
        *target == (DragTarget::PaneSplit { direction: Direction::Vertical }) ==> shape == MousePointerShape::RowResize,
        *target == DragTarget::SidebarDivider ==> shape == MousePointerShape::ColResize,
        *target == DragTarget::SidebarSectionDivider ==> shape == MousePointerShape::RowResize,
        !(*target matches DragTarget::PaneSplit { .. }) && *target != DragTarget::SidebarDivider
            && *target != DragTarget::SidebarSectionDivider ==> shape == MousePointerShape::Grabbing,
{
    match target {
        DragTarget::PaneSplit { direction } => match direction {
            Direction::Horizontal => MousePointerShape::ColResize,
            Direction::Vertical => MousePointerShape::RowResize,
        },
        DragTarget::SidebarDivider => MousePointerShape::ColResize,
        DragTarget::SidebarSectionDivider => MousePointerShape::RowResize,
        DragTarget::TabReorder | DragTarget::WorkspaceReorder => MousePointerShape::Grabbing,
        DragTarget::WorkspaceListScrollbar
        | DragTarget::AgentPanelScrollbar
        | DragTarget::PaneScrollbar
        | DragTarget::ReleaseNotesScrollbar
        | DragTarget::ProductAnnouncementScrollbar
        | DragTarget::KeybindHelpScrollbar => MousePointerShape::Grabbing,
    }
}

fn scrollbar_target_or_default(target: Option<ScrollbarClickTarget>) -> (shape: MousePointerShape)
    ensures
        shape == scrollbar_or_default(target),
{
    match target {
        Some(t) => shape_for_scrollbar_target(&t),
        None => MousePointerShape::Default,
    }
}

impl AppState {
    /// The pointer shape for the pointer at `(col, row)`, where `hits` are the
    /// view's hit tests at that cell.
    pub fn compute_mouse_pointer_shape(&self, hits: &HoverHits, col: u16, row: u16) -> (shape: MousePointerShape)
        ensures
            shape == pointer_shape(*self, *hits, col, row),
    {
        // Disabled by config: always default.
        if !self.mouse_pointer_shapes_enabled {
            return MousePointerShape::Default;
        }
        // The mobile layout is touch-first; hover has no meaning there.
        if self.layout == ViewLayout::Mobile {
            return MousePointerShape::Default;
        }
        // An active drag keeps its shape as the pointer leaves the region.
        if let Some(drag) = &self.drag {
            return shape_for_drag_target(drag);
        }
        // Modal overlays: only their scrollbars and items change the shape.
        match self.mode {
            Mode::Onboarding
            | Mode::Settings
            | Mode::ConfirmClose
            | Mode::RenameWorkspace
            | Mode::RenameTab
            | Mode::RenamePane
            | Mode::Resize
            | Mode::ContextMenu => {
                return MousePointerShape::Default;
            },
            Mode::ReleaseNotes => {
                return scrollbar_target_or_default(hits.release_notes_scrollbar);
            },
            Mode::ProductAnnouncement => {
                return scrollbar_target_or_default(hits.product_announcement_scrollbar);
            },
            Mode::KeybindHelp => {
                return scrollbar_target_or_default(hits.keybind_help_scrollbar);
            },
            Mode::GlobalMenu => {
                return if hits.global_menu_item {
                    MousePointerShape::Pointer
                } else {
                    MousePointerShape::Default
                };
            },
            Mode::Terminal | Mode::Navigate => {},
        }
        // Regions outside overlays, in the order in which clicks test them.
        if hits.sidebar_divider {
            return MousePointerShape::ColResize;
        }
        if hits.sidebar_section_divider {
            return MousePointerShape::RowResize;
        }
        if let Some(direction) = hits.border {
            return match direction {
                Direction::Horizontal => MousePointerShape::ColResize,
                Direction::Vertical => MousePointerShape::RowResize,
            };
        }
        if let Some(target) = hits.pane_scrollbar {
            return shape_for_scrollbar_target(&target);
        }
        if let Some(target) = hits.workspace_list_scrollbar {
            return shape_for_scrollbar_target(&target);
        }
        if let Some(target) = hits.agent_panel_scrollbar {
            return shape_for_scrollbar_target(&target);
        }
        if hits.tab {
            return MousePointerShape::Grab;
        }
        if hits.tab_scroll_left_button || hits.tab_scroll_right_button || hits.new_tab_button {
            return MousePointerShape::Pointer;
        }
        if hits.workspace_row {
            return MousePointerShape::Grab;
        }
        if hits.collapsed_sidebar_toggle || hits.agent_panel_scope_toggle {
            return MousePointerShape::Pointer;
        }
        if hits.clickable_toast {
            return MousePointerShape::Pointer;
        }
        // The global launcher in the bottom-right corner.
        let launcher_enabled = !self.sidebar_collapsed && (match self.mode {
            Mode::Terminal | Mode::Navigate | Mode::Resize | Mode::GlobalMenu | Mode::KeybindHelp => true,
            _ => false,
        });
        if launcher_enabled && in_rect(self.global_launcher_rect, col, row) {
            return MousePointerShape::Pointer;
        }
        MousePointerShape::Default
    }

    /// Recomputes the wanted pointer shape after a mouse event at
    /// `(col, row)`, where `hits` are the hit tests at that cell; it is
    /// published at the next render.
    pub fn recompute_mouse_pointer_shape(&mut self, hits: &HoverHits, col: u16, row: u16)
        ensures
            *final(self) == (AppState {
                pending_mouse_pointer_shape: pointer_shape(*old(self), *hits, col, row),
                ..*old(self)
            }),
    {
        self.pending_mouse_pointer_shape = self.compute_mouse_pointer_shape(hits, col, row);
    }

    /// Recomputes the wanted pointer shape at the last known mouse position
    /// after a change of the view's geometry, where `hits` are the hit tests
    /// at that position. Nothing changes when no mouse has been seen yet.
    pub fn recompute_mouse_pointer_shape_from_last_pos(&mut self, hits: &HoverHits)
        ensures
            *final(self) == (match old(self).last_mouse_pos {
                Some((col, row)) => AppState {
                    pending_mouse_pointer_shape: pointer_shape(*old(self), *hits, col, row),
                    ..*old(self)
                },
                None => *old(self),
            }),
    {
        if let Some((col, row)) = self.last_mouse_pos {
            self.pending_mouse_pointer_shape = self.compute_mouse_pointer_shape(hits, col, row);
        }
    }
}

} // verus!

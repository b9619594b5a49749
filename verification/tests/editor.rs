use autonomous_driving::editor::history::{EditorHistory, MAX_UNDO_SNAPSHOTS};
use autonomous_driving::editor::state::{EditorState, EditorTool};
use autonomous_driving::editor::tools::{
    history_shortcut, EditAction, HistoryStep, PointTarget, PointerInput,
};

fn press() -> PointerInput {
    PointerInput {
        over_ui: false,
        left_pressed: true,
        left_down: true,
        left_released: false,
        right_pressed: false,
    }
}

fn hold() -> PointerInput {
    PointerInput { left_pressed: false, ..press() }
}

fn release() -> PointerInput {
    PointerInput { left_pressed: false, left_down: false, left_released: true, ..press() }
}

#[test]
fn history_undo_then_redo_round_trip() {
    let mut history: EditorHistory<u32> = EditorHistory::new();
    history.push_snapshot(1);
    history.push_snapshot(2);
    assert_eq!(history.pop_undo(3), Some(2));
    assert_eq!(history.redo_stack, vec![3]);
    assert_eq!(history.pop_redo(2), Some(3));
    assert_eq!(history.undo_stack, vec![1, 2]);
    assert!(history.redo_stack.is_empty());
}

#[test]
fn history_push_clears_redo() {
    let mut history: EditorHistory<u32> = EditorHistory::new();
    history.push_snapshot(1);
    assert_eq!(history.pop_undo(2), Some(1));
    history.push_snapshot(5);
    assert_eq!(history.pop_redo(9), None);
    assert_eq!(history.undo_stack, vec![5]);
}

#[test]
fn history_empty_stacks_give_nothing() {
    let mut history: EditorHistory<u32> = EditorHistory::new();
    assert_eq!(history.pop_undo(1), None);
    assert_eq!(history.pop_redo(1), None);
    assert!(history.undo_stack.is_empty() && history.redo_stack.is_empty());
}

#[test]
fn history_keeps_at_most_the_limit() {
    let mut history: EditorHistory<usize> = EditorHistory::new();
    for i in 0..(MAX_UNDO_SNAPSHOTS + 7) {
        history.push_snapshot(i);
    }
    assert_eq!(history.undo_stack.len(), MAX_UNDO_SNAPSHOTS);
    assert_eq!(history.undo_stack[0], 7);
    assert_eq!(*history.undo_stack.last().unwrap(), MAX_UNDO_SNAPSHOTS + 6);
}

#[test]
fn editor_state_starts_with_pen() {
    let state: EditorState<u8> = EditorState::new();
    assert_eq!(state.active_tool, EditorTool::PenDraw);
    assert!(state.show_help_overlay);
    assert!(!state.is_drawing);
    assert_eq!(state.hovered_node_index, None);
}

#[test]
fn select_move_drags_node_until_release() {
    let mut state: EditorState<u8> = EditorState::new();
    state.select_tool(EditorTool::SelectMove);
    state.hovered_node_index = Some(4);
    let actions = state.select_move_step(&press(), false);
    assert_eq!(
        actions,
        vec![EditAction::SaveSnapshot, EditAction::MovePoint(4), EditAction::Rebuild(3)]
    );
    assert!(state.is_dragging_node);
    assert_eq!(state.selected_node_index, Some(4));
    let actions = state.select_move_step(&hold(), false);
    assert_eq!(actions, vec![EditAction::MovePoint(4), EditAction::Rebuild(3)]);
    let actions = state.select_move_step(&release(), false);
    assert_eq!(actions, vec![EditAction::Rebuild(5)]);
    assert!(!state.is_dragging_node);
}

#[test]
fn select_move_drags_grid_and_clears_selection() {
    let mut state: EditorState<u8> = EditorState::new();
    let actions = state.select_move_step(&press(), true);
    assert_eq!(
        actions,
        vec![EditAction::SaveSnapshot, EditAction::MoveGrid, EditAction::Rebuild(3)]
    );
    state.select_move_step(&release(), true);
    state.selected_node_index = Some(2);
    let actions = state.select_move_step(&press(), false);
    assert!(actions.is_empty());
    assert_eq!(state.selected_node_index, None);
}

#[test]
fn node_place_closes_loop_near_entry() {
    let mut state: EditorState<u8> = EditorState::new();
    assert_eq!(
        state.node_place_step(&press(), 0, false),
        vec![
            EditAction::SaveSnapshot,
            EditAction::AddPoint(PointTarget::ExitTarget),
            EditAction::AddPoint(PointTarget::Mouse),
            EditAction::Rebuild(5),
        ]
    );
    assert_eq!(
        state.node_place_step(&press(), 2, true),
        vec![EditAction::SaveSnapshot, EditAction::AddPoint(PointTarget::Mouse), EditAction::Rebuild(5)]
    );
    assert_eq!(
        state.node_place_step(&press(), 3, true),
        vec![
            EditAction::SaveSnapshot,
            EditAction::AddPoint(PointTarget::EntryTarget),
            EditAction::CloseLoop,
            EditAction::Rebuild(5),
        ]
    );
    let over_panel = PointerInput { over_ui: true, ..press() };
    assert!(state.node_place_step(&over_panel, 3, true).is_empty());
}

#[test]
fn node_delete_and_right_click_delete() {
    let mut state: EditorState<u8> = EditorState::new();
    assert!(state.node_delete_step(&press()).is_empty());
    state.hovered_node_index = Some(1);
    assert_eq!(
        state.node_delete_step(&press()),
        vec![EditAction::SaveSnapshot, EditAction::RemovePoint(1), EditAction::Rebuild(5)]
    );
    assert_eq!(state.hovered_node_index, None);
    state.hovered_node_index = Some(6);
    state.selected_node_index = Some(6);
    let right = PointerInput { right_pressed: true, left_pressed: false, ..press() };
    let (used, actions) = state.right_click_delete(&right);
    assert!(used);
    assert_eq!(
        actions,
        vec![EditAction::SaveSnapshot, EditAction::RemovePoint(6), EditAction::Rebuild(5)]
    );
    assert_eq!(state.selected_node_index, None);
    let (used, actions) = state.right_click_delete(&right);
    assert!(!used && actions.is_empty());
}

#[test]
fn pen_stroke_from_press_to_release() {
    let mut state: EditorState<u8> = EditorState::new();
    let actions = state.pen_draw_step(&press(), true, false);
    assert_eq!(
        actions,
        vec![
            EditAction::SaveSnapshot,
            EditAction::AddPoint(PointTarget::ExitTarget),
            EditAction::AddPoint(PointTarget::Mouse),
            EditAction::Rebuild(2),
        ]
    );
    assert!(state.is_drawing);
    assert!(state.pen_release_step(&hold(), false).is_empty());
    let actions = state.pen_draw_step(&hold(), false, true);
    assert_eq!(
        actions,
        vec![EditAction::AddPoint(PointTarget::EntryTarget), EditAction::Rebuild(2)]
    );
    assert!(state.pen_draw_step(&release(), false, true).is_empty());
    let actions = state.pen_release_step(&release(), true);
    assert_eq!(
        actions,
        vec![
            EditAction::SnapLastToEntry,
            EditAction::CloseLoop,
            EditAction::Simplify,
            EditAction::Rebuild(5),
        ]
    );
    assert!(!state.is_drawing);
}

#[test]
fn switching_tool_drops_stroke() {
    let mut state: EditorState<u8> = EditorState::new();
    state.pen_draw_step(&press(), false, false);
    state.select_tool(EditorTool::NodeDelete);
    assert!(!state.is_drawing);
    assert_eq!(state.active_tool, EditorTool::NodeDelete);
}

#[test]
fn grid_rotation_saves_once_per_gesture() {
    let mut state: EditorState<u8> = EditorState::new();
    assert!(state.grid_rotation_step(true));
    assert!(!state.grid_rotation_step(true));
    assert!(!state.grid_rotation_step(false));
    assert!(state.grid_rotation_step(true));
}

#[test]
fn hovered_node_is_closest_within_radius() {
    let mut state: EditorState<u8> = EditorState::new();
    let keys = vec![30u32, 12, 40, 12, 5];
    state.update_hovered_node(&keys, 10);
    assert_eq!(state.hovered_node_index, Some(4));
    state.update_hovered_node(&keys, 5);
    assert_eq!(state.hovered_node_index, None);
    state.update_hovered_node(&vec![20, 8, 8], 10);
    assert_eq!(state.hovered_node_index, Some(1));
}

#[test]
fn history_shortcuts() {
    assert_eq!(history_shortcut(true, false, true), Some(HistoryStep::Undo));
    assert_eq!(history_shortcut(true, true, true), Some(HistoryStep::Redo));
    assert_eq!(history_shortcut(false, true, true), None);
    assert_eq!(history_shortcut(true, true, false), None);
}

#[test]
fn history_undo_right_after_push_gives_pushed() {
    let mut history: EditorHistory<u32> = EditorHistory::new();
    history.push_snapshot(4);
    history.push_snapshot(8);
    assert_eq!(history.pop_undo(11), Some(8));
    assert_eq!(history.redo_stack, vec![11]);
    assert_eq!(history.undo_stack, vec![4]);
}

#[test]
fn history_redo_then_undo_round_trip() {
    let mut history: EditorHistory<u32> = EditorHistory::new();
    history.push_snapshot(1);
    assert_eq!(history.pop_undo(2), Some(1));
    assert_eq!(history.pop_redo(1), Some(2));
    assert_eq!(history.pop_undo(2), Some(1));
    assert_eq!(history.undo_stack, Vec::<u32>::new());
    assert_eq!(history.redo_stack, vec![2]);
}

#[test]
fn panel_press_starts_nothing() {
    let mut state: EditorState<u8> = EditorState::new();
    let over_panel = PointerInput { over_ui: true, ..press() };
    state.hovered_node_index = Some(0);
    assert!(state.select_move_step(&over_panel, true).is_empty());
    assert!(!state.is_dragging_start && !state.is_dragging_node);
    assert!(state.pen_draw_step(&over_panel, true, false).is_empty());
    assert!(!state.is_drawing);
    assert!(state.node_delete_step(&over_panel).is_empty());
    assert_eq!(state.hovered_node_index, Some(0));
}

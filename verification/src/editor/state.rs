//! What the editor remembers between frames, apart from its screen layout:
//! the active tool, the drags and drawing under way, the selected and
//! hovered nodes, and the undo/redo history of track snapshots `S`.

use vstd::prelude::*;
use crate::editor::history::{EditorHistory, HistoryModel};

verus! {

/// The editing tools.
#[derive(Clone, Copy, Debug, PartialEq, Eq, Structural)]
pub enum EditorTool {
    SelectMove,
    PenDraw,
    NodePlace,
    NodeDelete,
}

/// The flags and indices the tools read and change, as plain values.
pub struct ToolView {
    pub active_tool: EditorTool,
    pub is_drawing: bool,
    pub is_dragging_start: bool,
    pub is_dragging_node: bool,
    pub is_rotating_grid: bool,
    pub selected_node_index: Option<usize>,
    pub hovered_node_index: Option<usize>,
}

pub struct EditorState<S> {
    pub active_tool: EditorTool,
    pub is_drawing: bool,
    pub is_dragging_start: bool,
    pub is_dragging_node: bool,
    pub is_rotating_grid: bool,
    pub selected_node_index: Option<usize>,
    pub hovered_node_index: Option<usize>,
    pub history: EditorHistory<S>,
    pub show_help_overlay: bool,
}

impl<S> EditorState<S> {
    pub open spec fn tools(&self) -> ToolView {
        ToolView {
            active_tool: self.active_tool,
            is_drawing: self.is_drawing,
            is_dragging_start: self.is_dragging_start,
            is_dragging_node: self.is_dragging_node,
            is_rotating_grid: self.is_rotating_grid,
            selected_node_index: self.selected_node_index,
            hovered_node_index: self.hovered_node_index,
        }
    }

    /// The editor as it opens: pen tool, nothing under way, empty history,
    /// help shown.
    pub fn new() -> (s: Self)
        ensures
            s.tools() == (ToolView {
                active_tool: EditorTool::PenDraw,
                is_drawing: false,
                is_dragging_start: false,
                is_dragging_node: false,
                is_rotating_grid: false,
                selected_node_index: None,
                hovered_node_index: None,
            }),
            s.history@ == (HistoryModel::<S> { undo: Seq::empty(), redo: Seq::empty() }),
            s.show_help_overlay,
    {
        let history = EditorHistory::new();
        assert(history@ =~= (HistoryModel::<S> { undo: Seq::empty(), redo: Seq::empty() }));
        EditorState {
            active_tool: EditorTool::PenDraw,
            is_drawing: false,
            is_dragging_start: false,
            is_dragging_node: false,
            is_rotating_grid: false,
            selected_node_index: None,
            hovered_node_index: None,
            history,
            show_help_overlay: true,
        }
    }
}

} // verus!

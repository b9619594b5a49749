//! The decisions of the editing tools. Each frame the editor is told what
//! the mouse did and the few geometric facts that matter (is the mouse on
//! the start grid, near the loop's entry target), and answers with the edits
//! to make to the track, in order.

use vstd::prelude::*;
use crate::editor::state::{EditorState, EditorTool, ToolView};
use crate::track::query::{is_first_min_below, nearest_within};

verus! {

/// Samples per segment when the track is rebuilt after an edit.
pub const FULL_REBUILD_SAMPLES: usize = 5;

/// Samples per segment while something is being dragged.
pub const DRAG_REBUILD_SAMPLES: usize = 3;

/// Samples per segment while the pen is drawing.
pub const PEN_REBUILD_SAMPLES: usize = 2;

/// What the mouse did this frame.
#[derive(Clone, Copy, Debug)]
pub struct PointerInput {
    /// The mouse is over the editor's panel.
    pub over_ui: bool,
    pub left_pressed: bool,
    pub left_down: bool,
    pub left_released: bool,
    pub right_pressed: bool,
}

/// Where a new raw point goes.
#[derive(Clone, Copy, Debug, PartialEq, Eq, Structural)]
pub enum PointTarget {
    /// The point just ahead of the start grid where the track leaves it.
    ExitTarget,
    /// The point just behind the start grid where a closed loop comes back.
    EntryTarget,
    /// The mouse position.
    Mouse,
}

/// One edit of the track, to be carried out in the order given.
#[derive(Clone, Copy, Debug, PartialEq, Eq, Structural)]
pub enum EditAction {
    /// Push a snapshot of the track onto the undo history.
    SaveSnapshot,
    /// Add a raw point (the track drops it when it is too close to the
    /// last one).
    AddPoint(PointTarget),
    /// Remove the raw point at this index.
    RemovePoint(usize),
    /// Move the raw point at this index to the mouse.
    MovePoint(usize),
    /// Move the start grid to the mouse.
    MoveGrid,
    /// Put the last raw point exactly on the entry target.
    SnapLastToEntry,
    /// Mark the track as a closed loop.
    CloseLoop,
    /// Simplify the raw points.
    Simplify,
    /// Rebuild the track with this many samples per segment.
    Rebuild(usize),
}

/// Which way a keyboard shortcut moves through the history.
#[derive(Clone, Copy, Debug, PartialEq, Eq, Structural)]
pub enum HistoryStep {
    Undo,
    Redo,
}

/// The select/move tool: a press on the start grid starts dragging it, a
/// press on a node selects it and starts dragging it (each after saving a
/// snapshot), a press elsewhere clears the selection; a release ends the
/// drags (with a full rebuild if one was under way); a drag under way moves
/// its object to the mouse.
pub open spec fn select_move_effect(t: ToolView, input: PointerInput, near_grid: bool) -> (
    ToolView,
    Seq<EditAction>,
) {
    let (t1, a1) = if !input.over_ui && input.left_pressed {
        if near_grid {
            (ToolView { is_dragging_start: true, ..t }, seq![EditAction::SaveSnapshot])
        } else if t.hovered_node_index is Some {
            (
                ToolView {
                    selected_node_index: t.hovered_node_index,
                    is_dragging_node: true,
                    ..t
                },
                seq![EditAction::SaveSnapshot],
            )
        } else {
            (ToolView { selected_node_index: None, ..t }, Seq::empty())
        }
    } else {
        (t, Seq::empty())
    };
    let (t2, a2) = if input.left_released {
        (
            ToolView { is_dragging_start: false, is_dragging_node: false, ..t1 },
            if t1.is_dragging_start || t1.is_dragging_node {
                a1.push(EditAction::Rebuild(FULL_REBUILD_SAMPLES))
            } else {
                a1
            },
        )
    } else {
        (t1, a1)
    };
    let a3 = if t2.is_dragging_start {
        a2 + seq![EditAction::MoveGrid, EditAction::Rebuild(DRAG_REBUILD_SAMPLES)]
    } else {
        a2
    };
    let a4 = if t2.is_dragging_node && t2.selected_node_index is Some {
        a3 + seq![
            EditAction::MovePoint(t2.selected_node_index->0),
            EditAction::Rebuild(DRAG_REBUILD_SAMPLES),
        ]
    } else {
        a3
    };
    (t2, a4)
}

/// The node-place tool: a press saves a snapshot, starts an empty track at
/// the exit target, then adds the mouse position, or closes the loop at
/// the entry target when the mouse is near it and the track already has
/// more than two points; then the track is rebuilt.
pub open spec fn node_place_actions(
    input: PointerInput,
    points_len: nat,
    near_entry: bool,
) -> Seq<EditAction> {
    if !input.over_ui && input.left_pressed {
        let start = if points_len == 0 {
            seq![EditAction::SaveSnapshot, EditAction::AddPoint(PointTarget::ExitTarget)]
        } else {
            seq![EditAction::SaveSnapshot]
        };
        let placed = if near_entry && points_len > 2 {
            seq![EditAction::AddPoint(PointTarget::EntryTarget), EditAction::CloseLoop]
        } else {
            seq![EditAction::AddPoint(PointTarget::Mouse)]
        };
        start + placed + seq![EditAction::Rebuild(FULL_REBUILD_SAMPLES)]
    } else {
        Seq::empty()
    }
}

/// Deleting the hovered node: a snapshot, the removal, a rebuild.
pub open spec fn delete_actions(index: usize) -> Seq<EditAction> {
    seq![
        EditAction::SaveSnapshot,
        EditAction::RemovePoint(index),
        EditAction::Rebuild(FULL_REBUILD_SAMPLES),
    ]
}

/// The first half of a pen frame: a press saves a snapshot, starts drawing
/// and starts an empty track at the exit target; while the button is held
/// the pen adds the mouse position (the entry target when near it) and
/// rebuilds roughly.
pub open spec fn pen_draw_effect(
    t: ToolView,
    input: PointerInput,
    points_empty: bool,
    near_entry: bool,
) -> (ToolView, Seq<EditAction>) {
    let (t1, a1) = if !input.over_ui && input.left_pressed {
        (
            ToolView { is_drawing: true, ..t },
            if points_empty {
                seq![EditAction::SaveSnapshot, EditAction::AddPoint(PointTarget::ExitTarget)]
            } else {
                seq![EditAction::SaveSnapshot]
            },
        )
    } else {
        (t, Seq::empty())
    };
    let a2 = if t1.is_drawing && input.left_down {
        a1 + seq![
            EditAction::AddPoint(
                if near_entry {
                    PointTarget::EntryTarget
                } else {
                    PointTarget::Mouse
                },
            ),
            EditAction::Rebuild(PEN_REBUILD_SAMPLES),
        ]
    } else {
        a1
    };
    (t1, a2)
}

/// The second half of a pen frame: releasing the button ends the stroke;
/// when its last point is near the entry target it is put exactly there
/// and the loop closed; the points are simplified and the track rebuilt.
pub open spec fn pen_release_actions(
    t: ToolView,
    input: PointerInput,
    last_near_entry: bool,
) -> Seq<EditAction> {
    if input.left_released && t.is_drawing {
        let closing = if last_near_entry {
            seq![EditAction::SnapLastToEntry, EditAction::CloseLoop]
        } else {
            Seq::empty()
        };
        closing + seq![EditAction::Simplify, EditAction::Rebuild(FULL_REBUILD_SAMPLES)]
    } else {
        Seq::empty()
    }
}

/// Releasing the button ends every drag of the select/move tool: nothing is
/// dragged after the frame, and the frame moves neither the grid nor a node.
pub proof fn lemma_release_ends_drags(t: ToolView, input: PointerInput, near_grid: bool)
    requires
        input.left_released,
    ensures
        !select_move_effect(t, input, near_grid).0.is_dragging_start,
        !select_move_effect(t, input, near_grid).0.is_dragging_node,
        forall|k: int|
            0 <= k < select_move_effect(t, input, near_grid).1.len() ==> {
                let a = #[trigger] select_move_effect(t, input, near_grid).1[k];
                a != EditAction::MoveGrid && !(a is MovePoint)
            },
{
}

/// A drag of the select/move tool always begins with a snapshot, so that
/// the drag can be undone.
pub proof fn lemma_drag_starts_with_snapshot(t: ToolView, input: PointerInput, near_grid: bool)
    requires
        !t.is_dragging_start,
        !t.is_dragging_node,
        select_move_effect(t, input, near_grid).0.is_dragging_start
            || select_move_effect(t, input, near_grid).0.is_dragging_node,
    ensures
        select_move_effect(t, input, near_grid).1.len() > 0,
        select_move_effect(t, input, near_grid).1[0] == EditAction::SaveSnapshot,
{
}

/// A press over the editor's panel starts nothing on the track: no drag, no
/// stroke, no placed node, no snapshot.
pub proof fn lemma_panel_press_starts_nothing(
    t: ToolView,
    input: PointerInput,
    near_grid: bool,
    points_len: nat,
    points_empty: bool,
    near_entry: bool,
)
    requires
        input.over_ui,
    ensures
        select_move_effect(t, input, near_grid).0.is_dragging_start ==> t.is_dragging_start,
        select_move_effect(t, input, near_grid).0.is_dragging_node ==> t.is_dragging_node,
        !select_move_effect(t, input, near_grid).1.contains(EditAction::SaveSnapshot),
        node_place_actions(input, points_len, near_entry).len() == 0,
        pen_draw_effect(t, input, points_empty, near_entry).0.is_drawing == t.is_drawing,
        !pen_draw_effect(t, input, points_empty, near_entry).1.contains(EditAction::SaveSnapshot),
{
    let a = select_move_effect(t, input, near_grid).1;
    assert forall|k: int| 0 <= k < a.len() implies a[k] != EditAction::SaveSnapshot by {}
    let p = pen_draw_effect(t, input, points_empty, near_entry).1;
    assert forall|k: int| 0 <= k < p.len() implies p[k] != EditAction::SaveSnapshot by {}
}

/// Every tool edit that a press starts is preceded by a snapshot: placing a
/// node, deleting one, and the first frame of a pen stroke all begin with
/// one.
pub proof fn lemma_press_edits_start_with_snapshot(
    t: ToolView,
    input: PointerInput,
    points_len: nat,
    points_empty: bool,
    near_entry: bool,
    index: usize,
)
    requires
        !input.over_ui,
        input.left_pressed,
    ensures
        node_place_actions(input, points_len, near_entry)[0] == EditAction::SaveSnapshot,
        delete_actions(index)[0] == EditAction::SaveSnapshot,
        pen_draw_effect(t, input, points_empty, near_entry).0.is_drawing,
        pen_draw_effect(t, input, points_empty, near_entry).1[0] == EditAction::SaveSnapshot,
{
}

/// A node-place press puts the new node at the mouse unless the mouse is
/// near the entry target of a track with more than two points; only then is
/// the loop closed, at the entry target, and the mouse position not added.
pub proof fn lemma_node_place_closes_only_near_entry(
    input: PointerInput,
    points_len: nat,
    near_entry: bool,
)
    ensures
        !(near_entry && points_len > 2) ==> {
            &&& !node_place_actions(input, points_len, near_entry).contains(EditAction::CloseLoop)
            &&& !node_place_actions(input, points_len, near_entry).contains(
                EditAction::AddPoint(PointTarget::EntryTarget),
            )
        },
        !input.over_ui && input.left_pressed && !(near_entry && points_len > 2)
            ==> node_place_actions(input, points_len, near_entry).contains(
            EditAction::AddPoint(PointTarget::Mouse),
        ),
        !input.over_ui && input.left_pressed && near_entry && points_len > 2 ==> {
            &&& node_place_actions(input, points_len, near_entry).contains(EditAction::CloseLoop)
            &&& node_place_actions(input, points_len, near_entry).contains(
                EditAction::AddPoint(PointTarget::EntryTarget),
            )
            &&& !node_place_actions(input, points_len, near_entry).contains(
                EditAction::AddPoint(PointTarget::Mouse),
            )
        },
        node_place_actions(input, points_len, near_entry).contains(
            EditAction::AddPoint(PointTarget::ExitTarget),
        ) <==> (!input.over_ui && input.left_pressed && points_len == 0),
{
    let a = node_place_actions(input, points_len, near_entry);
    let exit = EditAction::AddPoint(PointTarget::ExitTarget);
    let entry = EditAction::AddPoint(PointTarget::EntryTarget);
    let mouse = EditAction::AddPoint(PointTarget::Mouse);
    let rebuild = EditAction::Rebuild(FULL_REBUILD_SAMPLES);
    if !input.over_ui && input.left_pressed {
        let start = if points_len == 0 {
            seq![EditAction::SaveSnapshot, exit]
        } else {
            seq![EditAction::SaveSnapshot]
        };
        let placed = if near_entry && points_len > 2 {
            seq![entry, EditAction::CloseLoop]
        } else {
            seq![mouse]
        };
        assert(a == start + placed + seq![rebuild]);
        assert forall|k: int| 0 <= k < a.len() implies {
            &&& (a[k] == EditAction::CloseLoop || a[k] == entry) ==> (near_entry && points_len
                > 2)
            &&& a[k] == mouse ==> !(near_entry && points_len > 2)
            &&& a[k] == exit ==> points_len == 0
        } by {
            if k < start.len() {
                assert(a[k] == start[k]);
            } else if k < start.len() + placed.len() {
                assert(a[k] == placed[k - start.len()]);
            } else {
                assert(a[k] == rebuild);
            }
        }
        if near_entry && points_len > 2 {
            assert(a[start.len() as int] == entry);
            assert(a[start.len() as int + 1] == EditAction::CloseLoop);
        } else {
            assert(a[start.len() as int] == mouse);
        }
        if points_len == 0 {
            assert(a[1] == exit);
        }
    }
}

/// The pen adds the start grid's exit target only to an empty track, when a
/// stroke starts on it.
pub proof fn lemma_pen_exit_target_only_on_empty_track(
    t: ToolView,
    input: PointerInput,
    points_empty: bool,
    near_entry: bool,
)
    ensures
        pen_draw_effect(t, input, points_empty, near_entry).1.contains(
            EditAction::AddPoint(PointTarget::ExitTarget),
        ) <==> (!input.over_ui && input.left_pressed && points_empty),
{
    let a = pen_draw_effect(t, input, points_empty, near_entry).1;
    let exit = EditAction::AddPoint(PointTarget::ExitTarget);
    let a1 = if !input.over_ui && input.left_pressed {
        if points_empty {
            seq![EditAction::SaveSnapshot, exit]
        } else {
            seq![EditAction::SaveSnapshot]
        }
    } else {
        Seq::<EditAction>::empty()
    };
    let t1 = if !input.over_ui && input.left_pressed {
        ToolView { is_drawing: true, ..t }
    } else {
        t
    };
    let target = if near_entry {
        PointTarget::EntryTarget
    } else {
        PointTarget::Mouse
    };
    let tail = if t1.is_drawing && input.left_down {
        seq![EditAction::AddPoint(target), EditAction::Rebuild(PEN_REBUILD_SAMPLES)]
    } else {
        Seq::<EditAction>::empty()
    };
    assert(a == a1 + tail);
    assert forall|k: int| 0 <= k < a.len() && a[k] == exit implies (!input.over_ui
        && input.left_pressed && points_empty) by {
        if k < a1.len() {
            assert(a[k] == a1[k]);
        } else {
            assert(a[k] == tail[k - a1.len()]);
        }
    }
    if !input.over_ui && input.left_pressed && points_empty {
        assert(a[1] == exit);
    }
}

/// Releasing the button ends a drag with a full rebuild of the track; a
/// frame without a release never asks for one.
pub proof fn lemma_release_of_drag_rebuilds_fully(
    t: ToolView,
    input: PointerInput,
    near_grid: bool,
)
    ensures
        input.left_released && (t.is_dragging_start || t.is_dragging_node)
            ==> select_move_effect(t, input, near_grid).1.contains(
            EditAction::Rebuild(FULL_REBUILD_SAMPLES),
        ),
        !input.left_released ==> !select_move_effect(t, input, near_grid).1.contains(
            EditAction::Rebuild(FULL_REBUILD_SAMPLES),
        ),
{
    let a = select_move_effect(t, input, near_grid).1;
    let full = EditAction::Rebuild(FULL_REBUILD_SAMPLES);
    if input.left_released && (t.is_dragging_start || t.is_dragging_node) {
        // The press part only ever starts drags, so a drag under way is
        // still under way when the release is handled.
        let n = if !input.over_ui && input.left_pressed && (near_grid
            || t.hovered_node_index is Some) {
            1int
        } else {
            0int
        };
        assert(a.len() == n + 1);
        assert(a[n] == full);
    }
    if !input.left_released {
        assert forall|k: int| 0 <= k < a.len() implies a[k] != full by {}
    }
}

/// Ending a pen stroke snaps to the entry target and closes the loop only
/// when the stroke's last point is near the entry target; a stroke ending
/// near it is always closed.
pub proof fn lemma_pen_closes_only_near_entry(t: ToolView, input: PointerInput, last_near_entry: bool)
    ensures
        !last_near_entry ==> {
            &&& !pen_release_actions(t, input, last_near_entry).contains(EditAction::SnapLastToEntry)
            &&& !pen_release_actions(t, input, last_near_entry).contains(EditAction::CloseLoop)
        },
        last_near_entry && input.left_released && t.is_drawing ==> {
            &&& pen_release_actions(t, input, last_near_entry).contains(EditAction::SnapLastToEntry)
            &&& pen_release_actions(t, input, last_near_entry).contains(EditAction::CloseLoop)
        },
{
    let a = pen_release_actions(t, input, last_near_entry);
    if input.left_released && t.is_drawing {
        if last_near_entry {
            assert(a[0] == EditAction::SnapLastToEntry);
            assert(a[1] == EditAction::CloseLoop);
        } else {
            assert(a =~= seq![EditAction::Simplify, EditAction::Rebuild(FULL_REBUILD_SAMPLES)]);
            assert forall|k: int| 0 <= k < a.len() implies a[k] != EditAction::SnapLastToEntry
                && a[k] != EditAction::CloseLoop by {}
        }
    }
}

impl<S> EditorState<S> {
    /// Switches tools; any pen stroke under way is dropped.
    pub fn select_tool(&mut self, tool: EditorTool)
        ensures
            final(self).tools() == (ToolView {
                active_tool: tool,
                is_drawing: false,
                ..old(self).tools()
            }),
            final(self).history == old(self).history,
            final(self).show_help_overlay == old(self).show_help_overlay,
    {
        self.active_tool = tool;
        self.is_drawing = false;
    }

    /// Ends any pen stroke (the editor is being left or the track cleared).
    pub fn stop_drawing(&mut self)
        ensures
            final(self).tools() == (ToolView { is_drawing: false, ..old(self).tools() }),
            final(self).history == old(self).history,
            final(self).show_help_overlay == old(self).show_help_overlay,
    {
        self.is_drawing = false;
    }

    /// The node under the mouse: the first of the closest raw points whose
    /// distance key is below the hit radius's key, if any.
    pub fn update_hovered_node(&mut self, distance_keys: &Vec<u32>, radius_key: u32)
        ensures
            final(self).hovered_node_index is None ==> forall|j: int|
                0 <= j < distance_keys@.len() ==> #[trigger] distance_keys@[j] >= radius_key,
            final(self).hovered_node_index is Some ==> is_first_min_below(
                distance_keys@,
                final(self).hovered_node_index->0 as int,
                radius_key,
            ),
            final(self).tools() == (ToolView {
                hovered_node_index: final(self).hovered_node_index,
                ..old(self).tools()
            }),
            final(self).history == old(self).history,
            final(self).show_help_overlay == old(self).show_help_overlay,
    {
        self.hovered_node_index = nearest_within(distance_keys, radius_key);
    }

    /// Ctrl + scroll rotates the start grid: the first frame of a rotation
    /// asks for a snapshot (the result is `true`); any other input ends the
    /// rotation.
    pub fn grid_rotation_step(&mut self, rotating: bool) -> (save_snapshot: bool)
        ensures
            save_snapshot == (rotating && !old(self).is_rotating_grid),
            final(self).tools() == (ToolView { is_rotating_grid: rotating, ..old(self).tools() }),
            final(self).history == old(self).history,
            final(self).show_help_overlay == old(self).show_help_overlay,
    {
        if rotating {
            let save = !self.is_rotating_grid;
            self.is_rotating_grid = true;
            save
        } else {
            self.is_rotating_grid = false;
            false
        }
    }

    /// A right click on the hovered node deletes it, clearing the hover and
    /// the selection; the result tells whether the click was used so.
    pub fn right_click_delete(&mut self, input: &PointerInput) -> (res: (bool, Vec<EditAction>))
        ensures
            ({
                let t = old(self).tools();
                if !input.over_ui && input.right_pressed && t.hovered_node_index is Some {
                    &&& res.0
                    &&& res.1@ == delete_actions(t.hovered_node_index->0)
                    &&& final(self).tools() == (ToolView {
                        hovered_node_index: None,
                        selected_node_index: None,
                        ..t
                    })
                } else {
                    &&& !res.0
                    &&& res.1@.len() == 0
                    &&& final(self).tools() == t
                }
            }),
            final(self).history == old(self).history,
            final(self).show_help_overlay == old(self).show_help_overlay,
    {
        let mut actions: Vec<EditAction> = Vec::new();
        if !input.over_ui && input.right_pressed {
            if let Some(index) = self.hovered_node_index {
                actions.push(EditAction::SaveSnapshot);
                actions.push(EditAction::RemovePoint(index));
                actions.push(EditAction::Rebuild(FULL_REBUILD_SAMPLES));
                self.hovered_node_index = None;
                self.selected_node_index = None;
                assert(actions@ =~= delete_actions(index));
                return (true, actions);
            }
        }
        (false, actions)
    }

    /// One frame of the select/move tool; see [`select_move_effect`].
    pub fn select_move_step(&mut self, input: &PointerInput, near_grid: bool) -> (actions: Vec<
        EditAction,
    >)
        ensures
            (final(self).tools(), actions@) == select_move_effect(
                old(self).tools(),
                *input,
                near_grid,
            ),
            input.left_released && (old(self).is_dragging_start || old(self).is_dragging_node)
                ==> actions@.contains(EditAction::Rebuild(FULL_REBUILD_SAMPLES)),
            !input.left_released ==> !actions@.contains(EditAction::Rebuild(FULL_REBUILD_SAMPLES)),
            final(self).history == old(self).history,
            final(self).show_help_overlay == old(self).show_help_overlay,
    {
        let ghost t = self.tools();
        let mut actions: Vec<EditAction> = Vec::new();
        if !input.over_ui && input.left_pressed {
            if near_grid {
                actions.push(EditAction::SaveSnapshot);
                self.is_dragging_start = true;
            } else if let Some(index) = self.hovered_node_index {
                actions.push(EditAction::SaveSnapshot);
                self.selected_node_index = Some(index);
                self.is_dragging_node = true;
            } else {
                self.selected_node_index = None;
            }
        }
        let ghost t1 = self.tools();
        let ghost a1 = actions@;
        if input.left_released {
            if self.is_dragging_start || self.is_dragging_node {
                actions.push(EditAction::Rebuild(FULL_REBUILD_SAMPLES));
            }
            self.is_dragging_start = false;
            self.is_dragging_node = false;
        }
        let ghost a2 = actions@;
        if self.is_dragging_start {
            actions.push(EditAction::MoveGrid);
            actions.push(EditAction::Rebuild(DRAG_REBUILD_SAMPLES));
        }
        let ghost a3 = actions@;
        if self.is_dragging_node {
            if let Some(index) = self.selected_node_index {
                actions.push(EditAction::MovePoint(index));
                actions.push(EditAction::Rebuild(DRAG_REBUILD_SAMPLES));
            }
        }
        proof {
            let (e1, ea1) = if !input.over_ui && input.left_pressed {
                if near_grid {
                    (ToolView { is_dragging_start: true, ..t }, seq![EditAction::SaveSnapshot])
                } else if t.hovered_node_index is Some {
                    (
                        ToolView {
                            selected_node_index: t.hovered_node_index,
                            is_dragging_node: true,
                            ..t
                        },
                        seq![EditAction::SaveSnapshot],
                    )
                } else {
                    (ToolView { selected_node_index: None, ..t }, Seq::empty())
                }
            } else {
                (t, Seq::empty())
            };
            assert(ea1 =~= a1);
            assert(e1 == t1);
            if self.is_dragging_start {
                assert(a3 =~= a2 + seq![
                    EditAction::MoveGrid,
                    EditAction::Rebuild(DRAG_REBUILD_SAMPLES),
                ]);
            }
            if self.is_dragging_node && self.selected_node_index is Some {
                assert(actions@ =~= a3 + seq![
                    EditAction::MovePoint(self.selected_node_index->0),
                    EditAction::Rebuild(DRAG_REBUILD_SAMPLES),
                ]);
            }
        }
        proof {
            lemma_release_of_drag_rebuilds_fully(t, *input, near_grid);
        }
        actions
    }

    /// One frame of the node-place tool; see [`node_place_actions`].
    /// `points_len` is the number of raw points and `near_entry` tells
    /// whether the mouse is within snapping distance of the entry target.
    pub fn node_place_step(&mut self, input: &PointerInput, points_len: usize, near_entry: bool) -> (actions: Vec<EditAction>)
        ensures
            actions@ == node_place_actions(*input, points_len as nat, near_entry),
            !(near_entry && points_len > 2) ==> !actions@.contains(EditAction::CloseLoop)
                && !actions@.contains(EditAction::AddPoint(PointTarget::EntryTarget)),
            !input.over_ui && input.left_pressed && !(near_entry && points_len > 2)
                ==> actions@.contains(EditAction::AddPoint(PointTarget::Mouse)),
            final(self).tools() == old(self).tools(),
            final(self).history == old(self).history,
            final(self).show_help_overlay == old(self).show_help_overlay,
    {
        proof {
            lemma_node_place_closes_only_near_entry(*input, points_len as nat, near_entry);
        }
        let mut actions: Vec<EditAction> = Vec::new();
        if !input.over_ui && input.left_pressed {
            actions.push(EditAction::SaveSnapshot);
            if points_len == 0 {
                actions.push(EditAction::AddPoint(PointTarget::ExitTarget));
            }
            if near_entry && points_len > 2 {
                actions.push(EditAction::AddPoint(PointTarget::EntryTarget));
                actions.push(EditAction::CloseLoop);
            } else {
                actions.push(EditAction::AddPoint(PointTarget::Mouse));
            }
            actions.push(EditAction::Rebuild(FULL_REBUILD_SAMPLES));
            assert(actions@ =~= node_place_actions(*input, points_len as nat, near_entry));
        }
        actions
    }

    /// One frame of the node-delete tool: a press deletes the hovered node,
    /// if any, and clears the hover.
    pub fn node_delete_step(&mut self, input: &PointerInput) -> (actions: Vec<EditAction>)
        ensures
            ({
                let t = old(self).tools();
                if !input.over_ui && input.left_pressed && t.hovered_node_index is Some {
                    &&& actions@ == delete_actions(t.hovered_node_index->0)
                    &&& final(self).tools() == (ToolView { hovered_node_index: None, ..t })
                } else {
                    &&& actions@.len() == 0
                    &&& final(self).tools() == t
                }
            }),
            final(self).history == old(self).history,
            final(self).show_help_overlay == old(self).show_help_overlay,
    {
        let mut actions: Vec<EditAction> = Vec::new();
        if !input.over_ui && input.left_pressed {
            if let Some(index) = self.hovered_node_index {
                actions.push(EditAction::SaveSnapshot);
                actions.push(EditAction::RemovePoint(index));
                self.hovered_node_index = None;
                actions.push(EditAction::Rebuild(FULL_REBUILD_SAMPLES));
                assert(actions@ =~= delete_actions(index));
            }
        }
        actions
    }

    /// The first half of a pen frame; see [`pen_draw_effect`].
    pub fn pen_draw_step(&mut self, input: &PointerInput, points_empty: bool, near_entry: bool) -> (actions: Vec<EditAction>)
        ensures
            (final(self).tools(), actions@) == pen_draw_effect(
                old(self).tools(),
                *input,
                points_empty,
                near_entry,
            ),
            actions@.contains(EditAction::AddPoint(PointTarget::ExitTarget)) <==> (
            !input.over_ui && input.left_pressed && points_empty),
            final(self).history == old(self).history,
            final(self).show_help_overlay == old(self).show_help_overlay,
    {
        proof {
            lemma_pen_exit_target_only_on_empty_track(self.tools(), *input, points_empty, near_entry);
        }
        let mut actions: Vec<EditAction> = Vec::new();
        if !input.over_ui && input.left_pressed {
            actions.push(EditAction::SaveSnapshot);
            self.is_drawing = true;
            if points_empty {
                actions.push(EditAction::AddPoint(PointTarget::ExitTarget));
            }
        }
        let ghost a1 = actions@;
        if self.is_drawing && input.left_down {
            let target = if near_entry {
                PointTarget::EntryTarget
            } else {
                PointTarget::Mouse
            };
            actions.push(EditAction::AddPoint(target));
            actions.push(EditAction::Rebuild(PEN_REBUILD_SAMPLES));
            assert(actions@ =~= a1 + seq![
                EditAction::AddPoint(target),
                EditAction::Rebuild(PEN_REBUILD_SAMPLES),
            ]);
        }
        proof {
            if !input.over_ui && input.left_pressed {
                if points_empty {
                    assert(a1 =~= seq![
                        EditAction::SaveSnapshot,
                        EditAction::AddPoint(PointTarget::ExitTarget),
                    ]);
                } else {
                    assert(a1 =~= seq![EditAction::SaveSnapshot]);
                }
            } else {
                assert(a1 =~= Seq::<EditAction>::empty());
            }
        }
        actions
    }

    /// The second half of a pen frame; see [`pen_release_actions`].
    /// `last_near_entry` tells whether the last raw point, as the first half
    /// left it, is within snapping distance of the entry target.
    pub fn pen_release_step(&mut self, input: &PointerInput, last_near_entry: bool) -> (actions: Vec<EditAction>)
        ensures
            actions@ == pen_release_actions(old(self).tools(), *input, last_near_entry),
            !last_near_entry ==> !actions@.contains(EditAction::SnapLastToEntry)
                && !actions@.contains(EditAction::CloseLoop),
            final(self).tools() == (ToolView {
                is_drawing: old(self).is_drawing && !input.left_released,
                ..old(self).tools()
            }),
            final(self).history == old(self).history,
            final(self).show_help_overlay == old(self).show_help_overlay,
    {
        proof {
            lemma_pen_closes_only_near_entry(self.tools(), *input, last_near_entry);
        }
        let mut actions: Vec<EditAction> = Vec::new();
        if input.left_released && self.is_drawing {
            self.is_drawing = false;
            if last_near_entry {
                actions.push(EditAction::SnapLastToEntry);
                actions.push(EditAction::CloseLoop);
            }
            actions.push(EditAction::Simplify);
            actions.push(EditAction::Rebuild(FULL_REBUILD_SAMPLES));
            assert(actions@ =~= pen_release_actions(old(self).tools(), *input, last_near_entry));
        }
        actions
    }
}

/// The history shortcut pressed this frame, if any: Ctrl with Z or Y
/// undoes, and redoes when Shift is held too.
pub fn history_shortcut(ctrl_down: bool, shift_down: bool, z_or_y_pressed: bool) -> (step: Option<
    HistoryStep,
>)
    ensures
        step == if ctrl_down && z_or_y_pressed {
            Some(
                if shift_down {
                    HistoryStep::Redo
                } else {
                    HistoryStep::Undo
                },
            )
        } else {
            None
        },
{
    if ctrl_down && z_or_y_pressed {
        if shift_down {
            Some(HistoryStep::Redo)
        } else {
            Some(HistoryStep::Undo)
        }
    } else {
        None
    }
}

} // verus!

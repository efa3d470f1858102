//! The interactive pose editor: a five-phase placement protocol followed by
//! free-form editing of the two poses.
//!
//! The editor owns the decisions. The caller owns the geometry: it holds the
//! poses, answers the hit tests and the distance tests, and applies the
//! [`Effects`] that each frame returns.
use vstd::prelude::*;

verus! {

/// Number of canonical path variants the planner offers for selection.
pub const PATH_VARIANT_COUNT: usize = 12;

/// The phase of the placement protocol.
#[derive(PartialEq, Eq, Structural, Debug, Clone, Copy)]
pub enum AppState {
    PlacingStart,
    DefiningStartAngle,
    PlacingEnd,
    DefiningEndAngle,
    DisplayingPaths,
}

/// The handle grabbed during free-form editing.
#[derive(PartialEq, Eq, Structural, Debug, Clone, Copy)]
pub enum ModifyDragTarget {
    StartBody,
    StartAngle,
    EndBody,
    EndAngle,
}

/// One of the two poses.
#[derive(PartialEq, Eq, Structural, Debug, Clone, Copy)]
pub enum PoseSlot {
    Start,
    End,
}

/// What the hit tester found under the pointer, one flag per handle.
/// A flag of a pose that is not placed is false.
#[derive(PartialEq, Eq, Structural, Debug, Clone, Copy)]
pub struct Hits {
    pub start_headlight: bool,
    pub end_headlight: bool,
    pub start_body: bool,
    pub end_body: bool,
}

/// The pointer and keyboard facts of one frame.
#[derive(PartialEq, Eq, Structural, Debug, Clone, Copy)]
pub struct FrameInput {
    /// The reset key went down this frame.
    pub reset_pressed: bool,
    /// The pointer button went down this frame.
    pub pressed: bool,
    /// The pointer button is held.
    pub down: bool,
    /// The pointer button went up this frame.
    pub released: bool,
    /// The pointer is over the widget region.
    pub over_ui: bool,
    /// Hit tests at the pointer.
    pub hits: Hits,
    /// The pointer is far enough from the start pose's center to give it a heading.
    pub start_rotatable: bool,
    /// The pointer is far enough from the end pose's center to give it a heading.
    pub end_rotatable: bool,
}

/// What the caller does to its poses and buffers after a frame.
#[derive(PartialEq, Eq, Structural, Debug, Clone, Copy)]
pub struct Effects {
    /// Drop both poses, the drag and every derived buffer.
    pub reset: bool,
    /// Create this pose at the pointer with heading 0 and open a drag there.
    pub place_pose: Option<PoseSlot>,
    /// Move the open drag's current point to the pointer.
    pub track_drag: bool,
    /// Give this pose the heading of the open drag, where the drag is long enough.
    pub heading_from_drag: Option<PoseSlot>,
    /// Close the open drag.
    pub close_drag: bool,
    /// Move this pose's center to the pointer.
    pub move_pose: Option<PoseSlot>,
    /// Turn this pose to face the pointer.
    pub rotate_pose: Option<PoseSlot>,
    /// Rebuild the path from the current poses and selection.
    pub recompute: bool,
}

/// How to ask the planner for the selected path variant.
#[derive(PartialEq, Eq, Structural, Debug, Clone, Copy)]
pub struct PathQuery {
    /// Index into the planner's table of canonical path constructions.
    pub variant: usize,
    /// Negate the relative pose's x before the construction.
    pub negate_x: bool,
    /// Negate the relative pose's y before the construction.
    pub negate_y: bool,
    /// Negate the relative pose's heading before the construction.
    pub negate_theta: bool,
    /// Time-flip the constructed path.
    pub apply_timeflip: bool,
    /// Reflect the constructed path (after the time-flip).
    pub apply_reflect: bool,
}

/// The editor's state. The poses themselves are held by the caller; which of
/// them exist follows from the phase.
#[derive(PartialEq, Eq, Structural, Debug, Clone, Copy)]
pub struct State {
    pub app_state: AppState,
    pub dragging_modify: Option<ModifyDragTarget>,
    pub selected_path_index: usize,
    pub reflect_path: bool,
    pub timeflip_path: bool,
}

/// The target chosen from a set of hits: headlights before bodies, start before end.
pub open spec fn spec_select_target(h: Hits) -> Option<ModifyDragTarget> {
    if h.start_headlight {
        Some(ModifyDragTarget::StartAngle)
    } else if h.end_headlight {
        Some(ModifyDragTarget::EndAngle)
    } else if h.start_body {
        Some(ModifyDragTarget::StartBody)
    } else if h.end_body {
        Some(ModifyDragTarget::EndBody)
    } else {
        None
    }
}

/// A frame with nothing for the caller to do.
pub open spec fn no_effects() -> Effects {
    Effects {
        reset: false,
        place_pose: None,
        track_drag: false,
        heading_from_drag: None,
        close_drag: false,
        move_pose: None,
        rotate_pose: None,
        recompute: false,
    }
}

/// The state at startup and after a reset.
pub open spec fn initial_state() -> State {
    State {
        app_state: AppState::PlacingStart,
        dragging_modify: None,
        selected_path_index: 0,
        reflect_path: false,
        timeflip_path: false,
    }
}

/// The start pose exists once it has been placed.
pub open spec fn start_placed(a: AppState) -> bool {
    a != AppState::PlacingStart
}

/// The end pose exists once it has been placed.
pub open spec fn end_placed(a: AppState) -> bool {
    a == AppState::DefiningEndAngle || a == AppState::DisplayingPaths
}

/// An initial drag is open while a pose's heading is being defined.
pub open spec fn drag_open(a: AppState) -> bool {
    a == AppState::DefiningStartAngle || a == AppState::DefiningEndAngle
}

/// The handle held after the press of a frame in free-form editing: a press
/// outside the widgets that grabs a handle replaces the one held before.
pub open spec fn target_after_press(s: State, i: FrameInput) -> Option<ModifyDragTarget> {
    if i.pressed && !i.over_ui && spec_select_target(i.hits) is Some {
        spec_select_target(i.hits)
    } else {
        s.dragging_modify
    }
}

/// What dragging a handle for one frame does.
pub open spec fn drag_effects(t: ModifyDragTarget, i: FrameInput) -> Effects {
    match t {
        ModifyDragTarget::StartBody => Effects {
            move_pose: Some(PoseSlot::Start),
            recompute: true,
            ..no_effects()
        },
        ModifyDragTarget::EndBody => Effects {
            move_pose: Some(PoseSlot::End),
            recompute: true,
            ..no_effects()
        },
        ModifyDragTarget::StartAngle => if i.start_rotatable {
            Effects { rotate_pose: Some(PoseSlot::Start), recompute: true, ..no_effects() }
        } else {
            no_effects()
        },
        ModifyDragTarget::EndAngle => if i.end_rotatable {
            Effects { rotate_pose: Some(PoseSlot::End), recompute: true, ..no_effects() }
        } else {
            no_effects()
        },
    }
}

/// The state after one frame.
pub open spec fn next_state(s: State, i: FrameInput) -> State {
    if i.reset_pressed {
        initial_state()
    } else {
        match s.app_state {
            AppState::PlacingStart => if i.pressed {
                State { app_state: AppState::DefiningStartAngle, ..s }
            } else {
                s
            },
            AppState::DefiningStartAngle => if !i.down && i.released {
                State { app_state: AppState::PlacingEnd, ..s }
            } else {
                s
            },
            AppState::PlacingEnd => if i.pressed {
                State { app_state: AppState::DefiningEndAngle, ..s }
            } else {
                s
            },
            AppState::DefiningEndAngle => if !i.down && i.released {
                State { app_state: AppState::DisplayingPaths, ..s }
            } else {
                s
            },
            AppState::DisplayingPaths => {
                let t = target_after_press(s, i);
                if t is Some && !i.down && i.released {
                    State { dragging_modify: None, ..s }
                } else {
                    State { dragging_modify: t, ..s }
                }
            },
        }
    }
}

/// What the caller does after one frame.
pub open spec fn frame_effects(s: State, i: FrameInput) -> Effects {
    if i.reset_pressed {
        Effects { reset: true, ..no_effects() }
    } else {
        match s.app_state {
            AppState::PlacingStart => if i.pressed {
                Effects { place_pose: Some(PoseSlot::Start), ..no_effects() }
            } else {
                no_effects()
            },
            AppState::DefiningStartAngle => if i.down {
                Effects {
                    track_drag: true,
                    heading_from_drag: Some(PoseSlot::Start),
                    ..no_effects()
                }
            } else if i.released {
                Effects {
                    heading_from_drag: Some(PoseSlot::Start),
                    close_drag: true,
                    ..no_effects()
                }
            } else {
                no_effects()
            },
            AppState::PlacingEnd => if i.pressed {
                Effects { place_pose: Some(PoseSlot::End), ..no_effects() }
            } else {
                no_effects()
            },
            AppState::DefiningEndAngle => if i.down {
                Effects {
                    track_drag: true,
                    heading_from_drag: Some(PoseSlot::End),
                    ..no_effects()
                }
            } else if i.released {
                Effects {
                    heading_from_drag: Some(PoseSlot::End),
                    close_drag: true,
                    recompute: true,
                    ..no_effects()
                }
            } else {
                no_effects()
            },
            AppState::DisplayingPaths => match target_after_press(s, i) {
                Some(t) => if i.down {
                    drag_effects(t, i)
                } else if i.released {
                    Effects { recompute: true, ..no_effects() }
                } else {
                    no_effects()
                },
                None => no_effects(),
            },
        }
    }
}

/// The query for the selected variant: reflecting negates y, time-flipping
/// negates x, and each of them negates the heading once, so with both set the
/// heading keeps its sign; the constructed path is then time-flipped and
/// reflected to match, and ends on the relative end pose again.
pub open spec fn spec_path_query(variant: usize, reflect: bool, timeflip: bool) -> PathQuery {
    PathQuery {
        variant,
        negate_x: timeflip,
        negate_y: reflect,
        negate_theta: reflect != timeflip,
        apply_timeflip: timeflip,
        apply_reflect: reflect,
    }
}

/// Picks the handle that a press grabs.
pub fn select_drag_target(h: Hits) -> (r: Option<ModifyDragTarget>)
    ensures
        r == spec_select_target(h),
{
    if h.start_headlight {
        Some(ModifyDragTarget::StartAngle)
    } else if h.end_headlight {
        Some(ModifyDragTarget::EndAngle)
    } else if h.start_body {
        Some(ModifyDragTarget::StartBody)
    } else if h.end_body {
        Some(ModifyDragTarget::EndBody)
    } else {
        None
    }
}

impl Effects {
    /// A frame with nothing for the caller to do.
    pub fn none() -> (r: Effects)
        ensures
            r == no_effects(),
    {
        Effects {
            reset: false,
            place_pose: None,
            track_drag: false,
            heading_from_drag: None,
            close_drag: false,
            move_pose: None,
            rotate_pose: None,
            recompute: false,
        }
    }
}

impl State {
    /// A drag target is held only during free-form editing, and the selected
    /// variant is one the planner offers.
    pub open spec fn wf(&self) -> bool {
        &&& self.dragging_modify is Some ==> self.app_state == AppState::DisplayingPaths
        &&& self.selected_path_index < PATH_VARIANT_COUNT
    }

    /// The editor at startup: nothing placed, first variant, no transform.
    pub fn new() -> (r: State)
        ensures
            r == initial_state(),
            r.wf(),
    {
        State {
            app_state: AppState::PlacingStart,
            dragging_modify: None,
            selected_path_index: 0,
            reflect_path: false,
            timeflip_path: false,
        }
    }

    /// Returns to the start of the protocol from any phase.
    pub fn reset(&mut self)
        ensures
            *final(self) == initial_state(),
            final(self).wf(),
    {
        *self = State::new();
    }

    /// Whether the start pose exists.
    pub fn has_start_pose(&self) -> (r: bool)
        ensures
            r == start_placed(self.app_state),
    {
        self.app_state != AppState::PlacingStart
    }

    /// Whether the end pose exists.
    pub fn has_end_pose(&self) -> (r: bool)
        ensures
            r == end_placed(self.app_state),
    {
        self.app_state == AppState::DefiningEndAngle || self.app_state == AppState::DisplayingPaths
    }

    /// Whether an initial drag is open.
    pub fn is_defining_angle(&self) -> (r: bool)
        ensures
            r == drag_open(self.app_state),
    {
        self.app_state == AppState::DefiningStartAngle || self.app_state == AppState::DefiningEndAngle
    }

    /// The instruction shown for the current phase.
    pub fn status_text(&self) -> (r: &'static str)
        ensures
            r@ == (match self.app_state {
                AppState::PlacingStart => "Click to place START position"@,
                AppState::DefiningStartAngle => "Drag/release START angle"@,
                AppState::PlacingEnd => "Click to place END position"@,
                AppState::DefiningEndAngle => "Drag/release END angle"@,
                AppState::DisplayingPaths => "Drag Body/Headlight. Use UI. 'R' Reset."@,
            }),
    {
        match self.app_state {
            AppState::PlacingStart => "Click to place START position",
            AppState::DefiningStartAngle => "Drag/release START angle",
            AppState::PlacingEnd => "Click to place END position",
            AppState::DefiningEndAngle => "Drag/release END angle",
            AppState::DisplayingPaths => "Drag Body/Headlight. Use UI. 'R' Reset.",
        }
    }

    /// Names the handle being dragged; empty when none is.
    pub fn drag_mode_text(&self) -> (r: &'static str)
        ensures
            r@ == (match self.dragging_modify {
                Some(ModifyDragTarget::StartBody) => "Moving Start"@,
                Some(ModifyDragTarget::StartAngle) => "Rot Start"@,
                Some(ModifyDragTarget::EndBody) => "Moving End"@,
                Some(ModifyDragTarget::EndAngle) => "Rot End"@,
                None => ""@,
            }),
    {
        match self.dragging_modify {
            Some(ModifyDragTarget::StartBody) => "Moving Start",
            Some(ModifyDragTarget::StartAngle) => "Rot Start",
            Some(ModifyDragTarget::EndBody) => "Moving End",
            Some(ModifyDragTarget::EndAngle) => "Rot End",
            None => "",
        }
    }

    /// Advances the editor by one frame and says what the caller must do.
    pub fn step(&mut self, i: FrameInput) -> (r: Effects)
        requires
            old(self).wf(),
        ensures
            *final(self) == next_state(*old(self), i),
            r == frame_effects(*old(self), i),
            final(self).wf(),
    {
        if i.reset_pressed {
            self.reset();
            return Effects { reset: true, ..Effects::none() };
        }
        match self.app_state {
            AppState::PlacingStart => {
                if i.pressed {
                    self.app_state = AppState::DefiningStartAngle;
                    Effects { place_pose: Some(PoseSlot::Start), ..Effects::none() }
                } else {
                    Effects::none()
                }
            },
            AppState::DefiningStartAngle => {
                if i.down {
                    Effects {
                        track_drag: true,
                        heading_from_drag: Some(PoseSlot::Start),
                        ..Effects::none()
                    }
                } else if i.released {
                    self.app_state = AppState::PlacingEnd;
                    Effects {
                        heading_from_drag: Some(PoseSlot::Start),
                        close_drag: true,
                        ..Effects::none()
                    }
                } else {
                    Effects::none()
                }
            },
            AppState::PlacingEnd => {
                if i.pressed {
                    self.app_state = AppState::DefiningEndAngle;
                    Effects { place_pose: Some(PoseSlot::End), ..Effects::none() }
                } else {
                    Effects::none()
                }
            },
            AppState::DefiningEndAngle => {
                if i.down {
                    Effects {
                        track_drag: true,
                        heading_from_drag: Some(PoseSlot::End),
                        ..Effects::none()
                    }
                } else if i.released {
                    self.app_state = AppState::DisplayingPaths;
                    Effects {
                        heading_from_drag: Some(PoseSlot::End),
                        close_drag: true,
                        recompute: true,
                        ..Effects::none()
                    }
                } else {
                    Effects::none()
                }
            },
            AppState::DisplayingPaths => {
                if i.pressed && !i.over_ui {
                    let found = select_drag_target(i.hits);
                    if found.is_some() {
                        self.dragging_modify = found;
                    }
                }
                match self.dragging_modify {
                    Some(t) => {
                        if i.down {
                            Self::drag(t, i)
                        } else if i.released {
                            self.dragging_modify = None;
                            Effects { recompute: true, ..Effects::none() }
                        } else {
                            Effects::none()
                        }
                    },
                    None => Effects::none(),
                }
            },
        }
    }

    /// What holding a handle for one frame does.
    fn drag(t: ModifyDragTarget, i: FrameInput) -> (r: Effects)
        ensures
            r == drag_effects(t, i),
    {
        match t {
            ModifyDragTarget::StartBody => Effects {
                move_pose: Some(PoseSlot::Start),
                recompute: true,
                ..Effects::none()
            },
            ModifyDragTarget::EndBody => Effects {
                move_pose: Some(PoseSlot::End),
                recompute: true,
                ..Effects::none()
            },
            ModifyDragTarget::StartAngle => if i.start_rotatable {
                Effects { rotate_pose: Some(PoseSlot::Start), recompute: true, ..Effects::none() }
            } else {
                Effects::none()
            },
            ModifyDragTarget::EndAngle => if i.end_rotatable {
                Effects { rotate_pose: Some(PoseSlot::End), recompute: true, ..Effects::none() }
            } else {
                Effects::none()
            },
        }
    }

    /// Takes the widgets' selection. An index outside the planner's table is
    /// ignored. Returns whether the path must be rebuilt: during free-form
    /// editing, when the selection changed.
    pub fn set_selection(&mut self, index: usize, reflect: bool, timeflip: bool) -> (r: bool)
        requires
            old(self).wf(),
        ensures
            final(self).app_state == old(self).app_state,
            final(self).dragging_modify == old(self).dragging_modify,
            final(self).selected_path_index == (if index < PATH_VARIANT_COUNT {
                index
            } else {
                old(self).selected_path_index
            }),
            final(self).reflect_path == reflect,
            final(self).timeflip_path == timeflip,
            final(self).wf(),
            r == (old(self).app_state == AppState::DisplayingPaths && (
            final(self).selected_path_index != old(self).selected_path_index
                || reflect != old(self).reflect_path || timeflip != old(self).timeflip_path)),
    {
        let old_index = self.selected_path_index;
        let old_reflect = self.reflect_path;
        let old_timeflip = self.timeflip_path;
        if index < PATH_VARIANT_COUNT {
            self.selected_path_index = index;
        }
        self.reflect_path = reflect;
        self.timeflip_path = timeflip;
        self.app_state == AppState::DisplayingPaths && (self.selected_path_index != old_index
            || reflect != old_reflect || timeflip != old_timeflip)
    }

    /// The planner query for the current selection, or `None` while the pose
    /// pair is incomplete (the path buffers are then cleared).
    pub fn path_query(&self) -> (r: Option<PathQuery>)
        requires
            self.wf(),
        ensures
            r == (if end_placed(self.app_state) {
                Some(spec_path_query(self.selected_path_index, self.reflect_path, self.timeflip_path))
            } else {
                None::<PathQuery>
            }),
            r matches Some(q) ==> q.variant < PATH_VARIANT_COUNT,
    {
        if self.has_end_pose() {
            Some(path_query(self.selected_path_index, self.reflect_path, self.timeflip_path))
        } else {
            None
        }
    }
}

/// The planner query for a variant under the two symmetry flags.
pub fn path_query(variant: usize, reflect: bool, timeflip: bool) -> (r: PathQuery)
    ensures
        r == spec_path_query(variant, reflect, timeflip),
{
    PathQuery {
        variant,
        negate_x: timeflip,
        negate_y: reflect,
        negate_theta: reflect != timeflip,
        apply_timeflip: timeflip,
        apply_reflect: reflect,
    }
}

} // verus!

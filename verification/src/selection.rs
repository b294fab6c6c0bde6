//! The pointer- and keyboard-driven selection state machine. It owns the
//! rectangle in progress, never fails, and treats impossible event
//! sequences as no-ops; a committed or cancelled selection resets it to
//! `Idle`.

use crate::geometry::{
    in_coord_range, normalize, normalized_wf, point_in_range, point_in_rect, rect_in_range,
    rect_is_non_degenerate, rect_non_degenerate, spec_normalize, spec_point_in_rect,
    spec_point_strictly_in_rect, lemma_normalize_ordered, rect_height, rect_width,
    NormalizedRectangle, Point, Rectangle, COORD_LIMIT,
};
use vstd::prelude::*;

verus! {

/// What the state machine is doing with the pointer right now.
#[derive(Clone, Copy, PartialEq, Eq, Structural, Debug)]
pub enum Mode {
    /// No button held; a retained, uncommitted selection may exist.
    Idle,
    /// The button is held and the second corner follows the cursor.
    Dragging,
    /// The button went down inside the selection; the whole rectangle
    /// follows the cursor.
    Moving,
}

/// The selection state: the mode, the rectangle in progress or retained,
/// and, while moving, the anchor from which the incremental delta is taken.
#[derive(Clone, Copy, PartialEq, Eq, Debug)]
pub struct SelectionState {
    pub mode: Mode,
    pub rect: Option<Rectangle>,
    pub anchor: Option<Point>,
}

/// The invariant every reachable state satisfies: stored coordinates stay in
/// range, `Moving` always has a rectangle and an anchor, `Dragging` always
/// has a rectangle, and a selection retained at `Idle` has positive area.
pub open spec fn state_wf(s: SelectionState) -> bool {
    &&& (s.rect matches Some(r) ==> rect_in_range(r))
    &&& (s.anchor matches Some(p) ==> point_in_range(p))
    &&& (s.mode == Mode::Moving ==> s.rect is Some && s.anchor is Some)
    &&& (s.mode == Mode::Dragging ==> s.rect is Some)
    &&& (s.mode == Mode::Idle ==> s.anchor is None)
    &&& (s.mode == Mode::Idle && s.rect is Some ==> rect_non_degenerate(s.rect->0))
}

pub open spec fn spec_initial() -> SelectionState {
    SelectionState { mode: Mode::Idle, rect: None, anchor: None }
}

/// A left-button press at `p`: inside a retained selection it begins moving
/// the whole rectangle; anywhere else it begins a fresh drag whose corners
/// both equal `p`. A press in any other mode is an impossible sequence and
/// changes nothing.
pub open spec fn spec_press(s: SelectionState, p: Point) -> SelectionState {
    if s.mode == Mode::Idle {
        if s.rect matches Some(r) && spec_point_in_rect(p, spec_normalize(r)) {
            SelectionState { mode: Mode::Moving, rect: s.rect, anchor: Some(p) }
        } else {
            SelectionState {
                mode: Mode::Dragging,
                rect: Some(Rectangle { a: p, b: p }),
                anchor: None,
            }
        }
    } else {
        s
    }
}

pub open spec fn translation_in_range(r: Rectangle, dx: int, dy: int) -> bool {
    &&& in_coord_range(r.a.x + dx)
    &&& in_coord_range(r.a.y + dy)
    &&& in_coord_range(r.b.x + dx)
    &&& in_coord_range(r.b.y + dy)
}

pub open spec fn spec_translated(r: Rectangle, dx: int, dy: int) -> Rectangle
    recommends
        translation_in_range(r, dx, dy),
{
    Rectangle {
        a: Point { x: (r.a.x + dx) as i64, y: (r.a.y + dy) as i64 },
        b: Point { x: (r.b.x + dx) as i64, y: (r.b.y + dy) as i64 },
    }
}

/// A pointer move to `p`. While dragging, the most recent position becomes
/// the second corner. While moving, both corners are translated by the
/// delta from the anchor and the anchor becomes `p`; a cursor position that
/// would push a corner beyond the coordinate range is ignored. In `Idle`
/// a move changes nothing.
pub open spec fn spec_pointer_move(s: SelectionState, p: Point) -> SelectionState {
    if s.mode == Mode::Dragging && s.rect is Some {
        SelectionState {
            mode: Mode::Dragging,
            rect: Some(Rectangle { a: s.rect->0.a, b: p }),
            anchor: s.anchor,
        }
    } else if s.mode == Mode::Moving && s.rect is Some && s.anchor is Some {
        let dx = p.x - s.anchor->0.x;
        let dy = p.y - s.anchor->0.y;
        if translation_in_range(s.rect->0, dx, dy) {
            SelectionState {
                mode: Mode::Moving,
                rect: Some(spec_translated(s.rect->0, dx, dy)),
                anchor: Some(p),
            }
        } else {
            s
        }
    } else {
        s
    }
}

/// A left-button release: back to `Idle`; the rectangle is retained as the
/// current selection only when it has positive area.
pub open spec fn spec_release(s: SelectionState) -> SelectionState {
    if s.mode == Mode::Dragging || s.mode == Mode::Moving {
        SelectionState {
            mode: Mode::Idle,
            rect: if s.rect matches Some(r) && rect_non_degenerate(r) {
                s.rect
            } else {
                None
            },
            anchor: None,
        }
    } else {
        s
    }
}

/// Whether a commit key emits a selection: only a rectangle of positive
/// area is committed.
pub open spec fn spec_commit_emits(s: SelectionState) -> bool {
    s.rect matches Some(r) && rect_non_degenerate(r)
}

pub open spec fn spec_commit_state(s: SelectionState) -> SelectionState {
    if spec_commit_emits(s) {
        spec_initial()
    } else {
        s
    }
}

pub open spec fn spec_commit_output(s: SelectionState) -> Option<NormalizedRectangle> {
    if spec_commit_emits(s) {
        Some(spec_normalize(s.rect->0))
    } else {
        None
    }
}

impl SelectionState {
    /// The overlay starts idle, with no rectangle and no anchor.
    pub fn new() -> (s: SelectionState)
        ensures
            s == spec_initial(),
            state_wf(s),
    {
        SelectionState { mode: Mode::Idle, rect: None, anchor: None }
    }

    /// Consume a left-button press at position `p`.
    pub fn on_press(&mut self, p: Point)
        requires
            point_in_range(p),
            state_wf(*old(self)),
        ensures
            *final(self) == spec_press(*old(self), p),
            state_wf(*final(self)),
    {
        if self.mode == Mode::Idle {
            let inside: bool = match &self.rect {
                Some(r) => {
                    let n: NormalizedRectangle = normalize(r);
                    point_in_rect(&p, &n)
                },
                None => false,
            };
            if inside {
                self.mode = Mode::Moving;
                self.anchor = Some(p);
            } else {
                self.mode = Mode::Dragging;
                self.rect = Some(Rectangle { a: p, b: p });
                self.anchor = None;
            }
        }
    }

    /// Consume a pointer move to position `p`; the most recent move always
    /// wins, so sampling at presentation rate loses nothing.
    pub fn on_pointer_move(&mut self, p: Point)
        requires
            point_in_range(p),
            state_wf(*old(self)),
        ensures
            *final(self) == spec_pointer_move(*old(self), p),
            state_wf(*final(self)),
    {
        match self.mode {
            Mode::Dragging => {
                if let Some(r) = self.rect {
                    self.rect = Some(Rectangle { a: r.a, b: p });
                }
            },
            Mode::Moving => {
                if let (Some(r), Some(anchor)) = (self.rect, self.anchor) {
                    let dx: i64 = p.x - anchor.x;
                    let dy: i64 = p.y - anchor.y;
                    let nax: i64 = r.a.x + dx;
                    let nay: i64 = r.a.y + dy;
                    let nbx: i64 = r.b.x + dx;
                    let nby: i64 = r.b.y + dy;
                    if -COORD_LIMIT <= nax && nax <= COORD_LIMIT && -COORD_LIMIT <= nay
                        && nay <= COORD_LIMIT && -COORD_LIMIT <= nbx && nbx <= COORD_LIMIT
                        && -COORD_LIMIT <= nby && nby <= COORD_LIMIT {
                        self.rect = Some(
                            Rectangle {
                                a: Point { x: nax, y: nay },
                                b: Point { x: nbx, y: nby },
                            },
                        );
                        self.anchor = Some(p);
                    }
                }
            },
            Mode::Idle => {},
        }
    }

    /// Consume a left-button release.
    pub fn on_release(&mut self)
        requires
            state_wf(*old(self)),
        ensures
            *final(self) == spec_release(*old(self)),
            state_wf(*final(self)),
    {
        if self.mode == Mode::Dragging || self.mode == Mode::Moving {
            self.mode = Mode::Idle;
            self.anchor = None;
            let keep: bool = match &self.rect {
                Some(r) => rect_is_non_degenerate(r),
                None => false,
            };
            if !keep {
                self.rect = None;
            }
        }
    }

    /// Consume the commit key. A rectangle of positive area is emitted in
    /// normalized form and the state resets to `Idle` with the rectangle
    /// cleared; a degenerate or absent rectangle emits nothing and changes
    /// nothing.
    pub fn on_commit(&mut self) -> (emitted: Option<NormalizedRectangle>)
        requires
            state_wf(*old(self)),
        ensures
            *final(self) == spec_commit_state(*old(self)),
            emitted == spec_commit_output(*old(self)),
            state_wf(*final(self)),
            emitted matches Some(n) ==> normalized_wf(n),
    {
        match self.rect {
            Some(r) => {
                if rect_is_non_degenerate(&r) {
                    self.mode = Mode::Idle;
                    self.rect = None;
                    self.anchor = None;
                    Some(normalize(&r))
                } else {
                    None
                }
            },
            None => None,
        }
    }

    /// Consume the host's cancel condition: reset to `Idle` with the
    /// rectangle cleared and nothing emitted.
    pub fn on_cancel(&mut self)
        requires
            state_wf(*old(self)),
        ensures
            *final(self) == spec_initial(),
            state_wf(*final(self)),
    {
        self.mode = Mode::Idle;
        self.rect = None;
        self.anchor = None;
    }
}

/// The state after a press followed by any sequence of pointer moves.
pub open spec fn apply_moves(s: SelectionState, moves: Seq<Point>) -> SelectionState
    decreases moves.len(),
{
    if moves.len() == 0 {
        s
    } else {
        apply_moves(spec_pointer_move(s, moves[0]), moves.subrange(1, moves.len() as int))
    }
}

/// Law: whatever rectangle a press, any sequence of drag moves, and a
/// release leave behind, its normalized top-left is component-wise at most
/// its bottom-right.
pub proof fn lemma_press_drag_release_ordered(s: SelectionState, p: Point, moves: Seq<Point>)
    ensures
        ({
            let t = spec_release(apply_moves(spec_press(s, p), moves));
            t.rect matches Some(r) ==> normalized_wf(spec_normalize(r))
        }),
{
    let t = spec_release(apply_moves(spec_press(s, p), moves));
    if t.rect is Some {
        lemma_normalize_ordered(t.rect->0);
    }
}

/// Law: a press strictly inside a retained selection of positive area
/// always begins `Moving` and keeps that rectangle; it never starts a new
/// drag.
pub proof fn lemma_press_inside_moves(s: SelectionState, p: Point)
    requires
        state_wf(s),
        s.mode == Mode::Idle,
        s.rect is Some,
        rect_non_degenerate(s.rect->0),
        spec_point_strictly_in_rect(p, spec_normalize(s.rect->0)),
    ensures
        spec_press(s, p).mode == Mode::Moving,
        spec_press(s, p).rect == s.rect,
{
}

/// Law: a pointer move while `Moving` translates the rectangle and
/// preserves its width and height exactly.
pub proof fn lemma_move_preserves_dimensions(s: SelectionState, p: Point)
    requires
        state_wf(s),
        s.mode == Mode::Moving,
    ensures
        spec_pointer_move(s, p).rect is Some,
        rect_width(spec_pointer_move(s, p).rect->0) == rect_width(s.rect->0),
        rect_height(spec_pointer_move(s, p).rect->0) == rect_height(s.rect->0),
{
}

/// Law: the commit key with a degenerate or absent rectangle emits no
/// region and changes no state.
pub proof fn lemma_commit_degenerate_no_region(s: SelectionState)
    requires
        !spec_commit_emits(s),
    ensures
        spec_commit_output(s) is None,
        spec_commit_state(s) == s,
{
}

} // verus!

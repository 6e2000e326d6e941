//! The per-entity animation state machine.
//!
//! Each entity holds one [`AnimationStateMachine`].  Per tick the machine
//! consumes the entity's facing direction, its movement intent and the
//! elapsed time, advances the animation cursor of the clip for the current
//! `(Direction8, SpriteState)` pair, and decides the next presentation
//! state.  Transitions out of the transient states (`Starting`, `Stopping`)
//! happen only at a loop boundary of the current clip; the stable states
//! (`Still`, `Moving`) sample the intent freely.
//!
//! Every `(Direction8, SpriteState)` pair keeps its own independent cursor:
//! a direction change alone never resets another clip's progress.

use vstd::prelude::*;

use crate::character_state::CharacterState;
use crate::direction::Direction8;
use crate::sprite_state::SpriteState;

verus! {

/// The frame index range of one animation clip: frames `first..=last` of a
/// sprite sheet.
#[derive(Clone, Copy, PartialEq, Eq, Structural, Debug)]
pub struct AnimationClip {
    pub first: u32,
    pub last: u32,
}

/// Mathematical model of a clip.
pub struct ClipModel {
    pub first: int,
    pub last: int,
}

impl ClipModel {
    /// A clip is well formed when its frame range is non-empty.
    pub open spec fn wf(self) -> bool {
        0 <= self.first <= self.last
    }

    /// Number of frames in the clip.
    pub open spec fn len(self) -> int {
        self.last - self.first + 1
    }
}

impl View for AnimationClip {
    type V = ClipModel;

    open spec fn view(&self) -> ClipModel {
        ClipModel { first: self.first as int, last: self.last as int }
    }
}

impl AnimationClip {
    /// Builds a clip covering every frame of a `cols x rows` sprite sheet,
    /// or nothing when the sheet is empty or its frame count overflows.
    pub fn from_grid_size(cols: u32, rows: u32) -> (r: Option<AnimationClip>)
        ensures
            r matches Some(c) ==> {
                &&& cols * rows > 0
                &&& cols * rows <= u32::MAX
                &&& c@.first == 0
                &&& c@.last == cols * rows - 1
            },
            r is None <==> (cols * rows == 0 || cols * rows > u32::MAX),
    {
        match cols.checked_mul(rows) {
            Some(n) if n > 0 => Some(AnimationClip { first: 0, last: n - 1 }),
            _ => None,
        }
    }
}

/// Playback position inside one clip: the current frame, the time spent in
/// it so far, and whether the cursor has wrapped from the clip's last frame
/// back to its first since the cursor was last reset.
#[derive(Clone, Copy, PartialEq, Eq, Structural, Debug)]
pub struct AnimationCursor {
    pub frame: u32,
    pub elapsed: u32,
    pub completed_loop: bool,
}

/// Mathematical model of a cursor.
pub struct CursorModel {
    pub frame: int,
    pub elapsed: int,
    pub completed_loop: bool,
}

impl View for AnimationCursor {
    type V = CursorModel;

    open spec fn view(&self) -> CursorModel {
        CursorModel {
            frame: self.frame as int,
            elapsed: self.elapsed as int,
            completed_loop: self.completed_loop,
        }
    }
}

/// A cursor sits inside its clip's frame range and has spent less than one
/// frame duration in the current frame.
pub open spec fn cursor_in_clip(c: CursorModel, clip: Option<ClipModel>, dur: int) -> bool {
    match clip {
        Some(cl) => {
            &&& cl.wf()
            &&& cl.first <= c.frame <= cl.last
            &&& 0 <= c.elapsed < dur
        },
        None => true,
    }
}

/// The cursor a clip starts at: its first frame, nothing elapsed, no loop
/// completed.  A slot without a clip rests at frame zero.
pub open spec fn spec_reset(clip: Option<ClipModel>) -> CursorModel {
    CursorModel {
        frame: match clip {
            Some(cl) => cl.first,
            None => 0,
        },
        elapsed: 0,
        completed_loop: false,
    }
}

/// The cursor after `elapsed` more time has passed: each full frame
/// duration advances the frame by one, wrapping from the clip's last frame
/// to its first; the loop flag latches as soon as one wrap has happened.
pub open spec fn spec_advanced(c: CursorModel, clip: ClipModel, dur: int, elapsed: int) -> CursorModel {
    let total = c.elapsed + elapsed;
    let steps = total / dur;
    CursorModel {
        frame: clip.first + (c.frame - clip.first + steps) % clip.len(),
        elapsed: total % dur,
        completed_loop: c.completed_loop || steps >= clip.last - c.frame + 1,
    }
}

/// Executable form of [`spec_reset`].
fn reset_cursor(clip: &Option<AnimationClip>) -> (r: AnimationCursor)
    ensures
        r@ == spec_reset(spec_clip_view(*clip)),
{
    AnimationCursor {
        frame: match clip {
            Some(cl) => cl.first,
            None => 0,
        },
        elapsed: 0,
        completed_loop: false,
    }
}

/// The model of an optional clip.
pub open spec fn spec_clip_view(clip: Option<AnimationClip>) -> Option<ClipModel> {
    match clip {
        Some(cl) => Some(cl@),
        None => None,
    }
}

/// Executable form of [`spec_advanced`].
fn advanced_cursor(c: &AnimationCursor, clip: &AnimationClip, dur: u32, elapsed: u32) -> (r:
    AnimationCursor)
    requires
        dur > 0,
        cursor_in_clip(c@, Some(clip@), dur as int),
    ensures
        r@ == spec_advanced(c@, clip@, dur as int, elapsed as int),
        cursor_in_clip(r@, Some(clip@), dur as int),
{
    let total: u64 = c.elapsed as u64 + elapsed as u64;
    let dur64: u64 = dur as u64;
    let steps: u64 = total / dur64;
    let rem: u64 = total % dur64;
    let len: u64 = (clip.last - clip.first) as u64 + 1;
    let offset: u64 = (c.frame - clip.first) as u64;
    let new_offset: u64 = (offset + steps) % len;
    let to_boundary: u64 = (clip.last - c.frame) as u64 + 1;
    let r = AnimationCursor {
        frame: clip.first + (new_offset as u32),
        elapsed: rem as u32,
        completed_loop: c.completed_loop || steps >= to_boundary,
    };
    r
}

/// Slot of a direction in the clip table.
pub open spec fn spec_dir_index(d: Direction8) -> int {
    match d {
        Direction8::North => 0,
        Direction8::Northeast => 1,
        Direction8::East => 2,
        Direction8::Southeast => 3,
        Direction8::South => 4,
        Direction8::Southwest => 5,
        Direction8::West => 6,
        Direction8::Northwest => 7,
    }
}

/// Slot of a state in the clip table.
pub open spec fn spec_state_index(s: SpriteState) -> int {
    match s {
        SpriteState::Still => 0,
        SpriteState::Starting => 1,
        SpriteState::Moving => 2,
        SpriteState::Stopping => 3,
    }
}

/// Slot of a `(direction, state)` pair in the clip table.
pub open spec fn spec_slot(d: Direction8, s: SpriteState) -> int {
    spec_dir_index(d) * 4 + spec_state_index(s)
}

/// Different `(direction, state)` pairs occupy different slots.
pub proof fn lemma_slot_injective(d1: Direction8, s1: SpriteState, d2: Direction8, s2: SpriteState)
    requires
        spec_slot(d1, s1) == spec_slot(d2, s2),
    ensures
        d1 == d2 && s1 == s2,
{
}

/// Executable form of [`spec_slot`].
fn slot(d: Direction8, s: SpriteState) -> (r: usize)
    ensures
        r == spec_slot(d, s),
        r < 32,
{
    let di: usize = match d {
        Direction8::North => 0,
        Direction8::Northeast => 1,
        Direction8::East => 2,
        Direction8::Southeast => 3,
        Direction8::South => 4,
        Direction8::Southwest => 5,
        Direction8::West => 6,
        Direction8::Northwest => 7,
    };
    let si: usize = match s {
        SpriteState::Still => 0,
        SpriteState::Starting => 1,
        SpriteState::Moving => 2,
        SpriteState::Stopping => 3,
    };
    di * 4 + si
}

/// What one tick reports to the renderer.
#[derive(Clone, Copy, PartialEq, Eq, Structural, Debug)]
pub struct TickOutput {
    /// The presentation state after the tick.
    pub state: SpriteState,
    /// The frame of the clip for the current `(direction, state)` pair.
    pub frame: u32,
    /// Whether a clip exists for that pair; without one the entity is not
    /// drawn this tick.
    pub visible: bool,
}

/// The per-entity animation state machine: a presentation state plus one
/// independent clip and cursor per `(Direction8, SpriteState)` pair.
pub struct AnimationStateMachine {
    /// The current presentation state.
    pub state: SpriteState,
    /// How long one animation frame is shown, in the caller's time unit.
    pub frame_duration: u32,
    /// One optional clip per `(Direction8, SpriteState)` pair, by slot.
    pub clips: Vec<Option<AnimationClip>>,
    /// One cursor per `(Direction8, SpriteState)` pair, by slot.
    pub cursors: Vec<AnimationCursor>,
}

impl AnimationStateMachine {
    /// Internal invariant: full tables (one slot per pair of the eight
    /// directions and four states), a positive frame duration, and every
    /// cursor inside its clip's frame range.
    pub open spec fn wf(self) -> bool {
        &&& self.frame_duration > 0
        &&& self.clips@.len() == 32
        &&& self.cursors@.len() == 32
        &&& forall|d: Direction8, s: SpriteState|
            cursor_in_clip(
                #[trigger] self.cursor_at(d, s),
                self.clip_at(d, s),
                self.frame_duration as int,
            )
    }

    /// The current presentation state.
    pub open spec fn spec_state(self) -> SpriteState {
        self.state
    }

    /// The configured frame duration.
    pub open spec fn spec_frame_duration(self) -> int {
        self.frame_duration as int
    }

    /// The clip registered for a `(direction, state)` pair.
    pub open spec fn clip_at(self, d: Direction8, s: SpriteState) -> Option<ClipModel> {
        spec_clip_view(self.clips@[spec_slot(d, s)])
    }

    /// The cursor of the clip for a `(direction, state)` pair.
    pub open spec fn cursor_at(self, d: Direction8, s: SpriteState) -> CursorModel {
        self.cursors@[spec_slot(d, s)]@
    }

    /// Creates a machine with no clips, every cursor at rest, and the given
    /// initial presentation state.
    pub fn new(frame_duration: u32, initial: SpriteState) -> (r: AnimationStateMachine)
        requires
            frame_duration > 0,
        ensures
            r.wf(),
            r.spec_state() == initial,
            r.spec_frame_duration() == frame_duration,
            forall|d: Direction8, s: SpriteState| #[trigger] r.clip_at(d, s) is None,
            forall|d: Direction8, s: SpriteState| #[trigger] r.cursor_at(d, s) == spec_reset(None),
    {
        let mut clips: Vec<Option<AnimationClip>> = Vec::new();
        let mut cursors: Vec<AnimationCursor> = Vec::new();
        let mut i: usize = 0;
        while i < 32
            invariant
                i <= 32,
                clips@.len() == i,
                cursors@.len() == i,
                forall|k: int| 0 <= k < i ==> (#[trigger] clips@[k]) is None,
                forall|k: int| 0 <= k < i ==> (#[trigger] cursors@[k])@ == spec_reset(None),
            decreases 32 - i,
        {
            clips.push(None);
            cursors.push(AnimationCursor { frame: 0, elapsed: 0, completed_loop: false });
            i = i + 1;
        }
        AnimationStateMachine { state: initial, frame_duration, clips, cursors }
    }

    /// Registers the clip for a `(direction, state)` pair and rests its
    /// cursor at the clip's first frame.  Everything else is untouched.
    pub fn set_clip(&mut self, d: Direction8, s: SpriteState, clip: AnimationClip)
        requires
            old(self).wf(),
            clip@.wf(),
        ensures
            final(self).wf(),
            final(self).spec_state() == old(self).spec_state(),
            final(self).spec_frame_duration() == old(self).spec_frame_duration(),
            final(self).clip_at(d, s) == Some(clip@),
            final(self).cursor_at(d, s) == spec_reset(Some(clip@)),
            forall|d2: Direction8, s2: SpriteState|
                !(d2 == d && s2 == s) ==> #[trigger] final(self).clip_at(d2, s2) == old(
                    self,
                ).clip_at(d2, s2),
            forall|d2: Direction8, s2: SpriteState|
                !(d2 == d && s2 == s) ==> #[trigger] final(self).cursor_at(d2, s2) == old(
                    self,
                ).cursor_at(d2, s2),
    {
        let k = slot(d, s);
        let some_clip = Some(clip);
        self.cursors[k] = reset_cursor(&some_clip);
        self.clips[k] = some_clip;
        proof {
            assert forall|d2: Direction8, s2: SpriteState| !(d2 == d && s2 == s) implies #[trigger] self.clip_at(
                d2,
                s2,
            ) == old(self).clip_at(d2, s2) && self.cursor_at(d2, s2) == old(self).cursor_at(
                d2,
                s2,
            ) by {
                if spec_slot(d2, s2) == spec_slot(d, s) {
                    lemma_slot_injective(d2, s2, d, s);
                }
            }
        }
    }

    /// Reads the cursor of the clip for a `(direction, state)` pair.
    pub fn cursor_of(&self, d: Direction8, s: SpriteState) -> (r: AnimationCursor)
        requires
            self.wf(),
        ensures
            r@ == self.cursor_at(d, s),
    {
        let k = slot(d, s);
        self.cursors[k]
    }

    /// Reads the clip registered for a `(direction, state)` pair.
    pub fn clip_of(&self, d: Direction8, s: SpriteState) -> (r: Option<AnimationClip>)
        requires
            self.wf(),
        ensures
            spec_clip_view(r) == self.clip_at(d, s),
    {
        let k = slot(d, s);
        self.clips[k]
    }

    /// The state right after the intent is sampled, before the cursor
    /// advances: a stable state follows the transition table at once, a
    /// transient state stays until its loop boundary.
    pub open spec fn spec_state_entered(self, intent: CharacterState) -> SpriteState {
        if self.state.spec_is_stable() {
            self.state.spec_next_state(intent)
        } else {
            self.state
        }
    }

    /// The cursor the tick will advance: the one of the entered state's
    /// clip, reset to the clip's first frame when the entry just changed the
    /// state.
    pub open spec fn spec_cursor_entered(self, d: Direction8, intent: CharacterState) -> CursorModel {
        let s1 = self.spec_state_entered(intent);
        if s1 != self.state {
            spec_reset(self.clip_at(d, s1))
        } else {
            self.cursor_at(d, s1)
        }
    }

    /// That cursor after this tick's elapsed time; without a clip for the
    /// entered `(direction, state)` pair there is nothing to advance.
    pub open spec fn spec_cursor_advanced(
        self,
        d: Direction8,
        intent: CharacterState,
        elapsed: int,
    ) -> CursorModel {
        let s1 = self.spec_state_entered(intent);
        let c = self.spec_cursor_entered(d, intent);
        match self.clip_at(d, s1) {
            Some(clip) => spec_advanced(c, clip, self.frame_duration as int, elapsed),
            None => c,
        }
    }

    /// The state at the end of the tick: a transient state whose clip has
    /// completed a loop follows the transition table, everything else keeps
    /// the entered state.
    pub open spec fn spec_state_after(
        self,
        d: Direction8,
        intent: CharacterState,
        elapsed: int,
    ) -> SpriteState {
        let s1 = self.spec_state_entered(intent);
        let c = self.spec_cursor_advanced(d, intent, elapsed);
        if !s1.spec_is_stable() && c.completed_loop {
            s1.spec_next_state(intent)
        } else {
            s1
        }
    }

    /// Runs one simulation tick.
    ///
    /// In order: the intent is sampled (a stable state may change at once,
    /// and a changed state rests its clip's cursor at the first frame); the
    /// cursor of the current `(direction, state)` clip advances by the
    /// elapsed time, latching `completed_loop` when it wraps; and a
    /// transient state whose clip has completed a loop follows the
    /// transition table, again resting the new state's cursor.
    ///
    /// Cursors of every other `(direction, state)` pair are untouched, so a
    /// direction change alone never resets another clip's progress.
    #[verifier::rlimit(60)]
    pub fn tick(&mut self, d: Direction8, intent: CharacterState, elapsed: u32) -> (out: TickOutput)
        requires
            old(self).wf(),
        ensures
            final(self).wf(),
            final(self).state == old(self).spec_state_after(d, intent, elapsed as int),
            final(self).frame_duration == old(self).frame_duration,
            forall|d2: Direction8, s2: SpriteState| #[trigger]
                final(self).clip_at(d2, s2) == old(self).clip_at(d2, s2),
            ({
                let s1 = old(self).spec_state_entered(intent);
                let s2 = final(self).state;
                &&& final(self).cursor_at(d, s1) == old(self).spec_cursor_advanced(
                    d,
                    intent,
                    elapsed as int,
                )
                &&& s2 != s1 ==> final(self).cursor_at(d, s2) == spec_reset(
                    old(self).clip_at(d, s2),
                )
                &&& forall|d3: Direction8, s3: SpriteState|
                    (d3 != d || (s3 != s1 && s3 != s2)) ==> #[trigger] final(self).cursor_at(d3, s3)
                        == old(self).cursor_at(d3, s3)
            }),
            out.state == final(self).state,
            out.frame == final(self).cursor_at(d, final(self).state).frame,
            out.visible == (final(self).clip_at(d, final(self).state) is Some),
    {
        let ghost m0 = *self;

        // Sample the intent: stable states may change state at once.
        if self.state.is_stable() {
            let next = self.state.next_state(intent);
            if next != self.state {
                let k = slot(d, next);
                self.cursors[k] = reset_cursor(&self.clips[k]);
                self.state = next;
            }
        }
        proof {
            assert(self.state == m0.spec_state_entered(intent));
            assert(self.cursor_at(d, self.state) == m0.spec_cursor_entered(d, intent));
            assert forall|d2: Direction8, s2: SpriteState|
                cursor_in_clip(
                    #[trigger] self.cursor_at(d2, s2),
                    self.clip_at(d2, s2),
                    self.frame_duration as int,
                ) by {
                assert(cursor_in_clip(
                    m0.cursor_at(d2, s2),
                    m0.clip_at(d2, s2),
                    m0.frame_duration as int,
                ));
            }
        }

        // Advance the cursor of the current clip by the elapsed time.
        let k1 = slot(d, self.state);
        let ghost s1 = self.state;
        let ghost m1 = *self;
        if let Some(clip) = self.clips[k1] {
            let advanced = advanced_cursor(&self.cursors[k1], &clip, self.frame_duration, elapsed);
            self.cursors[k1] = advanced;
        }
        proof {
            assert(self.cursor_at(d, s1) == m0.spec_cursor_advanced(d, intent, elapsed as int));
            assert forall|d2: Direction8, s2: SpriteState|
                cursor_in_clip(
                    #[trigger] self.cursor_at(d2, s2),
                    self.clip_at(d2, s2),
                    self.frame_duration as int,
                ) by {
                assert(cursor_in_clip(
                    m1.cursor_at(d2, s2),
                    m1.clip_at(d2, s2),
                    m1.frame_duration as int,
                ));
            }
        }

        // A transient state leaves only at a loop boundary.
        let ghost m2 = *self;
        if !self.state.is_stable() && self.cursors[k1].completed_loop {
            let next = self.state.next_state(intent);
            if next != self.state {
                let k2 = slot(d, next);
                self.cursors[k2] = reset_cursor(&self.clips[k2]);
                self.state = next;
            }
        }
        proof {
            assert(self.state == m0.spec_state_after(d, intent, elapsed as int));
            assert forall|d2: Direction8, s2: SpriteState|
                cursor_in_clip(
                    #[trigger] self.cursor_at(d2, s2),
                    self.clip_at(d2, s2),
                    self.frame_duration as int,
                ) by {
                assert(cursor_in_clip(
                    m2.cursor_at(d2, s2),
                    m2.clip_at(d2, s2),
                    m2.frame_duration as int,
                ));
            }
            if self.state != s1 {
                if spec_slot(d, s1) == spec_slot(d, self.state) {
                    lemma_slot_injective(d, s1, d, self.state);
                }
                assert(self.cursor_at(d, s1) == m0.spec_cursor_advanced(
                    d,
                    intent,
                    elapsed as int,
                ));
            }
        }

        let k_out = slot(d, self.state);
        let out = TickOutput {
            state: self.state,
            frame: self.cursors[k_out].frame,
            visible: self.clips[k_out].is_some(),
        };
        proof {
            assert forall|d3: Direction8, s3: SpriteState|
                (d3 != d || (s3 != s1 && s3 != self.state)) implies #[trigger] self.cursor_at(
                d3,
                s3,
            ) == m0.cursor_at(d3, s3) by {
                if spec_slot(d3, s3) == spec_slot(d, s1) {
                    lemma_slot_injective(d3, s3, d, s1);
                }
                if spec_slot(d3, s3) == spec_slot(d, self.state) {
                    lemma_slot_injective(d3, s3, d, self.state);
                }
            }
        }
        out
    }
}

/// Law: feeding a stable state its own intent changes nothing but the
/// current clip's playback position.  The state keeps its value through the
/// whole tick and no cursor is reset: the cursor of the current
/// `(direction, state)` clip advances from where it was, and
/// [`AnimationStateMachine::tick`]'s contract leaves every other cursor
/// untouched.
pub proof fn lemma_intent_idempotent(
    m: AnimationStateMachine,
    d: Direction8,
    intent: CharacterState,
    elapsed: int,
)
    requires
        m.wf(),
        m.state == SpriteState::Still && intent == CharacterState::Still || m.state
            == SpriteState::Moving && intent == CharacterState::Moving,
    ensures
        m.spec_state_entered(intent) == m.state,
        m.spec_state_after(d, intent, elapsed) == m.state,
        m.spec_cursor_entered(d, intent) == m.cursor_at(d, m.state),
        m.spec_cursor_advanced(d, intent, elapsed) == (match m.clip_at(d, m.state) {
            Some(clip) => spec_advanced(
                m.cursor_at(d, m.state),
                clip,
                m.spec_frame_duration(),
                elapsed,
            ),
            None => m.cursor_at(d, m.state),
        }),
{
}

/// Law: a transient state is never left before its clip completes a loop.
/// While `Starting` or `Stopping` plays and the tick's advance does not
/// wrap the clip, the state at the end of the tick is unchanged, whatever
/// the intent says.
pub proof fn lemma_transient_holds_until_boundary(
    m: AnimationStateMachine,
    d: Direction8,
    intent: CharacterState,
    elapsed: int,
)
    requires
        m.wf(),
        !m.state.spec_is_stable(),
        !m.spec_cursor_advanced(d, intent, elapsed).completed_loop,
    ensures
        m.spec_state_after(d, intent, elapsed) == m.state,
{
}

/// Law: when a transient state does reach its loop boundary, it follows
/// the transition table: `Starting` hands over to `Moving` or `Stopping`
/// and `Stopping` hands over to `Still` or `Starting`, by the intent of
/// that same tick.
pub proof fn lemma_transient_leaves_at_boundary(
    m: AnimationStateMachine,
    d: Direction8,
    intent: CharacterState,
    elapsed: int,
)
    requires
        m.wf(),
        !m.state.spec_is_stable(),
        m.spec_cursor_advanced(d, intent, elapsed).completed_loop,
    ensures
        m.spec_state_after(d, intent, elapsed) == m.state.spec_next_state(intent),
        m.state == SpriteState::Starting && intent == CharacterState::Moving ==> m.spec_state_after(
            d,
            intent,
            elapsed,
        ) == SpriteState::Moving,
        m.state == SpriteState::Starting && intent == CharacterState::Still ==> m.spec_state_after(
            d,
            intent,
            elapsed,
        ) == SpriteState::Stopping,
        m.state == SpriteState::Stopping && intent == CharacterState::Still ==> m.spec_state_after(
            d,
            intent,
            elapsed,
        ) == SpriteState::Still,
        m.state == SpriteState::Stopping && intent == CharacterState::Moving ==> m.spec_state_after(
            d,
            intent,
            elapsed,
        ) == SpriteState::Starting,
{
}

} // verus!

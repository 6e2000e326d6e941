use sprite_core::animation::{AnimationClip, AnimationStateMachine};
use sprite_core::character_state::CharacterState;
use sprite_core::direction::Direction8;
use sprite_core::sprite_state::SpriteState;

const DUR: u32 = 10;

fn machine_with_south_clips(initial: SpriteState) -> AnimationStateMachine {
    let mut m = AnimationStateMachine::new(DUR, initial);
    m.set_clip(Direction8::South, SpriteState::Still, AnimationClip { first: 0, last: 2 });
    m.set_clip(Direction8::South, SpriteState::Starting, AnimationClip { first: 0, last: 3 });
    m.set_clip(Direction8::South, SpriteState::Moving, AnimationClip { first: 0, last: 1 });
    m.set_clip(Direction8::South, SpriteState::Stopping, AnimationClip { first: 0, last: 1 });
    m
}

#[test]
fn starting_clip_plays_to_completion_then_moving() {
    // Clip for (South, Starting) has frames 0..=3.  From Still, feeding
    // Moving with one frame of elapsed time per tick: three ticks report
    // Starting with frames 1, 2, 3; the tick that wraps back to frame 0
    // reports the transition to Moving at frame 0 of its clip.
    let mut m = machine_with_south_clips(SpriteState::Still);

    let o1 = m.tick(Direction8::South, CharacterState::Moving, DUR);
    assert_eq!(o1.state, SpriteState::Starting);
    assert_eq!(o1.frame, 1);
    assert!(o1.visible);

    let o2 = m.tick(Direction8::South, CharacterState::Moving, DUR);
    assert_eq!(o2.state, SpriteState::Starting);
    assert_eq!(o2.frame, 2);

    let o3 = m.tick(Direction8::South, CharacterState::Moving, DUR);
    assert_eq!(o3.state, SpriteState::Starting);
    assert_eq!(o3.frame, 3);

    let o4 = m.tick(Direction8::South, CharacterState::Moving, DUR);
    assert_eq!(o4.state, SpriteState::Moving);
    assert_eq!(o4.frame, 0);
    assert!(o4.visible);
}

#[test]
fn intent_flip_mid_starting_waits_for_loop_boundary() {
    // Intent flips Moving -> Still while Starting plays frame 1 of 0..=3.
    // The state stays Starting until the loop completes, and only then
    // moves to Stopping; it never jumps mid-cycle.
    let mut m = machine_with_south_clips(SpriteState::Still);

    let o1 = m.tick(Direction8::South, CharacterState::Moving, DUR);
    assert_eq!(o1.state, SpriteState::Starting);
    assert_eq!(o1.frame, 1);

    let o2 = m.tick(Direction8::South, CharacterState::Still, DUR);
    assert_eq!(o2.state, SpriteState::Starting);
    assert_eq!(o2.frame, 2);

    let o3 = m.tick(Direction8::South, CharacterState::Still, DUR);
    assert_eq!(o3.state, SpriteState::Starting);
    assert_eq!(o3.frame, 3);

    let o4 = m.tick(Direction8::South, CharacterState::Still, DUR);
    assert_eq!(o4.state, SpriteState::Stopping);
    assert_eq!(o4.frame, 0);
}

#[test]
fn same_intent_never_resets_cursor_nor_changes_state() {
    // Still while already Still: the Still clip just keeps playing.
    let mut m = machine_with_south_clips(SpriteState::Still);
    let o1 = m.tick(Direction8::South, CharacterState::Still, DUR);
    assert_eq!(o1.state, SpriteState::Still);
    assert_eq!(o1.frame, 1);
    let o2 = m.tick(Direction8::South, CharacterState::Still, DUR);
    assert_eq!(o2.state, SpriteState::Still);
    assert_eq!(o2.frame, 2);
    // The wrap of a stable state's clip does not force any transition.
    let o3 = m.tick(Direction8::South, CharacterState::Still, DUR);
    assert_eq!(o3.state, SpriteState::Still);
    assert_eq!(o3.frame, 0);
    let o4 = m.tick(Direction8::South, CharacterState::Still, DUR);
    assert_eq!(o4.state, SpriteState::Still);
    assert_eq!(o4.frame, 1);

    // Moving while already Moving behaves the same way.
    let mut m2 = machine_with_south_clips(SpriteState::Moving);
    let p1 = m2.tick(Direction8::South, CharacterState::Moving, DUR);
    assert_eq!(p1.state, SpriteState::Moving);
    assert_eq!(p1.frame, 1);
    let p2 = m2.tick(Direction8::South, CharacterState::Moving, DUR);
    assert_eq!(p2.state, SpriteState::Moving);
    assert_eq!(p2.frame, 0);
}

#[test]
fn direction_change_keeps_other_clips_cursor() {
    // Advance the (South, Moving) clip past its wrap, then tick with East:
    // the South cursor keeps its frame and its completed flag.
    let mut m = machine_with_south_clips(SpriteState::Moving);
    m.set_clip(Direction8::East, SpriteState::Moving, AnimationClip { first: 0, last: 4 });

    m.tick(Direction8::South, CharacterState::Moving, DUR);
    m.tick(Direction8::South, CharacterState::Moving, DUR);
    let south_before = m.cursor_of(Direction8::South, SpriteState::Moving);
    assert_eq!(south_before.frame, 0);
    assert!(south_before.completed_loop);

    let o = m.tick(Direction8::East, CharacterState::Moving, DUR);
    assert_eq!(o.state, SpriteState::Moving);
    assert_eq!(o.frame, 1);

    let south_after = m.cursor_of(Direction8::South, SpriteState::Moving);
    assert_eq!(south_after, south_before);
}

#[test]
fn several_frames_can_elapse_in_one_tick() {
    let mut m = machine_with_south_clips(SpriteState::Moving);
    // 25 time units at 10 per frame: two frames forward, 5 left over.
    let o = m.tick(Direction8::South, CharacterState::Moving, 25);
    assert_eq!(o.state, SpriteState::Moving);
    assert_eq!(o.frame, 0);
    let c = m.cursor_of(Direction8::South, SpriteState::Moving);
    assert_eq!(c.elapsed, 5);
    assert!(c.completed_loop);
}

#[test]
fn missing_clip_hides_entity_but_state_machine_runs() {
    let mut m = AnimationStateMachine::new(DUR, SpriteState::Still);
    let o1 = m.tick(Direction8::South, CharacterState::Moving, DUR);
    assert_eq!(o1.state, SpriteState::Starting);
    assert!(!o1.visible);
    // Without a clip there is no loop boundary, so Starting holds.
    let o2 = m.tick(Direction8::South, CharacterState::Still, DUR);
    assert_eq!(o2.state, SpriteState::Starting);
    assert!(!o2.visible);
}

#[test]
fn stopping_completes_back_to_still() {
    let mut m = machine_with_south_clips(SpriteState::Moving);
    // Moving + Still: stopping begins at once; its clip is 0..=1.
    let o1 = m.tick(Direction8::South, CharacterState::Still, DUR);
    assert_eq!(o1.state, SpriteState::Stopping);
    assert_eq!(o1.frame, 1);
    // The wrap hands over to Still.
    let o2 = m.tick(Direction8::South, CharacterState::Still, DUR);
    assert_eq!(o2.state, SpriteState::Still);
    assert_eq!(o2.frame, 0);
}

#[test]
fn stopping_interrupted_by_moving_restarts() {
    let mut m = machine_with_south_clips(SpriteState::Moving);
    let o1 = m.tick(Direction8::South, CharacterState::Still, DUR);
    assert_eq!(o1.state, SpriteState::Stopping);
    // Intent returns to Moving before the Stopping clip wraps: at the
    // boundary the machine goes back through Starting.
    let o2 = m.tick(Direction8::South, CharacterState::Moving, DUR);
    assert_eq!(o2.state, SpriteState::Starting);
    assert_eq!(o2.frame, 0);
}

#[test]
fn set_clip_rests_cursor_at_first_frame() {
    let mut m = AnimationStateMachine::new(DUR, SpriteState::Still);
    m.set_clip(Direction8::West, SpriteState::Moving, AnimationClip { first: 2, last: 5 });
    let c = m.cursor_of(Direction8::West, SpriteState::Moving);
    assert_eq!(c.frame, 2);
    assert_eq!(c.elapsed, 0);
    assert!(!c.completed_loop);
    assert_eq!(
        m.clip_of(Direction8::West, SpriteState::Moving),
        Some(AnimationClip { first: 2, last: 5 })
    );
    assert_eq!(m.clip_of(Direction8::West, SpriteState::Still), None);
}

#[test]
fn clip_from_grid_size() {
    assert_eq!(AnimationClip::from_grid_size(3, 7), Some(AnimationClip { first: 0, last: 20 }));
    assert_eq!(AnimationClip::from_grid_size(1, 1), Some(AnimationClip { first: 0, last: 0 }));
    assert_eq!(AnimationClip::from_grid_size(0, 7), None);
    assert_eq!(AnimationClip::from_grid_size(70000, 70000), None);
}

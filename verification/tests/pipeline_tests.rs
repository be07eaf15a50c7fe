use gopher_overlay::animation::{ConfigError, Motion};
use gopher_overlay::argb::encode_argb8888;
use gopher_overlay::frame::{Frame, FrameSet};
use gopher_overlay::jump::JumpState;
use gopher_overlay::pipeline::{
    toplevel_is_fullscreen, BufferDescriptor, Command, Config, Pacing, Pipeline, PixelFormat,
    SetupError, Signal, Surface,
};
use gopher_overlay::pool::ResourceError;

fn poses() -> FrameSet {
    let frames: Vec<Frame> = (0..3u8)
        .map(|pose| {
            let pixels: Vec<u8> = (0..8u8).map(|i| pose * 10 + i).collect();
            Frame::new(2, 1, pixels).unwrap()
        })
        .collect();
    FrameSet::new(frames).unwrap()
}

fn buffer(offset: i32, width: i32, height: i32, stride: i32) -> BufferDescriptor {
    BufferDescriptor { offset, width, height, stride, format: PixelFormat::Argb8888 }
}

fn config(depth: usize, pacing: Pacing) -> Config {
    Config { motion: Motion { walk_step: 10, jump_step: 6, jump_count: 15 }, depth, pacing }
}

fn pipeline(depth: usize) -> Pipeline {
    Pipeline::new(poses(), config(depth, Pacing::CompositorPaced)).unwrap()
}

fn publish(handle: u64, offset: usize, x: i32, y: i32) -> Vec<Command> {
    vec![
        Command::Upload { offset, len: 8 },
        Command::SetPosition { x, y },
        Command::Attach { surface: Surface::Overlay, handle },
        Command::Damage { surface: Surface::Overlay, width: 2, height: 1 },
        Command::Commit { surface: Surface::Overlay },
        Command::Commit { surface: Surface::Parent },
    ]
}

#[test]
fn new_pipeline_waits_for_the_compositor() {
    let p = pipeline(2);
    assert!(p.is_running());
    assert!(!p.is_configured());
    assert!(!p.repaint_required());
    assert_eq!(p.pacing(), Pacing::CompositorPaced);
    assert_eq!(p.pool().depth(), 2);
    assert_eq!(p.pool().frame_byte_size(), 8);
    assert_eq!(p.pool().held_count(), 0);
    assert_eq!(p.animation().ticks(), 0);
    assert_eq!(p.animation().motion().walk_step, 10);
}

#[test]
fn setup_refuses_a_frame_too_wide() {
    let wide = FrameSet::new(vec![Frame::new(536_870_912, 0, Vec::new()).unwrap()]).unwrap();
    assert_eq!(
        Pipeline::new(wide, config(2, Pacing::CompositorPaced)).err(),
        Some(SetupError::FrameTooWide)
    );
    let fits = FrameSet::new(vec![Frame::new(536_870_911, 0, Vec::new()).unwrap()]).unwrap();
    assert!(Pipeline::new(fits, config(2, Pacing::CompositorPaced)).is_ok());
}

#[test]
fn setup_passes_on_what_is_wrong_with_the_motion() {
    let mut cfg = config(2, Pacing::CompositorPaced);
    cfg.motion = Motion { walk_step: 1, jump_step: 3, jump_count: 0 };
    assert_eq!(
        Pipeline::new(poses(), cfg).err(),
        Some(SetupError::Jump(ConfigError::NoJumpSteps))
    );
    cfg.motion = Motion { walk_step: 1, jump_step: 1 << 31, jump_count: 1 };
    assert_eq!(
        Pipeline::new(poses(), cfg).err(),
        Some(SetupError::Jump(ConfigError::JumpOutOfRange))
    );
}

#[test]
fn setup_passes_on_what_is_wrong_with_the_pool() {
    assert_eq!(
        Pipeline::new(poses(), config(0, Pacing::CompositorPaced)).err(),
        Some(SetupError::Pool(ResourceError::NoSlots))
    );
    assert_eq!(
        Pipeline::new(poses(), config(1 << 28, Pacing::CompositorPaced)).err(),
        Some(SetupError::Pool(ResourceError::RegionTooLarge))
    );
}

#[test]
fn setup_names_the_first_thing_wrong() {
    let wide = FrameSet::new(vec![Frame::new(536_870_912, 0, Vec::new()).unwrap()]).unwrap();
    let mut cfg = config(0, Pacing::CompositorPaced);
    cfg.motion = Motion { walk_step: 1, jump_step: 3, jump_count: 0 };
    assert_eq!(Pipeline::new(wide, cfg).err(), Some(SetupError::FrameTooWide));
    assert_eq!(
        Pipeline::new(poses(), cfg).err(),
        Some(SetupError::Jump(ConfigError::NoJumpSteps))
    );
}

#[test]
fn stock_sprite_walks_at_a_random_pace() {
    for _ in 0..50 {
        let p = Pipeline::with_random_walk(poses()).unwrap();
        let motion = p.animation().motion();
        assert!(motion.walk_step >= 2 && motion.walk_step < 30);
        assert_eq!(motion.jump_step, 15);
        assert_eq!(motion.jump_count, 6);
        assert_eq!(p.pool().depth(), 2);
        assert_eq!(p.pacing(), Pacing::CompositorPaced);
        assert!(p.is_running());
        assert!(!p.is_configured());
    }
}

#[test]
fn memory_layout_places_header_and_slots() {
    let layout = pipeline(2).memory_layout();
    assert_eq!(layout.region_size, 20);
    assert_eq!(layout.placeholder, buffer(0, 1, 1, 4));
    assert_eq!(
        layout.slots,
        vec![
            buffer(4, 2, 1, 8),
            buffer(12, 2, 1, 8),
        ]
    );
    let frames = FrameSet::new(vec![Frame::new(40, 40, vec![0; 6400]).unwrap()]).unwrap();
    let layout = Pipeline::new(frames, config(3, Pacing::FixedInterval)).unwrap().memory_layout();
    assert_eq!(layout.region_size, 19204);
    assert_eq!(layout.slots[2], buffer(12804, 40, 40, 160));
    assert_eq!(layout.slots.len(), 3);
}

#[test]
fn draw_is_skipped_until_configured() {
    let mut p = pipeline(2);
    p.handle(Signal::PacingTick);
    assert_eq!(p.draw(), Vec::<Command>::new());
    assert_eq!(p.animation().ticks(), 0);
    assert_eq!(p.pool().held_count(), 0);
    assert!(p.repaint_required());
    assert!(p.pool().region().iter().all(|b| *b == 0));
}

#[test]
fn draw_publishes_the_pose_on_show() {
    let mut p = pipeline(2);
    p.handle(Signal::Configured);
    p.handle(Signal::ResizeOrFullscreen { width: 800, height: 600 });
    assert!(p.repaint_required());
    let commands = p.draw();
    assert_eq!(commands, publish(0, 4, 0, 599));
    assert!(!p.repaint_required());
    assert!(p.pool().is_held(0));
    assert!(!p.pool().is_held(1));
    assert_eq!(&p.pool().region()[0..4], &[0, 0, 0, 0]);
    assert_eq!(&p.pool().region()[4..12], &[2, 1, 0, 3, 6, 5, 4, 7]);
    assert_eq!(&p.pool().region()[12..20], &[0; 8]);
    assert_eq!(p.animation().ticks(), 1);
    assert_eq!(p.animation().x(), 10);
    assert_eq!(p.animation().pose_index(), 1);
}

#[test]
fn second_draw_takes_the_second_slot_and_the_third_starves() {
    let mut p = pipeline(2);
    p.handle(Signal::Configured);
    p.handle(Signal::ResizeOrFullscreen { width: 800, height: 600 });
    p.draw();
    let expected = encode_argb8888(p.animation().frame().pixels());
    assert_eq!(expected, vec![12, 11, 10, 13, 16, 15, 14, 17]);
    assert_eq!(p.draw(), publish(1, 12, 10, 599));
    assert_eq!(&p.pool().region()[4..12], &[2, 1, 0, 3, 6, 5, 4, 7]);
    assert_eq!(&p.pool().region()[12..20], &expected[..]);
    assert_eq!(p.pool().held_count(), 2);
    assert_eq!(p.animation().ticks(), 2);
    // No slot is free: the tick is dropped and nothing moves.
    p.handle(Signal::PacingTick);
    let region = p.pool().region().clone();
    assert_eq!(p.draw(), Vec::<Command>::new());
    assert_eq!(p.animation().ticks(), 2);
    assert_eq!(p.animation().x(), 20);
    assert_eq!(p.pool().region(), &region);
    assert!(p.repaint_required());
}

#[test]
fn release_frees_a_slot_for_the_next_draw() {
    let mut p = pipeline(2);
    p.handle(Signal::Configured);
    p.handle(Signal::ResizeOrFullscreen { width: 800, height: 600 });
    p.draw();
    p.draw();
    assert_eq!(p.handle(Signal::Release { handle: 1 }), Vec::<Command>::new());
    assert!(!p.pool().is_held(1));
    assert!(p.pool().is_held(0));
    let held_bytes = p.pool().region()[4..12].to_vec();
    assert_eq!(p.draw(), publish(1, 12, 20, 599));
    assert_eq!(&p.pool().region()[4..12], &held_bytes[..]);
    assert_eq!(&p.pool().region()[12..20], &[22, 21, 20, 23, 26, 25, 24, 27]);
    p.handle(Signal::Release { handle: 0 });
    p.handle(Signal::Release { handle: 0 });
    assert_eq!(p.draw(), publish(0, 4, 30, 599));
    assert_eq!(p.pool().held_count(), 2);
}

#[test]
fn release_of_an_unknown_handle_is_ignored() {
    let mut p = pipeline(1);
    p.handle(Signal::Configured);
    p.draw();
    p.handle(Signal::Release { handle: 5 });
    assert!(p.pool().is_held(0));
    assert_eq!(p.draw(), Vec::<Command>::new());
}

#[test]
fn backward_sprite_is_drawn_mirrored() {
    // Before the area is known the sprite turns round on the spot.
    let mut p = pipeline(2);
    p.handle(Signal::Configured);
    assert_eq!(p.draw(), publish(0, 4, 0, -1));
    assert!(!p.animation().is_forward());
    assert_eq!(p.animation().pose_index(), 1);
    assert_eq!(p.draw(), publish(1, 12, 0, -1));
    assert_eq!(&p.pool().region()[12..20], &[16, 15, 14, 17, 12, 11, 10, 13]);
}

#[test]
fn pacing_tick_asks_for_the_next_one_when_compositor_paced() {
    let mut p = pipeline(2);
    assert_eq!(p.handle(Signal::PacingTick), vec![Command::RequestNextPacingTick]);
    assert!(p.repaint_required());
    let mut timed = Pipeline::new(poses(), config(2, Pacing::FixedInterval)).unwrap();
    assert_eq!(timed.handle(Signal::PacingTick), Vec::<Command>::new());
    assert!(timed.repaint_required());
    assert_eq!(timed.pacing(), Pacing::FixedInterval);
}

#[test]
fn area_is_set_once() {
    let mut p = pipeline(2);
    assert_eq!(
        p.handle(Signal::ResizeOrFullscreen { width: 800, height: 600 }),
        Vec::<Command>::new()
    );
    assert_eq!(p.animation().area(), (800, 600));
    assert!(p.repaint_required());
    p.handle(Signal::Configured);
    p.draw();
    assert!(!p.repaint_required());
    p.handle(Signal::ResizeOrFullscreen { width: 1024, height: 768 });
    assert_eq!(p.animation().area(), (800, 600));
    assert!(!p.repaint_required());
}

#[test]
fn close_and_escape_stop_the_overlay() {
    let mut p = pipeline(2);
    assert_eq!(p.handle(Signal::Key { code: 30 }), Vec::<Command>::new());
    assert!(p.is_running());
    p.handle(Signal::Key { code: 1 });
    assert!(!p.is_running());
    let mut q = pipeline(2);
    assert_eq!(q.handle(Signal::Close), Vec::<Command>::new());
    assert!(!q.is_running());
    assert!(!q.is_configured());
    q.handle(Signal::Configured);
    assert!(q.is_configured());
    assert!(!q.is_running());
}

#[test]
fn overlay_jumps_while_it_is_drawn() {
    let mut p = Pipeline::new(poses(), config(1, Pacing::FixedInterval)).unwrap();
    p.handle(Signal::Configured);
    p.handle(Signal::ResizeOrFullscreen { width: 10_000, height: 600 });
    let mut tops: Vec<i32> = Vec::new();
    for _ in 0..48 {
        p.handle(Signal::PacingTick);
        let commands = p.draw();
        assert_eq!(commands.len(), 6);
        if let Command::SetPosition { y, .. } = commands[1] {
            tops.push(y);
        }
        p.handle(Signal::Release { handle: 0 });
    }
    assert_eq!(p.animation().jump(), JumpState::Ascending(18));
    assert_eq!(&tops[44..48], &[599, 599, 593, 587]);
}

#[test]
fn fullscreen_is_found_among_the_states() {
    assert!(toplevel_is_fullscreen(&vec![4, 0, 0, 0, 2, 0, 0, 0]));
    assert!(toplevel_is_fullscreen(&vec![2, 0, 0, 0]));
    assert!(!toplevel_is_fullscreen(&vec![4, 0, 0, 0, 1, 0, 0, 0]));
    assert!(!toplevel_is_fullscreen(&Vec::new()));
}

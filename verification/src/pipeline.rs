//! The publish pipeline: what the overlay does with each signal from the
//! compositor, and the one render tick that writes a pose into a free slot
//! and hands it over.
//!
//! The pipeline never talks to the compositor itself. It takes signals in
//! and gives back the requests to make, in order.

use vstd::prelude::*;
use crate::animation::{
    config_error, lemma_position_in_range, lemma_tick_keeps_wf, lemma_with_area_keeps_wf,
    Animation, AnimationModel, ConfigError, Motion, MAX_COORD,
};
use crate::argb::{argb8888_bytes, encode_argb8888};
use crate::frame::{poses_wf, FrameModel, FrameSet};
use crate::pool::{
    allocation_error, lemma_apply_keeps_held_slot, lemma_count_held_bounded,
    lemma_first_free_is_free, lemma_slot_in_region, region_size, BufferPool, PoolModel, PoolOp,
    ResourceError, HEADER_BYTES,
};
use crate::walk::{random_walk_step, WALK_STEP_END, WALK_STEP_MIN};

verus! {

/// Key code of the escape key.
pub const KEY_ESCAPE: u32 = 1;

/// The toplevel state that says the surface is shown fullscreen.
pub const FULLSCREEN_STATE: u8 = 2;

/// What sets the pace of rendering.
#[derive(Clone, Copy, Debug, PartialEq, Eq)]
pub enum Pacing {
    /// One render per frame-done signal, each asked for anew.
    CompositorPaced,
    /// One render per tick of a timer.
    FixedInterval,
}

/// The two surfaces the pipeline speaks of.
#[derive(Clone, Copy, Debug, PartialEq, Eq)]
pub enum Surface {
    /// The host's surface, which shows the placeholder.
    Parent,
    /// The child surface that shows the sprite.
    Overlay,
}

/// What the compositor can tell the overlay.
#[derive(Clone, Copy, Debug, PartialEq, Eq)]
pub enum Signal {
    /// The surface is ready to receive buffers.
    Configured,
    /// A published slot is free again.
    Release { handle: u64 },
    /// The display area has this size.
    ResizeOrFullscreen { width: i32, height: i32 },
    /// Time for the next frame.
    PacingTick,
    /// The window is to close.
    Close,
    /// A key went down.
    Key { code: u32 },
}

/// What the overlay asks of the compositor.
#[derive(Clone, Copy, Debug, PartialEq, Eq)]
pub enum Command {
    /// Bring this byte range of the pool's region into the shared memory.
    Upload { offset: usize, len: usize },
    /// Move the overlay to this position on the parent.
    SetPosition { x: i32, y: i32 },
    /// Attach the buffer of this slot to the surface, at its origin.
    Attach { surface: Surface, handle: u64 },
    /// Mark the rectangle of this size at the surface's origin as changed.
    Damage { surface: Surface, width: i32, height: i32 },
    /// Commit the surface.
    Commit { surface: Surface },
    /// Ask for the next frame-done signal.
    RequestNextPacingTick,
}

/// What a pipeline is set up with.
#[derive(Clone, Copy, Debug, PartialEq, Eq)]
pub struct Config {
    pub motion: Motion,
    pub depth: usize,
    pub pacing: Pacing,
}

/// Why a pipeline cannot be set up.
#[derive(Clone, Copy, Debug, PartialEq, Eq)]
pub enum SetupError {
    /// A row of the frame is longer than `MAX_COORD` bytes.
    FrameTooWide,
    /// The motion does not suit the frames.
    Jump(ConfigError),
    /// The pool cannot be laid out.
    Pool(ResourceError),
}

/// How the pixels of a buffer are laid out.
#[derive(Clone, Copy, Debug, PartialEq, Eq)]
pub enum PixelFormat {
    /// 32-bit words, alpha in the top byte, then red, green, blue;
    /// little-endian.
    Argb8888,
}

/// One buffer object to create over the shared memory: `height` rows of
/// `width` pixels, `stride` bytes a row, starting `offset` bytes into the
/// region.
#[derive(Clone, Copy, Debug, PartialEq, Eq)]
pub struct BufferDescriptor {
    pub offset: i32,
    pub width: i32,
    pub height: i32,
    pub stride: i32,
    pub format: PixelFormat,
}

/// The shared memory as the compositor is to see it.
pub struct MemoryLayout {
    /// Size of the region, in bytes.
    pub region_size: i32,
    /// The 1x1 placeholder of the parent surface, in the header.
    pub placeholder: BufferDescriptor,
    /// The buffer of each slot; the slot's handle is its index here.
    pub slots: Vec<BufferDescriptor>,
}

/// One thing that happens to a pipeline: a signal comes in, or a render
/// tick is run.
pub enum Step {
    Handle(Signal),
    Draw,
}

/// The pipeline as plain data.
pub struct PipelineModel {
    pub running: bool,
    pub configured: bool,
    pub awaiting_area: bool,
    pub repaint_required: bool,
    pub pacing: Pacing,
    pub pool: PoolModel,
    pub animation: AnimationModel,
}

/// The motion, depth and pacing of the stock sprite, at a given pace.
pub open spec fn stock_config(walk_step: u64) -> Config {
    Config {
        motion: Motion { walk_step, jump_step: 15, jump_count: 6 },
        depth: 2,
        pacing: Pacing::CompositorPaced,
    }
}

/// Why these poses cannot be set up with this configuration, if anything
/// stands in the way.
pub open spec fn setup_error(poses: Seq<FrameModel>, config: Config) -> Option<SetupError> {
    if 4 * poses[0].width > MAX_COORD {
        Some(SetupError::FrameTooWide)
    } else if let Some(e) = config_error(config.motion, poses[0].height) {
        Some(SetupError::Jump(e))
    } else if let Some(e) = allocation_error(poses[0].byte_len(), config.depth as nat) {
        Some(SetupError::Pool(e))
    } else {
        None
    }
}

impl PipelineModel {
    /// A pipeline as set up: running, not yet configured, waiting to learn
    /// its area, with a fresh pool and the sprite at rest.
    pub open spec fn initial(poses: Seq<FrameModel>, config: Config) -> PipelineModel {
        PipelineModel {
            running: true,
            configured: false,
            awaiting_area: true,
            repaint_required: false,
            pacing: config.pacing,
            pool: PoolModel::fresh(poses[0].byte_len(), config.depth as nat),
            animation: AnimationModel::initial(poses, config.motion),
        }
    }

    pub open spec fn wf(self) -> bool {
        &&& self.pool.wf()
        &&& self.animation.wf()
        &&& self.pool.frame_bytes == self.animation.poses[0].byte_len()
        &&& 4 * self.animation.frame_width() <= MAX_COORD
    }

    /// The pipeline after a signal.
    pub open spec fn handled(self, signal: Signal) -> PipelineModel {
        match signal {
            Signal::Configured => PipelineModel { configured: true, ..self },
            Signal::Release { handle } => PipelineModel {
                pool: self.pool.released(handle),
                ..self
            },
            Signal::ResizeOrFullscreen { width, height } => if self.awaiting_area {
                PipelineModel {
                    animation: self.animation.with_area(width as int, height as int),
                    awaiting_area: false,
                    repaint_required: true,
                    ..self
                }
            } else {
                self
            },
            Signal::PacingTick => PipelineModel { repaint_required: true, ..self },
            Signal::Close => PipelineModel { running: false, ..self },
            Signal::Key { code } => if code == KEY_ESCAPE {
                PipelineModel { running: false, ..self }
            } else {
                self
            },
        }
    }

    /// What a signal makes the pipeline ask for.
    pub open spec fn handle_commands(self, signal: Signal) -> Seq<Command> {
        if signal == Signal::PacingTick && self.pacing == Pacing::CompositorPaced {
            seq![Command::RequestNextPacingTick]
        } else {
            Seq::empty()
        }
    }

    /// Whether a render tick goes through: the surface is configured and a
    /// slot is free.
    pub open spec fn renders(self) -> bool {
        self.configured && self.pool.first_free() is Some
    }

    /// The slot a render tick writes and publishes.
    pub open spec fn target(self) -> int {
        self.pool.first_free().unwrap()
    }

    /// The bytes a render tick writes: the pose on show, as ARGB8888.
    pub open spec fn rendered_bytes(self) -> Seq<u8> {
        argb8888_bytes(self.animation.shown().pixels)
    }

    /// The pipeline after a render tick. A tick that does not go through
    /// changes nothing.
    pub open spec fn drawn(self) -> PipelineModel {
        if self.renders() {
            PipelineModel {
                pool: self.pool.written(self.target() as u64, self.rendered_bytes()).marked(
                    self.target() as u64,
                ),
                animation: self.animation.tick(),
                repaint_required: false,
                ..self
            }
        } else {
            self
        }
    }

    /// The pipeline after one step.
    pub open spec fn stepped(self, step: Step) -> PipelineModel {
        match step {
            Step::Handle(signal) => self.handled(signal),
            Step::Draw => self.drawn(),
        }
    }

    /// The pipeline after a sequence of steps, first to last.
    pub open spec fn run(self, steps: Seq<Step>) -> PipelineModel
        decreases steps.len(),
    {
        if steps.len() == 0 {
            self
        } else {
            self.run(steps.drop_last()).stepped(steps.last())
        }
    }

    /// What a render tick asks for, in order. A tick that does not go
    /// through asks for nothing. On a well-formed pipeline the position and
    /// the frame size fit the 32-bit numbers they are handed over in.
    pub open spec fn draw_commands(self) -> Seq<Command> {
        if self.renders() {
            let slot = self.pool.slot_ref(self.target());
            seq![
                Command::Upload { offset: slot.offset, len: slot.len },
                Command::SetPosition {
                    x: self.animation.position().0 as i32,
                    y: self.animation.position().1 as i32,
                },
                Command::Attach { surface: Surface::Overlay, handle: slot.handle },
                Command::Damage {
                    surface: Surface::Overlay,
                    width: self.animation.frame_width() as i32,
                    height: self.animation.frame_height() as i32,
                },
                Command::Commit { surface: Surface::Overlay },
                Command::Commit { surface: Surface::Parent },
            ]
        } else {
            Seq::empty()
        }
    }
}

/// The buffer object of the placeholder: one pixel at the start of the
/// region.
pub open spec fn placeholder_descriptor() -> BufferDescriptor {
    BufferDescriptor { offset: 0, width: 1, height: 1, stride: 4, format: PixelFormat::Argb8888 }
}

/// A pose as ARGB8888 is exactly one slot long.
proof fn lemma_rendered_fills_slot(model: PipelineModel)
    requires
        model.wf(),
    ensures
        model.rendered_bytes().len() == model.pool.frame_bytes,
{
    let pose = model.animation.poses[model.animation.pose as int];
    assert(pose.wf());
    assert(pose.same_size(model.animation.poses[0]));
    let cells = pose.width * pose.height;
    assert(pose.byte_len() == 4 * cells) by (nonlinear_arith)
        requires
            pose.byte_len() == 4 * pose.width * pose.height,
            cells == pose.width * pose.height,
    ;
    assert(model.animation.shown().pixels.len() == 4 * cells);
}

/// A pipeline as set up is well formed, provided its poses are and nothing
/// stands in the way of the setup.
pub proof fn lemma_initial_is_wf(poses: Seq<FrameModel>, config: Config)
    requires
        poses_wf(poses),
        setup_error(poses, config) is None,
    ensures
        PipelineModel::initial(poses, config).wf(),
{
}

/// A render tick keeps the pipeline well formed.
pub proof fn lemma_drawn_keeps_wf(model: PipelineModel)
    requires
        model.wf(),
    ensures
        model.drawn().wf(),
{
    lemma_tick_keeps_wf(model.animation);
}

/// A signal keeps the pipeline well formed.
pub proof fn lemma_handled_keeps_wf(model: PipelineModel, signal: Signal)
    requires
        model.wf(),
    ensures
        model.handled(signal).wf(),
{
    if let Signal::ResizeOrFullscreen { width, height } = signal {
        lemma_with_area_keeps_wf(model.animation, width as int, height as int);
    }
}

/// A render tick never touches a slot the compositor holds: every slot held
/// before the tick is still held after it, with the same bytes.
pub proof fn lemma_draw_spares_held_slots(model: PipelineModel, index: int)
    requires
        model.wf(),
        0 <= index < model.pool.depth(),
        model.pool.held[index],
    ensures
        model.drawn().pool.held[index],
        model.drawn().pool.slot_bytes(index) == model.pool.slot_bytes(index),
{
    if model.renders() {
        let target = model.target();
        lemma_first_free_is_free(model.pool);
        lemma_apply_keeps_held_slot(
            model.pool,
            PoolOp::Write { handle: target as u64, bytes: model.rendered_bytes() },
            index,
        );
    }
}

/// A render tick that goes through publishes the first free slot, filled
/// with the pose that was on show.
pub proof fn lemma_draw_publishes_pose(model: PipelineModel)
    requires
        model.wf(),
        model.renders(),
    ensures
        model.pool.is_first_free(model.target()),
        model.drawn().pool.held[model.target()],
        model.drawn().pool.slot_bytes(model.target()) == model.rendered_bytes(),
{
    let target = model.target();
    lemma_first_free_is_free(model.pool);
    lemma_rendered_fills_slot(model);
    lemma_slot_in_region(model.pool, target);
    let written = model.pool.written(target as u64, model.rendered_bytes());
    assert(written.slot_bytes(target) =~= model.rendered_bytes());
}

/// Whatever signals come in and however often a render tick is run, the
/// pipeline stays well formed, the pool keeps its depth, and the compositor
/// never holds more slots than the pool has.
pub proof fn lemma_run_keeps_wf(model: PipelineModel, steps: Seq<Step>)
    requires
        model.wf(),
    ensures
        model.run(steps).wf(),
        model.run(steps).pool.depth() == model.pool.depth(),
        0 <= model.run(steps).pool.held_count() <= model.pool.depth(),
    decreases steps.len(),
{
    if steps.len() > 0 {
        let before = model.run(steps.drop_last());
        lemma_run_keeps_wf(model, steps.drop_last());
        match steps.last() {
            Step::Handle(signal) => lemma_handled_keeps_wf(before, signal),
            Step::Draw => lemma_drawn_keeps_wf(before),
        }
    }
    lemma_count_held_bounded(model.run(steps).pool.held);
}

/// From the moment a slot is published until the compositor releases it,
/// the pipeline leaves it alone: as long as no release of the slot comes in,
/// it stays held and its bytes stay as they were published, whatever else
/// comes in and however often a render tick is run.
pub proof fn lemma_published_slot_untouched(model: PipelineModel, steps: Seq<Step>, index: int)
    requires
        model.wf(),
        0 <= index < model.pool.depth(),
        model.pool.held[index],
        forall|k: int|
            0 <= k < steps.len() ==> steps[k] != Step::Handle(
                Signal::Release { handle: index as u64 },
            ),
    ensures
        model.run(steps).pool.held[index],
        model.run(steps).pool.slot_bytes(index) == model.pool.slot_bytes(index),
    decreases steps.len(),
{
    if steps.len() > 0 {
        let before = model.run(steps.drop_last());
        lemma_published_slot_untouched(model, steps.drop_last(), index);
        lemma_run_keeps_wf(model, steps.drop_last());
        match steps.last() {
            Step::Handle(signal) => {
                if let Signal::Release { handle } = signal {
                    lemma_apply_keeps_held_slot(before.pool, PoolOp::Release { handle }, index);
                }
            },
            Step::Draw => lemma_draw_spares_held_slots(before, index),
        }
    }
}

/// Whether a toplevel's state list, as raw bytes, names the fullscreen
/// state.
pub fn toplevel_is_fullscreen(states: &Vec<u8>) -> (fullscreen: bool)
    ensures
        fullscreen == states@.contains(FULLSCREEN_STATE),
{
    let mut i: usize = 0;
    while i < states.len()
        invariant
            i <= states.len(),
            forall|j: int| 0 <= j < i ==> states@[j] != FULLSCREEN_STATE,
        decreases states.len() - i,
    {
        if states[i] == FULLSCREEN_STATE {
            return true;
        }
        i = i + 1;
    }
    false
}

/// The overlay's state between signals: whether it runs, what it waits for,
/// the pool and the animation.
pub struct Pipeline {
    running: bool,
    configured: bool,
    awaiting_area: bool,
    repaint_required: bool,
    pacing: Pacing,
    pool: BufferPool,
    animation: Animation,
}

impl View for Pipeline {
    type V = PipelineModel;

    closed spec fn view(&self) -> PipelineModel {
        PipelineModel {
            running: self.running,
            configured: self.configured,
            awaiting_area: self.awaiting_area,
            repaint_required: self.repaint_required,
            pacing: self.pacing,
            pool: self.pool@,
            animation: self.animation@,
        }
    }
}

impl Pipeline {
    #[verifier::type_invariant]
    spec fn inv(self) -> bool {
        self@.wf()
    }

    /// Sets up a pipeline for these poses: a pool with one slot of frame
    /// size for each unit of depth, and the sprite at rest.
    pub fn new(frames: FrameSet, config: Config) -> (pipeline: Result<Pipeline, SetupError>)
        ensures
            match pipeline {
                Ok(p) => setup_error(frames@, config) is None && p@ == PipelineModel::initial(
                    frames@,
                    config,
                ) && p@.wf(),
                Err(e) => setup_error(frames@, config) == Some(e),
            },
    {
        let width: u32 = frames.width();
        let frame_bytes: usize = frames.frame_byte_len();
        if width as u64 > MAX_COORD / 4 {
            return Err(SetupError::FrameTooWide);
        }
        let animation = match Animation::new(frames, config.motion) {
            Ok(animation) => animation,
            Err(e) => {
                return Err(SetupError::Jump(e));
            },
        };
        let pool = match BufferPool::allocate(frame_bytes, config.depth) {
            Ok(pool) => pool,
            Err(e) => {
                return Err(SetupError::Pool(e));
            },
        };
        Ok(
            Pipeline {
                running: true,
                configured: false,
                awaiting_area: true,
                repaint_required: false,
                pacing: config.pacing,
                pool,
                animation,
            },
        )
    }

    /// Sets up the stock sprite: two slots, paced by the compositor, a jump
    /// of six steps of fifteen, and a walking pace drawn at random from
    /// `WALK_STEP_MIN` up to, not including, `WALK_STEP_END`.
    pub fn with_random_walk(frames: FrameSet) -> (pipeline: Result<Pipeline, SetupError>)
        ensures
            match pipeline {
                Ok(p) => {
                    &&& setup_error(frames@, stock_config(WALK_STEP_MIN)) is None
                    &&& WALK_STEP_MIN <= p@.animation.motion.walk_step < WALK_STEP_END
                    &&& p@ == PipelineModel::initial(
                        frames@,
                        stock_config(p@.animation.motion.walk_step),
                    )
                    &&& p@.wf()
                },
                Err(e) => setup_error(frames@, stock_config(WALK_STEP_MIN)) == Some(e),
            },
    {
        let walk_step: u64 = match random_walk_step(WALK_STEP_MIN, WALK_STEP_END) {
            Some(step) => step,
            None => vstd::pervasive::unreached(),
        };
        let config = Config {
            motion: Motion { walk_step, jump_step: 15, jump_count: 6 },
            depth: 2,
            pacing: Pacing::CompositorPaced,
        };
        Pipeline::new(frames, config)
    }

    /// Whether the overlay is still to run.
    pub fn is_running(&self) -> (running: bool)
        ensures
            running == self@.running,
    {
        self.running
    }

    /// Whether the surface is ready to receive buffers.
    pub fn is_configured(&self) -> (configured: bool)
        ensures
            configured == self@.configured,
    {
        self.configured
    }

    /// Whether a render tick is due.
    pub fn repaint_required(&self) -> (required: bool)
        ensures
            required == self@.repaint_required,
    {
        self.repaint_required
    }

    /// What sets the pace of rendering.
    pub fn pacing(&self) -> (pacing: Pacing)
        ensures
            pacing == self@.pacing,
    {
        self.pacing
    }

    /// The pool of buffers.
    pub fn pool(&self) -> (pool: &BufferPool)
        ensures
            pool@ == self@.pool,
    {
        &self.pool
    }

    /// The animation.
    pub fn animation(&self) -> (animation: &Animation)
        ensures
            animation@ == self@.animation,
    {
        &self.animation
    }

    /// The shared memory as the compositor is to see it: the size of the
    /// region, the placeholder's buffer in the header, and one buffer of
    /// frame size for each slot.
    pub fn memory_layout(&self) -> (layout: MemoryLayout)
        ensures
            layout.region_size == region_size(self@.pool.frame_bytes, self@.pool.depth()),
            layout.placeholder == placeholder_descriptor(),
            layout.slots.len() == self@.pool.depth(),
            forall|i: int|
                0 <= i < layout.slots.len() ==> {
                    &&& (#[trigger] layout.slots[i]).offset == self@.pool.slot_offset(i)
                    &&& layout.slots[i].width == self@.animation.frame_width()
                    &&& layout.slots[i].height == self@.animation.frame_height()
                    &&& layout.slots[i].stride == 4 * self@.animation.frame_width()
                    &&& layout.slots[i].format == PixelFormat::Argb8888
                },
    {
        proof {
            use_type_invariant(self);
        }
        let frames = self.animation.frames();
        let width: i32 = frames.width() as i32;
        let height: i32 = frames.height() as i32;
        let depth: usize = self.pool.depth();
        let frame_bytes: usize = self.pool.frame_byte_size();
        let mut slots: Vec<BufferDescriptor> = Vec::new();
        let mut i: usize = 0;
        while i < depth
            invariant
                i <= depth,
                self@.wf(),
                depth == self@.pool.depth(),
                frame_bytes == self@.pool.frame_bytes,
                width == self@.animation.frame_width(),
                height == self@.animation.frame_height(),
                4 * width <= MAX_COORD,
                slots.len() == i,
                forall|j: int|
                    0 <= j < i ==> {
                        &&& (#[trigger] slots[j]).offset == self@.pool.slot_offset(j)
                        &&& slots[j].width == width
                        &&& slots[j].height == height
                        &&& slots[j].stride == 4 * width
                        &&& slots[j].format == PixelFormat::Argb8888
                    },
            decreases depth - i,
        {
            proof {
                lemma_slot_in_region(self@.pool, i as int);
            }
            let offset: usize = HEADER_BYTES + i * frame_bytes;
            slots.push(
                BufferDescriptor {
                    offset: offset as i32,
                    width,
                    height,
                    stride: 4 * width,
                    format: PixelFormat::Argb8888,
                },
            );
            i = i + 1;
        }
        MemoryLayout {
            region_size: self.pool.region_size() as i32,
            placeholder: BufferDescriptor {
                offset: 0,
                width: 1,
                height: 1,
                stride: 4,
                format: PixelFormat::Argb8888,
            },
            slots,
        }
    }

    /// Takes in one signal and gives back what to ask of the compositor.
    pub fn handle(&mut self, signal: Signal) -> (commands: Vec<Command>)
        ensures
            final(self)@ == old(self)@.handled(signal),
            commands@ == old(self)@.handle_commands(signal),
            final(self)@.wf(),
    {
        proof {
            use_type_invariant(&*self);
        }
        let mut commands: Vec<Command> = Vec::new();
        match signal {
            Signal::Configured => {
                self.configured = true;
            },
            Signal::Release { handle } => {
                self.pool.release(handle);
            },
            Signal::ResizeOrFullscreen { width, height } => {
                if self.awaiting_area {
                    self.animation.set_area(width, height);
                    self.awaiting_area = false;
                    self.repaint_required = true;
                }
            },
            Signal::PacingTick => {
                self.repaint_required = true;
                match self.pacing {
                    Pacing::CompositorPaced => {
                        commands.push(Command::RequestNextPacingTick);
                    },
                    Pacing::FixedInterval => {},
                }
            },
            Signal::Close => {
                self.running = false;
            },
            Signal::Key { code } => {
                if code == KEY_ESCAPE {
                    self.running = false;
                }
            },
        }
        assert(commands@ =~= old(self)@.handle_commands(signal));
        commands
    }

    /// One render tick. Skipped, with nothing changed and nothing asked,
    /// until the surface is configured and whenever the compositor holds
    /// every slot. Otherwise the pose on show is written into the first free
    /// slot, the slot goes to the compositor, and the animation moves on.
    pub fn draw(&mut self) -> (commands: Vec<Command>)
        requires
            old(self)@.animation.ticks < u64::MAX,
        ensures
            final(self)@ == old(self)@.drawn(),
            commands@ == old(self)@.draw_commands(),
            final(self)@.wf(),
    {
        proof {
            use_type_invariant(&*self);
            lemma_rendered_fills_slot(self@);
            lemma_position_in_range(self@.animation);
        }
        let mut commands: Vec<Command> = Vec::new();
        if !self.configured {
            return commands;
        }
        let slot = match self.pool.acquire_free_slot() {
            Some(slot) => slot,
            None => {
                return commands;
            },
        };
        let frame = self.animation.frame();
        let width: i32 = frame.width() as i32;
        let height: i32 = frame.height() as i32;
        let pixels: Vec<u8> = encode_argb8888(frame.pixels());
        let position: (i32, i32) = self.animation.position();
        match self.pool.write_slot(&slot, &pixels) {
            Ok(()) => {},
            Err(_) => vstd::pervasive::unreached(),
        }
        self.pool.mark_held(&slot);
        commands.push(Command::Upload { offset: slot.offset, len: slot.len });
        commands.push(Command::SetPosition { x: position.0, y: position.1 });
        commands.push(Command::Attach { surface: Surface::Overlay, handle: slot.handle });
        commands.push(Command::Damage { surface: Surface::Overlay, width, height });
        commands.push(Command::Commit { surface: Surface::Overlay });
        commands.push(Command::Commit { surface: Surface::Parent });
        self.animation.next();
        self.repaint_required = false;
        assert(commands@ =~= old(self)@.draw_commands());
        commands
    }
}

} // verus!

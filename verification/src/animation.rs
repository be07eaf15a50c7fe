//! The walk-and-jump animation: where the sprite stands, which way it
//! faces, which pose it shows, and how all of that changes with each tick.

use vstd::prelude::*;
use crate::frame::{poses_wf, Frame, FrameModel, FrameSet};
use crate::jump::{
    jump_limit, lemma_advance_within_ceiling, lower, lowered, JumpModel, JumpState,
};

verus! {

/// The sprite leaves the ground on every tick whose number is a multiple of
/// this.
pub const JUMP_PERIOD: u64 = 45;

/// Largest coordinate and extent: positions go to the compositor as signed
/// 32-bit numbers.
pub const MAX_COORD: u64 = 0x7fff_ffff;

/// How far the sprite moves: pixels per tick on the ground, and the step
/// and number of steps that make up the climb of a jump.
#[derive(Clone, Copy, Debug, PartialEq, Eq)]
pub struct Motion {
    pub walk_step: u64,
    pub jump_step: u64,
    pub jump_count: u64,
}

impl Default for Motion {
    fn default() -> (motion: Motion)
        ensures
            motion == (Motion { walk_step: 15, jump_step: 6, jump_count: 15 }),
    {
        Motion { walk_step: 15, jump_step: 6, jump_count: 15 }
    }
}

/// Why a motion cannot drive a sprite of a given height.
#[derive(Clone, Copy, Debug, PartialEq, Eq)]
pub enum ConfigError {
    /// A jump of no steps with a step that is not zero: the descent would
    /// begin below the ground.
    NoJumpSteps,
    /// Frame height, apex and one more step together exceed `MAX_COORD`.
    JumpOutOfRange,
}

/// The animation as plain data.
pub struct AnimationModel {
    pub x: nat,
    pub area_width: nat,
    pub area_height: nat,
    pub ticks: nat,
    pub jump: JumpModel,
    pub forward: bool,
    pub pose: nat,
    pub motion: Motion,
    pub poses: Seq<FrameModel>,
}

/// Whether a descent can begin one step below the apex.
pub open spec fn apex_reachable(motion: Motion) -> bool {
    motion.jump_step <= jump_limit(motion.jump_step as nat, motion.jump_count as nat)
}

/// Whether the sprite stays within `MAX_COORD` of the floor at the top of its
/// jump: frame height, apex and one more step.
pub open spec fn jump_in_range(motion: Motion, frame_height: nat) -> bool {
    frame_height + jump_limit(motion.jump_step as nat, motion.jump_count as nat)
        + motion.jump_step <= MAX_COORD
}

/// Why a motion cannot drive a sprite of this height, if it cannot.
pub open spec fn config_error(motion: Motion, frame_height: nat) -> Option<ConfigError> {
    if !apex_reachable(motion) {
        Some(ConfigError::NoJumpSteps)
    } else if !jump_in_range(motion, frame_height) {
        Some(ConfigError::JumpOutOfRange)
    } else {
        None
    }
}

/// An extent as the compositor reports it, with a negative one taken as
/// empty.
pub open spec fn extent(reported: int) -> nat {
    if reported < 0 {
        0
    } else {
        reported as nat
    }
}

impl AnimationModel {
    /// The animation at rest in the left corner of an area not yet known.
    pub open spec fn initial(poses: Seq<FrameModel>, motion: Motion) -> AnimationModel {
        AnimationModel {
            x: 0,
            area_width: 0,
            area_height: 0,
            ticks: 0,
            jump: JumpModel::Grounded,
            forward: true,
            pose: 0,
            motion,
            poses,
        }
    }

    pub open spec fn frame_width(self) -> nat {
        self.poses[0].width
    }

    pub open spec fn frame_height(self) -> nat {
        self.poses[0].height
    }

    /// The rightmost position: `area_width - frame_width`, or zero where the
    /// area is narrower than the frame.
    pub open spec fn max_x(self) -> nat {
        lowered(self.area_width, self.frame_width())
    }

    /// Height of the sprite above the floor of the area.
    pub open spec fn vertical_offset(self) -> nat {
        self.jump.height()
    }

    /// The highest a jump may stand: one step above the apex.
    pub open spec fn ceiling(self) -> nat {
        jump_limit(self.motion.jump_step as nat, self.motion.jump_count as nat)
            + self.motion.jump_step as nat
    }

    pub open spec fn wf(self) -> bool {
        &&& poses_wf(self.poses)
        &&& self.pose < self.poses.len()
        &&& self.area_width <= MAX_COORD
        &&& self.area_height <= MAX_COORD
        &&& self.x <= self.max_x()
        &&& apex_reachable(self.motion)
        &&& jump_in_range(self.motion, self.frame_height())
        &&& self.jump.height() <= self.ceiling()
    }

    /// Where the overlay is drawn: `x` from the left, and the top of the
    /// frame measured from the top of the area.
    pub open spec fn position(self) -> (int, int) {
        (self.x as int, self.area_height - self.frame_height() - self.vertical_offset())
    }

    /// The pixels on show: the current pose, flipped when facing backward.
    pub open spec fn shown(self) -> FrameModel {
        if self.forward {
            self.poses[self.pose as int]
        } else {
            self.poses[self.pose as int].mirrored()
        }
    }

    /// The jump state after this tick's evaluation of the transition rule.
    pub open spec fn jumped(self) -> JumpModel {
        self.jump.advance(self.motion.jump_step as nat, self.motion.jump_count as nat)
    }

    /// The pose after the current one, back to the first after the last.
    pub open spec fn next_pose(self) -> nat {
        if self.pose + 1 >= self.poses.len() {
            0
        } else {
            self.pose + 1
        }
    }

    /// The animation one tick later.
    pub open spec fn tick(self) -> AnimationModel {
        let ticks = self.ticks + 1;
        let jumped = self.jumped();
        let grounded = jumped is Grounded;
        let pose = if grounded {
            self.next_pose()
        } else {
            0
        };
        let jump = if grounded && ticks % (JUMP_PERIOD as nat) == 0 {
            JumpModel::Ascending(0)
        } else {
            jumped
        };
        let stride = if grounded {
            self.motion.walk_step as nat
        } else {
            (self.motion.walk_step / 2) as nat
        };
        let x = if self.forward {
            if self.x + stride >= self.max_x() {
                self.max_x()
            } else {
                self.x + stride
            }
        } else {
            lowered(self.x, stride)
        };
        let forward = if self.forward {
            self.x + stride < self.max_x()
        } else {
            x == 0
        };
        AnimationModel { x, ticks, jump, forward, pose, ..self }
    }

    /// The animation `count` ticks later.
    pub open spec fn after(self, count: nat) -> AnimationModel
        decreases count,
    {
        if count == 0 {
            self
        } else {
            self.after((count - 1) as nat).tick()
        }
    }

    /// The animation in an area of the reported size. The position is pulled
    /// back into a narrower area.
    pub open spec fn with_area(self, width: int, height: int) -> AnimationModel {
        let resized = AnimationModel {
            area_width: extent(width),
            area_height: extent(height),
            ..self
        };
        AnimationModel {
            x: if self.x <= resized.max_x() {
                self.x
            } else {
                resized.max_x()
            },
            ..resized
        }
    }
}

/// A tick keeps the animation well formed.
pub proof fn lemma_tick_keeps_wf(anim: AnimationModel)
    requires
        anim.wf(),
    ensures
        anim.tick().wf(),
        anim.tick().poses == anim.poses,
        anim.tick().motion == anim.motion,
        anim.tick().area_width == anim.area_width,
        anim.tick().area_height == anim.area_height,
{
    lemma_advance_within_ceiling(
        anim.jump,
        anim.motion.jump_step as nat,
        anim.motion.jump_count as nat,
    );
}

/// A sprite as set up is well formed, provided its poses are and its jump
/// suits their height.
pub proof fn lemma_initial_is_wf(poses: Seq<FrameModel>, motion: Motion)
    requires
        poses_wf(poses),
        apex_reachable(motion),
        jump_in_range(motion, poses[0].height),
    ensures
        AnimationModel::initial(poses, motion).wf(),
{
}

/// A new area keeps the animation well formed, whatever size is reported.
pub proof fn lemma_with_area_keeps_wf(anim: AnimationModel, width: int, height: int)
    requires
        anim.wf(),
        width <= MAX_COORD,
        height <= MAX_COORD,
    ensures
        anim.with_area(width, height).wf(),
{
}

/// However many ticks go by, the sprite stays between the left edge and the
/// rightmost position of its area.
pub proof fn lemma_position_bounded_forever(anim: AnimationModel, count: nat)
    requires
        anim.wf(),
    ensures
        anim.after(count).wf(),
        anim.after(count).max_x() == anim.max_x(),
        0 <= anim.after(count).x <= anim.max_x(),
    decreases count,
{
    if count > 0 {
        lemma_position_bounded_forever(anim, (count - 1) as nat);
        lemma_tick_keeps_wf(anim.after((count - 1) as nat));
    }
}

/// The bounce: the position stays between zero and the rightmost position,
/// and the sprite turns round exactly when it arrives at the edge it was
/// walking towards.
pub proof fn lemma_tick_bounces(anim: AnimationModel)
    requires
        anim.wf(),
    ensures
        0 <= anim.tick().x <= anim.max_x(),
        anim.tick().forward != anim.forward <==> (if anim.forward {
            anim.tick().x == anim.max_x()
        } else {
            anim.tick().x == 0
        }),
{
}

/// On the ground the poses follow one another in a cycle; in the air the
/// sprite shows the first pose.
pub proof fn lemma_tick_pose(anim: AnimationModel)
    requires
        anim.wf(),
    ensures
        anim.jumped() is Grounded ==> anim.tick().pose == (anim.pose + 1) as int % (
        anim.poses.len() as int),
        !(anim.jumped() is Grounded) ==> anim.tick().pose == 0,
        anim.tick().pose < anim.poses.len(),
{
    let count = anim.poses.len() as int;
    if anim.pose + 1 < count {
        vstd::arithmetic::div_mod::lemma_small_mod((anim.pose + 1) as nat, count as nat);
    } else {
        vstd::arithmetic::div_mod::lemma_mod_self_0(count);
    }
}

/// The position of a well-formed animation fits the compositor's signed
/// 32-bit coordinates.
pub proof fn lemma_position_in_range(anim: AnimationModel)
    requires
        anim.wf(),
    ensures
        0 <= anim.position().0 <= MAX_COORD,
        -(MAX_COORD as int) <= anim.position().1 <= MAX_COORD,
{
}

/// The animation of one sprite.
pub struct Animation {
    x: u64,
    area: (u64, u64),
    count: u64,
    jump: JumpState,
    forward: bool,
    motion: Motion,
    frames: FrameSet,
    frame_index: usize,
}

impl View for Animation {
    type V = AnimationModel;

    closed spec fn view(&self) -> AnimationModel {
        AnimationModel {
            x: self.x as nat,
            area_width: self.area.0 as nat,
            area_height: self.area.1 as nat,
            ticks: self.count as nat,
            jump: self.jump@,
            forward: self.forward,
            pose: self.frame_index as nat,
            motion: self.motion,
            poses: self.frames@,
        }
    }
}

impl Animation {
    #[verifier::type_invariant]
    spec fn inv(self) -> bool {
        self@.wf()
    }

    /// A sprite at rest in the left corner, facing forward, showing its
    /// first pose, in an area not yet known. Refused when the motion's jump
    /// cannot be carried out for frames of this height.
    pub fn new(frames: FrameSet, motion: Motion) -> (anim: Result<Animation, ConfigError>)
        ensures
            match anim {
                Ok(a) => config_error(motion, frames@[0].height) is None && a@
                    == AnimationModel::initial(frames@, motion) && a@.wf(),
                Err(e) => config_error(motion, frames@[0].height) == Some(e),
            },
    {
        let frame_height: u32 = frames.height();
        assert(motion.jump_step * motion.jump_count <= 0xffff_ffff_ffff_ffff
            * 0xffff_ffff_ffff_ffff) by (nonlinear_arith)
            requires
                motion.jump_step <= 0xffff_ffff_ffff_ffff,
                motion.jump_count <= 0xffff_ffff_ffff_ffff,
        ;
        let limit: u128 = (motion.jump_step as u128) * (motion.jump_count as u128);
        if (motion.jump_step as u128) > limit {
            return Err(ConfigError::NoJumpSteps);
        }
        if frame_height as u128 + limit + motion.jump_step as u128 > MAX_COORD as u128 {
            return Err(ConfigError::JumpOutOfRange);
        }
        Ok(
            Animation {
                x: 0,
                area: (0, 0),
                count: 0,
                jump: JumpState::Grounded,
                forward: true,
                motion,
                frames,
                frame_index: 0,
            },
        )
    }

    /// Horizontal position, in pixels from the left edge of the area.
    pub fn x(&self) -> (x: u64)
        ensures
            x == self@.x,
    {
        self.x
    }

    /// Height above the floor of the area.
    pub fn vertical_offset(&self) -> (offset: u64)
        ensures
            offset == self@.vertical_offset(),
    {
        self.jump.height()
    }

    /// Width and height of the display area.
    pub fn area(&self) -> (area: (u64, u64))
        ensures
            area.0 == self@.area_width,
            area.1 == self@.area_height,
    {
        self.area
    }

    /// Number of ticks so far.
    pub fn ticks(&self) -> (ticks: u64)
        ensures
            ticks == self@.ticks,
    {
        self.count
    }

    /// Where the sprite is in its jump cycle.
    pub fn jump(&self) -> (jump: JumpState)
        ensures
            jump@ == self@.jump,
    {
        self.jump
    }

    /// Whether the sprite faces, and walks, forward.
    pub fn is_forward(&self) -> (forward: bool)
        ensures
            forward == self@.forward,
    {
        self.forward
    }

    /// Index of the pose on show.
    pub fn pose_index(&self) -> (index: usize)
        ensures
            index == self@.pose,
            index < self@.poses.len(),
    {
        proof {
            use_type_invariant(self);
        }
        self.frame_index
    }

    /// The motion the sprite was set up with.
    pub fn motion(&self) -> (motion: Motion)
        ensures
            motion == self@.motion,
    {
        self.motion
    }

    /// The poses of the sprite.
    pub fn frames(&self) -> (frames: &FrameSet)
        ensures
            frames@ == self@.poses,
            poses_wf(self@.poses),
    {
        proof {
            use_type_invariant(self);
        }
        &self.frames
    }

    /// Sets the display area to the size the compositor reported, taking a
    /// negative extent as empty, and pulls the sprite back inside.
    pub fn set_area(&mut self, width: i32, height: i32)
        ensures
            final(self)@ == old(self)@.with_area(width as int, height as int),
            final(self)@.wf(),
        no_unwind
    {
        proof {
            use_type_invariant(&*self);
        }
        let area_width: u64 = if width < 0 {
            0
        } else {
            width as u64
        };
        let area_height: u64 = if height < 0 {
            0
        } else {
            height as u64
        };
        let max_x: u64 = lower(area_width, self.frames.width() as u64);
        if self.x > max_x {
            self.x = max_x;
        }
        self.area = (area_width, area_height);
    }

    /// Where the overlay is drawn, relative to the parent surface.
    pub fn position(&self) -> (position: (i32, i32))
        ensures
            position.0 == self@.position().0,
            position.1 == self@.position().1,
            self@.wf(),
    {
        proof {
            use_type_invariant(self);
        }
        let top: i64 = self.area.1 as i64 - self.frames.height() as i64 - self.jump.height() as i64;
        (self.x as i32, top as i32)
    }

    /// The pixels on show: the current pose, flipped when facing backward.
    pub fn frame(&self) -> (frame: &Frame)
        ensures
            frame@ == self@.shown(),
            self@.wf(),
    {
        proof {
            use_type_invariant(self);
        }
        match self.frames.pose(self.frame_index, self.forward) {
            Some(frame) => frame,
            None => vstd::pervasive::unreached(),
        }
    }

    /// Advances the animation by one tick.
    pub fn next(&mut self)
        requires
            old(self)@.ticks < u64::MAX,
        ensures
            final(self)@ == old(self)@.tick(),
            final(self)@.wf(),
            final(self)@.poses == old(self)@.poses,
            final(self)@.motion == old(self)@.motion,
            final(self)@.max_x() == old(self)@.max_x(),
            0 <= final(self)@.x <= old(self)@.max_x(),
            final(self)@.forward != old(self)@.forward <==> final(self)@.x == (if old(
                self,
            )@.forward {
                old(self)@.max_x()
            } else {
                0
            }),
            final(self)@.pose == (if old(self)@.jumped() is Grounded {
                old(self)@.next_pose()
            } else {
                0
            }),
        no_unwind
    {
        proof {
            use_type_invariant(&*self);
            lemma_tick_keeps_wf(self@);
            lemma_tick_bounces(self@);
            lemma_advance_within_ceiling(
                self@.jump,
                self.motion.jump_step as nat,
                self.motion.jump_count as nat,
            );
        }
        let ghost before = self@;
        let pose_count: usize = self.frames.len();
        self.count = self.count + 1;
        let mut jump: JumpState = self.jump;
        jump.next(self.motion.jump_step, self.motion.jump_count);
        self.jump = jump;
        let stride: u64 = match jump {
            JumpState::Ascending(_) | JumpState::Descending(_) => {
                self.frame_index = 0;
                self.motion.walk_step / 2
            },
            JumpState::Grounded => {
                self.frame_index = if self.frame_index + 1 >= pose_count {
                    0
                } else {
                    self.frame_index + 1
                };
                if self.count % JUMP_PERIOD == 0 {
                    self.jump = JumpState::Ascending(0);
                }
                self.motion.walk_step
            },
        };
        let max_x: u64 = lower(self.area.0, self.frames.width() as u64);
        if self.forward {
            if stride >= max_x - self.x {
                self.x = max_x;
                self.forward = false;
            } else {
                self.x = self.x + stride;
            }
        } else {
            self.x = lower(self.x, stride);
            self.forward = self.x == 0;
        }
        assert(self@ == before.tick());
    }
}

} // verus!

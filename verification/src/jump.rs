//! The jump cycle of the sprite: grounded, ascending, descending.

use vstd::prelude::*;

verus! {

/// The jump cycle over unbounded heights.
pub enum JumpModel {
    Grounded,
    Ascending(nat),
    Descending(nat),
}

/// The apex of a jump: `jump_count` full steps above the ground.
pub open spec fn jump_limit(jump_step: nat, jump_count: nat) -> nat {
    jump_step * jump_count
}

/// Whether height `y` lies in the deceleration band, `y >= 0.6 * limit`,
/// stated over integers.
pub open spec fn in_deceleration_band(y: nat, limit: nat) -> bool {
    5 * y >= 3 * limit
}

/// `max(0, y - drop)`: a descent never passes below the ground.
pub open spec fn lowered(y: nat, drop: nat) -> nat {
    if y >= drop {
        (y - drop) as nat
    } else {
        0
    }
}

impl JumpModel {
    /// Height above the ground; zero when grounded.
    pub open spec fn height(self) -> nat {
        match self {
            JumpModel::Grounded => 0,
            JumpModel::Ascending(y) => y,
            JumpModel::Descending(y) => y,
        }
    }

    /// One evaluation of the transition rule. At or above the apex an
    /// ascent turns into a descent that starts one step below the apex.
    /// Inside the deceleration band the sprite climbs and drops a quarter
    /// step at a time, below it a full step. A descent that has reached the
    /// ground ends the jump.
    pub open spec fn advance(self, jump_step: nat, jump_count: nat) -> JumpModel {
        let limit = jump_limit(jump_step, jump_count);
        match self {
            JumpModel::Ascending(y) => {
                if y >= limit {
                    JumpModel::Descending((limit - jump_step) as nat)
                } else if in_deceleration_band(y, limit) {
                    JumpModel::Ascending(y + jump_step / 4)
                } else {
                    JumpModel::Ascending(y + jump_step)
                }
            },
            JumpModel::Descending(y) => {
                if y == 0 {
                    JumpModel::Grounded
                } else if in_deceleration_band(y, limit) {
                    JumpModel::Descending(lowered(y, jump_step / 4))
                } else {
                    JumpModel::Descending(lowered(y, jump_step))
                }
            },
            JumpModel::Grounded => JumpModel::Grounded,
        }
    }

    /// The state after `count` evaluations.
    pub open spec fn after(self, jump_step: nat, jump_count: nat, count: nat) -> JumpModel
        decreases count,
    {
        if count == 0 {
            self
        } else {
            self.advance(jump_step, jump_count).after(jump_step, jump_count, (count - 1) as nat)
        }
    }

    /// A number of evaluations within which a jump is over, where a quarter
    /// step is at least one: what is left of the climb, then the way down
    /// from one step below the apex, or what is left of the descent.
    pub open spec fn landing_bound(self, jump_step: nat, jump_count: nat) -> nat {
        let limit = jump_limit(jump_step, jump_count);
        match self {
            JumpModel::Grounded => 0,
            JumpModel::Descending(y) => y + 1,
            JumpModel::Ascending(y) => lowered(limit, y) + lowered(limit, jump_step) + 2,
        }
    }

    /// The states from which one evaluation stays within `u64` and within
    /// the non-negative heights.
    pub open spec fn can_advance(self, jump_step: nat, jump_count: nat) -> bool {
        let limit = jump_limit(jump_step, jump_count);
        &&& limit <= u64::MAX
        &&& match self {
            JumpModel::Ascending(y) => {
                if y >= limit {
                    jump_step <= limit
                } else if in_deceleration_band(y, limit) {
                    y + jump_step / 4 <= u64::MAX
                } else {
                    y + jump_step <= u64::MAX
                }
            },
            _ => true,
        }
    }
}

/// Where the apex lies at least one step up, a jump never climbs higher
/// than one step above it: from a height within that ceiling, one evaluation
/// stays within it, and it can be carried out in `u64` if the ceiling fits.
pub proof fn lemma_advance_within_ceiling(jump: JumpModel, jump_step: nat, jump_count: nat)
    requires
        jump_step <= jump_limit(jump_step, jump_count),
        jump.height() <= jump_limit(jump_step, jump_count) + jump_step,
    ensures
        jump.advance(jump_step, jump_count).height() <= jump_limit(jump_step, jump_count)
            + jump_step,
        jump_limit(jump_step, jump_count) + jump_step <= u64::MAX ==> jump.can_advance(
            jump_step,
            jump_count,
        ),
{
}

/// Every jump lands: where a quarter step is at least one and the apex lies
/// at least one step up, the sprite is back on the ground after
/// `landing_bound` evaluations, and stays there.
pub proof fn lemma_jump_lands(jump: JumpModel, jump_step: nat, jump_count: nat, count: nat)
    requires
        jump_step >= 4,
        jump_step <= jump_limit(jump_step, jump_count),
        jump.landing_bound(jump_step, jump_count) <= count,
    ensures
        jump.after(jump_step, jump_count, count) is Grounded,
    decreases count,
{
    if count > 0 {
        let next = jump.advance(jump_step, jump_count);
        assert(jump_step / 4 >= 1);
        assert(next.landing_bound(jump_step, jump_count) <= count - 1);
        lemma_jump_lands(next, jump_step, jump_count, (count - 1) as nat);
    }
}

/// Where the sprite is in its jump cycle.
#[derive(Clone, Copy, Debug, PartialEq, Eq)]
pub enum JumpState {
    Grounded,
    Ascending(u64),
    Descending(u64),
}

impl View for JumpState {
    type V = JumpModel;

    open spec fn view(&self) -> JumpModel {
        match *self {
            JumpState::Grounded => JumpModel::Grounded,
            JumpState::Ascending(y) => JumpModel::Ascending(y as nat),
            JumpState::Descending(y) => JumpModel::Descending(y as nat),
        }
    }
}

/// `max(0, y - drop)`.
pub(crate) fn lower(y: u64, drop: u64) -> (height: u64)
    ensures
        height == lowered(y as nat, drop as nat),
    no_unwind
{
    if y >= drop {
        y - drop
    } else {
        0
    }
}

/// Decides `y >= 0.6 * limit` without rounding.
fn in_band(y: u64, limit: u64) -> (b: bool)
    ensures
        b == in_deceleration_band(y as nat, limit as nat),
    no_unwind
{
    (y as u128) * 5 >= (limit as u128) * 3
}

impl JumpState {
    /// Height above the ground; zero when grounded.
    pub fn height(&self) -> (height: u64)
        ensures
            height == self@.height(),
        no_unwind
    {
        match *self {
            JumpState::Grounded => 0,
            JumpState::Ascending(y) => y,
            JumpState::Descending(y) => y,
        }
    }

    /// Applies the transition rule once.
    pub fn next(&mut self, jump_step: u64, jump_count: u64)
        requires
            old(self)@.can_advance(jump_step as nat, jump_count as nat),
        ensures
            final(self)@ == old(self)@.advance(jump_step as nat, jump_count as nat),
        no_unwind
    {
        let limit: u64 = jump_step * jump_count;
        *self = match *self {
            JumpState::Ascending(y) => {
                if y >= limit {
                    JumpState::Descending(limit - jump_step)
                } else if in_band(y, limit) {
                    JumpState::Ascending(y + jump_step / 4)
                } else {
                    JumpState::Ascending(y + jump_step)
                }
            },
            JumpState::Descending(y) => {
                if y == 0 {
                    JumpState::Grounded
                } else if in_band(y, limit) {
                    JumpState::Descending(lower(y, jump_step / 4))
                } else {
                    JumpState::Descending(lower(y, jump_step))
                }
            },
            JumpState::Grounded => JumpState::Grounded,
        };
    }
}

} // verus!

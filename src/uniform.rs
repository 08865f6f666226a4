//! The per-frame uniform snapshot: a rotation about the z axis that advances
//! with elapsed time.
use vstd::arithmetic::div_mod::{lemma_fundamental_div_mod, lemma_mod_multiples_vanish, lemma_small_mod};
use vstd::prelude::*;

verus! {

/// One full turn, in micro-degrees.
pub const FULL_TURN: u64 = 360_000_000;

/// Rotation speed, in degrees per second (and so micro-degrees per microsecond).
pub const DEGREES_PER_SECOND: u64 = 90;

/// Angle, in degrees, of the model's rotation before any time has passed.
pub const BASE_ANGLE_DEGREES: u32 = 90;

/// Microseconds in which the rotation makes one full turn.
pub const TURN_MICROS: u64 = 4_000_000;

/// The rotation, in micro-degrees within one turn, after `delta_micros`
/// microseconds more have passed.
pub open spec fn advanced(rotation: nat, delta_micros: nat) -> nat {
    ((rotation + DEGREES_PER_SECOND * delta_micros) % (FULL_TURN as int)) as nat
}

/// The rotation after updates by each of `deltas`, in order.
pub open spec fn after_updates(rotation: nat, deltas: Seq<nat>) -> nat
    decreases deltas.len(),
{
    if deltas.len() == 0 {
        rotation
    } else {
        after_updates(advanced(rotation, deltas[0]), deltas.drop_first())
    }
}

/// The uniform data the engine computes: how far the model has turned about the
/// z axis, on top of its base angle. The matrices themselves are derived from it
/// when the snapshot is written to a uniform buffer.
pub struct UniformSnapshot {
    rotation: u32,
}

impl View for UniformSnapshot {
    type V = nat;

    closed spec fn view(&self) -> nat {
        self.rotation as nat
    }
}

impl UniformSnapshot {
    /// The snapshot before any time has passed.
    pub fn new() -> (r: UniformSnapshot)
        ensures
            r@ == 0,
    {
        UniformSnapshot { rotation: 0 }
    }

    /// The rotation in micro-degrees, within one turn once updated.
    pub fn rotation(&self) -> (r: u32)
        ensures
            r == self@,
    {
        self.rotation
    }

    /// Advances the rotation by `delta_micros` microseconds of turning at
    /// `DEGREES_PER_SECOND`.
    pub fn update(&mut self, delta_micros: u64)
        ensures
            final(self)@ == advanced(old(self)@, delta_micros as nat),
            final(self)@ < FULL_TURN,
    {
        let step = DEGREES_PER_SECOND * (delta_micros % TURN_MICROS);
        let next = (self.rotation as u64 + step) % FULL_TURN;
        proof {
            let d = delta_micros as int;
            let q = d / (TURN_MICROS as int);
            let m = d % (TURN_MICROS as int);
            lemma_fundamental_div_mod(d, TURN_MICROS as int);
            assert(DEGREES_PER_SECOND * d == FULL_TURN * q + DEGREES_PER_SECOND * m);
            lemma_mod_multiples_vanish(q, self.rotation as int + DEGREES_PER_SECOND * m, FULL_TURN as int);
        }
        self.rotation = next as u32;
    }
}

/// Updating with no elapsed time, any number of times, leaves the rotation as it was.
pub proof fn lemma_zero_delta_keeps_rotation(rotation: nat, deltas: Seq<nat>)
    requires
        rotation < FULL_TURN,
        forall|i: int| 0 <= i < deltas.len() ==> #[trigger] deltas[i] == 0,
    ensures
        after_updates(rotation, deltas) == rotation,
    decreases deltas.len(),
{
    if deltas.len() > 0 {
        lemma_small_mod(rotation, FULL_TURN as nat);
        let rest = deltas.drop_first();
        assert forall|i: int| 0 <= i < rest.len() implies #[trigger] rest[i] == 0 by {
            assert(rest[i] == deltas[i + 1]);
        }
        lemma_zero_delta_keeps_rotation(rotation, rest);
    }
}

} // verus!

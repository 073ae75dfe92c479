use vstd::prelude::*;
use vstd::arithmetic::div_mod::{
    lemma_add_mod_noop_right, lemma_mod_bound, lemma_mod_multiples_vanish, lemma_small_mod,
};
use crate::span::Span;
use crate::viewport::{valid_dimensions, Aspect, InvalidDimensions, ViewportPolicy};

verus! {

/// Frame periods that one full turn of the body takes.
pub const FRAMES_PER_TURN: u64 = 600;

/// Whether a frame period can drive the rotation: it is not empty, and a full
/// turn of `FRAMES_PER_TURN` periods fits the phase counter.
pub open spec fn valid_period(period: nat) -> bool {
    0 < period && 600 * period <= u64::MAX
}

/// The phase reached from `phase` after `dt` nanoseconds, inside a turn of
/// `turn` nanoseconds.
pub open spec fn phase_after(phase: nat, dt: nat, turn: nat) -> nat
    recommends
        turn > 0,
{
    (phase + dt) % turn
}

/// However much time passes, the angle stays inside one turn.
pub proof fn lemma_phase_in_turn(phase: nat, dt: nat, turn: nat)
    requires
        turn > 0,
    ensures
        phase_after(phase, dt, turn) < turn,
{
    lemma_mod_bound((phase + dt) as int, turn as int);
}

/// Turning for `a` and then for `b` is turning for `a + b`: the angle
/// depends on the elapsed time alone, not on how frames cut it up.
pub proof fn lemma_advance_adds(phase: nat, a: nat, b: nat, turn: nat)
    requires
        turn > 0,
    ensures
        phase_after(phase_after(phase, a, turn), b, turn) == phase_after(phase, a + b, turn),
{
    lemma_add_mod_noop_right(b as int, (phase + a) as int, turn as int);
    assert(b + (phase + a) == phase + (a + b));
    assert(b + (phase + a) % turn == (phase + a) % turn + b);
}

/// After any number of whole turns the body stands where it stood.
pub proof fn lemma_whole_turns(phase: nat, turns: nat, turn: nat)
    requires
        phase < turn,
    ensures
        phase_after(phase, turns * turn, turn) == phase,
{
    lemma_mod_multiples_vanish(turns as int, phase as int, turn as int);
    lemma_small_mod(phase, turn);
    assert(turn * turns + phase == phase + turns * turn) by (nonlinear_arith);
}

/// An angle as an exact fraction of a full turn: `num / den` turns.
#[derive(Clone, Copy, Debug, PartialEq, Eq, Structural)]
pub struct Turns {
    pub num: u128,
    pub den: u128,
}

/// The three angles of the body's rotation. The second is always exactly
/// half the first, and the third is zero.
#[derive(Clone, Copy, Debug, PartialEq, Eq, Structural)]
pub struct ModelAngles {
    pub roll: Turns,
    pub pitch: Turns,
    pub yaw: Turns,
}

/// An exact fraction `num / den`.
#[derive(Clone, Copy, Debug, PartialEq, Eq, Structural)]
pub struct Ratio {
    pub num: u64,
    pub den: u64,
}

/// A point or a direction with whole coordinates.
#[derive(Clone, Copy, Debug, PartialEq, Eq, Structural)]
pub struct Triple {
    pub x: i64,
    pub y: i64,
    pub z: i64,
}

/// Where the camera stands, what it looks at, and which way is up.
#[derive(Clone, Copy, Debug, PartialEq, Eq, Structural)]
pub struct ViewParams {
    pub eye: Triple,
    pub target: Triple,
    pub up: Triple,
}

/// What a perspective projection is made from: the aspect ratio, the vertical
/// field of view, and the distances of the near and far planes.
#[derive(Clone, Copy, Debug, PartialEq, Eq, Structural)]
pub struct ProjectionParams {
    pub aspect: Aspect,
    pub fov: Turns,
    pub near: Ratio,
    pub far: Ratio,
}

/// What the view, its inverse and the projection of a frame are made from.
#[derive(Clone, Copy, Debug, PartialEq, Eq, Structural)]
pub struct ViewProjectionBlock {
    pub view: ViewParams,
    pub projection: ProjectionParams,
}

/// The camera, which never moves: ten units up the z axis, looking at the
/// origin, with the y axis up.
pub open spec fn fixed_view() -> ViewParams {
    ViewParams {
        eye: Triple { x: 0, y: 0, z: 10 },
        target: Triple { x: 0, y: 0, z: 0 },
        up: Triple { x: 0, y: 1, z: 0 },
    }
}

/// The projection at a given aspect ratio: a field of view of a twelfth of a
/// turn, the near plane at a hundredth of a unit, the far plane at a hundred
/// units.
pub open spec fn projection_for(aspect: Aspect) -> ProjectionParams {
    ProjectionParams {
        aspect,
        fov: Turns { num: 1, den: 12 },
        near: Ratio { num: 1, den: 100 },
        far: Ratio { num: 100, den: 1 },
    }
}

/// The view-projection block at a given aspect ratio.
pub open spec fn block_for(aspect: Aspect) -> ViewProjectionBlock {
    ViewProjectionBlock { view: fixed_view(), projection: projection_for(aspect) }
}

/// A frame period that cannot drive the rotation.
#[derive(Clone, Copy, Debug, PartialEq, Eq, Structural)]
pub struct InvalidPeriod;

/// Rotation and projection state of the rendered body.
///
/// The rotation angle is `2π · phase / turn`: `phase` counts the nanoseconds
/// since the body last stood at angle zero and `turn` is the time one full
/// turn takes. The projection is determined by the aspect ratio.
#[derive(Clone, Copy, Debug)]
pub struct TransformState {
    phase: u64,
    turn: u64,
    aspect: Aspect,
}

impl TransformState {
    /// The angle lies inside one turn. This holds of every state.
    #[verifier::type_invariant]
    pub open spec fn in_turn(self) -> bool {
        self.phase() < self.turn()
    }

    /// Nanoseconds into the current turn.
    pub closed spec fn phase(self) -> nat {
        self.phase as nat
    }

    /// Nanoseconds that one full turn takes.
    pub closed spec fn turn(self) -> nat {
        self.turn as nat
    }

    /// The aspect ratio of the projection.
    pub closed spec fn aspect(self) -> Aspect {
        self.aspect
    }

    /// A body at angle zero that turns once in `FRAMES_PER_TURN` frame
    /// periods, projected at `aspect`.
    pub fn new(frame_period: Span, aspect: Aspect) -> (r: Result<TransformState, InvalidPeriod>)
        ensures
            r.is_ok() <==> valid_period(frame_period@),
            r matches Ok(t) ==> t.phase() == 0 && t.turn() == 600 * frame_period@ && t.aspect()
                == aspect,
    {
        let period: u128 = frame_period.as_nanos();
        if period == 0 || period > (u64::MAX / FRAMES_PER_TURN) as u128 {
            Err(InvalidPeriod)
        } else {
            let turn: u64 = FRAMES_PER_TURN * (period as u64);
            Ok(TransformState { phase: 0, turn, aspect })
        }
    }

    /// Turns the body by the angle that `dt` of elapsed time stands for and
    /// wraps the angle into one turn, however long `dt` is.
    pub fn advance(&mut self, dt: Span)
        ensures
            final(self).phase() == phase_after(old(self).phase(), dt@, old(self).turn()),
            final(self).phase() < final(self).turn(),
            final(self).turn() == old(self).turn(),
            final(self).aspect() == old(self).aspect(),
    {
        proof {
            use_type_invariant(&*self);
        }
        let turn: u128 = self.turn as u128;
        let reached: u128 = (self.phase as u128 + dt.as_nanos()) % turn;
        *self = TransformState { phase: reached as u64, turn: self.turn, aspect: self.aspect };
    }

    /// Sets the projection to the aspect ratio of a `width` by `height`
    /// surface. Dimensions that are zero or negative are refused and leave the
    /// state as it was.
    pub fn on_resize(&mut self, width: i64, height: i64) -> (r: Result<(), InvalidDimensions>)
        ensures
            r.is_ok() <==> valid_dimensions(width as int, height as int),
            r.is_ok() ==> final(self).aspect()@ == (width as int, height as int)
                && final(self).aspect().is_ratio(width as int, height as int),
            r matches Err(e) ==> e.width == width && e.height == height && final(self).aspect()
                == old(self).aspect(),
            final(self).phase() == old(self).phase(),
            final(self).turn() == old(self).turn(),
    {
        proof {
            use_type_invariant(&*self);
        }
        match ViewportPolicy::aspect_ratio(width, height) {
            Ok(aspect) => {
                *self = TransformState { phase: self.phase, turn: self.turn, aspect };
                Ok(())
            },
            Err(e) => Err(e),
        }
    }

    /// The angles that the model matrix is the rotation by: the angle itself
    /// about the first axis, half of it about the second, none about the
    /// third.
    pub fn model_angles(&self) -> (m: ModelAngles)
        ensures
            m.roll == (Turns { num: self.phase() as u128, den: self.turn() as u128 }),
            m.pitch == (Turns { num: self.phase() as u128, den: (2 * self.turn()) as u128 }),
            m.yaw == (Turns { num: 0, den: 1 }),
            m.roll.num < m.roll.den,
    {
        proof {
            use_type_invariant(self);
        }
        let num: u128 = self.phase as u128;
        let den: u128 = self.turn as u128;
        ModelAngles {
            roll: Turns { num, den },
            pitch: Turns { num, den: 2 * den },
            yaw: Turns { num: 0, den: 1 },
        }
    }

    /// Nanoseconds into the current turn.
    pub fn phase_nanos(&self) -> (p: u64)
        ensures
            p == self.phase(),
            p < self.turn(),
    {
        proof {
            use_type_invariant(self);
        }
        self.phase
    }

    /// Nanoseconds that one full turn takes.
    pub fn turn_nanos(&self) -> (t: u64)
        ensures
            t == self.turn(),
            t > 0,
    {
        proof {
            use_type_invariant(self);
        }
        self.turn
    }

    /// The view-projection block as it stands: the fixed camera and the
    /// projection at the current aspect ratio.
    pub fn snapshot(&self) -> (b: ViewProjectionBlock)
        ensures
            b == block_for(self.aspect()),
    {
        ViewProjectionBlock {
            view: ViewParams {
                eye: Triple { x: 0, y: 0, z: 10 },
                target: Triple { x: 0, y: 0, z: 0 },
                up: Triple { x: 0, y: 1, z: 0 },
            },
            projection: ProjectionParams {
                aspect: self.aspect,
                fov: Turns { num: 1, den: 12 },
                near: Ratio { num: 1, den: 100 },
                far: Ratio { num: 100, den: 1 },
            },
        }
    }
}

} // verus!

use vstd::prelude::*;

verus! {

/// The most balls that may be in play after a despawn; with more, the
/// oldest one goes.
pub const MAX_BALLS: usize = 6;

/// The ball to take out of play, given the times the balls were added in
/// (as ordered keys: a smaller key is an earlier time).
///
/// With more than `MAX_BALLS` balls it is the oldest ball; among balls added
/// at the same time, the one listed first. Otherwise no ball goes.
pub fn manage_balls(times: &Vec<u32>) -> (oldest: Option<usize>)
    ensures
        oldest is None <==> times@.len() <= MAX_BALLS,
        oldest matches Some(i) ==> {
            &&& i < times@.len()
            &&& forall|j: int| 0 <= j < times@.len() ==> times@[i as int] <= #[trigger] times@[j]
            &&& forall|j: int| 0 <= j < i ==> times@[i as int] < #[trigger] times@[j]
        },
{
    if times.len() <= MAX_BALLS {
        return None;
    }
    let mut best: usize = 0;
    let mut i: usize = 1;
    while i < times.len()
        invariant
            1 <= i <= times@.len(),
            best < i,
            forall|j: int| 0 <= j < i ==> times@[best as int] <= #[trigger] times@[j],
            forall|j: int| 0 <= j < best ==> times@[best as int] < #[trigger] times@[j],
        decreases times@.len() - i,
    {
        if times[i] < times[best] {
            best = i;
        }
        i = i + 1;
    }
    Some(best)
}

/// Which of the two bodies of a collision.
#[derive(Clone, Copy, Debug, PartialEq, Eq, Structural)]
pub enum Side {
    First,
    Second,
}

/// What a body in a collision is.
#[derive(Clone, Copy, Debug, PartialEq, Eq, Structural)]
pub struct BodyKind {
    /// A fixed body: the ground or a wall.
    pub fixed: bool,
    /// A ball (it remembers which player hit it last).
    pub ball: bool,
    /// A player (it takes input).
    pub player: bool,
}

/// What a collision causes.
#[derive(Clone, Copy, Debug, PartialEq, Eq, Structural)]
pub enum SensorEffect {
    /// The ball on this side has touched the ground.
    TouchedGround(Side),
    /// A ball hit a player: the hit is logged and the player is marked as
    /// hit.
    BallHitPlayer { ball: Side, player: Side },
}

/// The effects of `entity` meeting `other`: a fixed body marks a ball as
/// having touched the ground, and a ball marks a player as hit.
pub open spec fn effects_of(entity_side: Side, entity: BodyKind, other_side: Side, other: BodyKind) -> Seq<SensorEffect> {
    (if entity.fixed && other.ball {
        seq![SensorEffect::TouchedGround(other_side)]
    } else {
        Seq::empty()
    }) + (if entity.ball && other.player {
        seq![SensorEffect::BallHitPlayer { ball: entity_side, player: other_side }]
    } else {
        Seq::empty()
    })
}

/// The effects of a collision event, looking at it from the first body and
/// then from the second. Only a collision that starts has effects.
pub open spec fn collision_effects_spec(started: bool, first: BodyKind, second: BodyKind) -> Seq<SensorEffect> {
    if !started {
        Seq::empty()
    } else {
        effects_of(Side::First, first, Side::Second, second) + effects_of(
            Side::Second,
            second,
            Side::First,
            first,
        )
    }
}

/// Adds to `effects` what `entity` meeting `other` causes.
fn push_effects_of(
    effects: &mut Vec<SensorEffect>,
    entity_side: Side,
    entity: BodyKind,
    other_side: Side,
    other: BodyKind,
)
    ensures
        final(effects)@ == old(effects)@ + effects_of(entity_side, entity, other_side, other),
{
    let ghost start = effects@;
    if entity.fixed && other.ball {
        effects.push(SensorEffect::TouchedGround(other_side));
    }
    if entity.ball && other.player {
        effects.push(SensorEffect::BallHitPlayer { ball: entity_side, player: other_side });
    }
    assert(effects@ =~= start + effects_of(entity_side, entity, other_side, other));
}

/// Decides what a collision between two bodies causes.
pub fn update_sensors(started: bool, first: BodyKind, second: BodyKind) -> (effects: Vec<SensorEffect>)
    ensures
        effects@ == collision_effects_spec(started, first, second),
{
    let mut effects: Vec<SensorEffect> = Vec::new();
    if started {
        push_effects_of(&mut effects, Side::First, first, Side::Second, second);
        push_effects_of(&mut effects, Side::Second, second, Side::First, first);
    }
    assert(effects@ =~= collision_effects_spec(started, first, second));
    effects
}

/// The effects of a collision do not depend on which body the engine lists
/// first, up to the order of the effects and the naming of the sides.
pub proof fn lemma_collision_symmetric(first: BodyKind, second: BodyKind, e: SensorEffect)
    ensures
        collision_effects_spec(true, first, second).contains(e) <==> collision_effects_spec(
            true,
            second,
            first,
        ).contains(swap_sides(e)),
{
    let a1 = effects_of(Side::First, first, Side::Second, second);
    let a2 = effects_of(Side::Second, second, Side::First, first);
    let b1 = effects_of(Side::First, second, Side::Second, first);
    let b2 = effects_of(Side::Second, first, Side::First, second);
    assert(collision_effects_spec(true, first, second) == a1 + a2);
    assert(collision_effects_spec(true, second, first) == b1 + b2);
    assert((a1 + a2).contains(e) <==> (a1.contains(e) || a2.contains(e))) by {
        vstd::seq_lib::lemma_seq_concat_contains_all_elements(a1, a2, e);
        if (a1 + a2).contains(e) {
            let k = choose|k: int| 0 <= k < (a1 + a2).len() && (a1 + a2)[k] == e;
            if k < a1.len() {
                assert(a1[k] == e);
            } else {
                assert(a2[k - a1.len()] == e);
            }
        }
    }
    assert((b1 + b2).contains(swap_sides(e)) <==> (b1.contains(swap_sides(e)) || b2.contains(swap_sides(e)))) by {
        vstd::seq_lib::lemma_seq_concat_contains_all_elements(b1, b2, swap_sides(e));
        if (b1 + b2).contains(swap_sides(e)) {
            let k = choose|k: int| 0 <= k < (b1 + b2).len() && (b1 + b2)[k] == swap_sides(e);
            if k < b1.len() {
                assert(b1[k] == swap_sides(e));
            } else {
                assert(b2[k - b1.len()] == swap_sides(e));
            }
        }
    }
    assert(a1.contains(e) <==> b2.contains(swap_sides(e))) by {
        if a1.contains(e) {
            let k = choose|k: int| 0 <= k < a1.len() && a1[k] == e;
            assert(b2[k] == swap_sides(e));
        }
        if b2.contains(swap_sides(e)) {
            let k = choose|k: int| 0 <= k < b2.len() && b2[k] == swap_sides(e);
            assert(a1[k] == e);
        }
    }
    assert(a2.contains(e) <==> b1.contains(swap_sides(e))) by {
        if a2.contains(e) {
            let k = choose|k: int| 0 <= k < a2.len() && a2[k] == e;
            assert(b1[k] == swap_sides(e));
        }
        if b1.contains(swap_sides(e)) {
            let k = choose|k: int| 0 <= k < b1.len() && b1[k] == swap_sides(e);
            assert(a2[k] == e);
        }
    }
}

/// The same effect with the two sides exchanged.
pub open spec fn swap_sides(e: SensorEffect) -> SensorEffect {
    match e {
        SensorEffect::TouchedGround(s) => SensorEffect::TouchedGround(other_side(s)),
        SensorEffect::BallHitPlayer { ball, player } => SensorEffect::BallHitPlayer {
            ball: other_side(ball),
            player: other_side(player),
        },
    }
}

/// The other body of a collision.
pub open spec fn other_side(s: Side) -> Side {
    match s {
        Side::First => Side::Second,
        Side::Second => Side::First,
    }
}

/// The collision state a player keeps about balls.
#[derive(Clone, Copy, Debug, PartialEq, Eq, Structural)]
pub struct BallSensor {
    /// A ball hit the player in the last update.
    pub hit_on_last_update: bool,
    /// A ball is inside the sensor.
    pub inside: bool,
}

impl BallSensor {
    /// A sensor with nothing recorded.
    pub fn new() -> (s: BallSensor)
        ensures
            !s.hit_on_last_update,
            !s.inside,
    {
        BallSensor { hit_on_last_update: false, inside: false }
    }

    /// Forgets the hit of the last update, at the end of a frame.
    pub fn reset_updated_flag(&mut self)
        ensures
            !final(self).hit_on_last_update,
            final(self).inside == old(self).inside,
    {
        self.hit_on_last_update = false;
    }
}

} // verus!

use vstd::prelude::*;

use crate::direction::{direction_of, Direction};
use crate::input::InputHolder;

verus! {

/// Which picture of the sprite sheet a player shows.
#[derive(Clone, Copy, Debug, PartialEq, Eq, Structural)]
pub enum SpriteFrame {
    /// The standing picture, the first of the sheet.
    Rest,
    /// The swing animation: `frames` pictures from `first` on, spread over the
    /// length of the swing.
    Swing { first: usize, frames: usize },
}

/// What happens to one player in one frame, apart from the physics.
#[derive(Clone, Copy, Debug, PartialEq, Eq, Structural)]
pub struct PlayerPlan {
    /// The running swing is over and is taken away.
    pub end_swing: bool,
    /// The picture to show, if it changes.
    pub sprite: Option<SpriteFrame>,
    /// The direction the player now faces, if it changes.
    pub face: Option<Direction>,
    /// A new swing starts.
    pub start_swing: bool,
    /// Whether the sprite is mirrored (facing left), if that changes.
    pub flip_x: Option<bool>,
    /// The player asks to jump: look for ground right below, and jump if it
    /// is there.
    pub try_jump: bool,
}

/// The picture shown while a swing in direction `facing` runs: the upward
/// swing from the second picture, the sideways swing from the fourth, each two
/// pictures long; a downward swing, or none, shows the standing picture.
pub open spec fn swing_frame(facing: Option<Direction>) -> SpriteFrame {
    match facing {
        Some(Direction::Up) => SpriteFrame::Swing { first: 1, frames: 2 },
        Some(Direction::Right) => SpriteFrame::Swing { first: 3, frames: 2 },
        Some(Direction::Left) => SpriteFrame::Swing { first: 3, frames: 2 },
        _ => SpriteFrame::Rest,
    }
}

/// The plan for a player.
///
/// `swing` is `None` when no swing runs, and otherwise whether the running
/// swing's timer ran out in this frame; `facing` is the direction the player
/// faces, if any.
pub open spec fn plan_spec(swing: Option<bool>, facing: Option<Direction>, input: InputHolder) -> PlayerPlan {
    match swing {
        Some(finished) => PlayerPlan {
            end_swing: finished,
            sprite: Some(
                if finished {
                    SpriteFrame::Rest
                } else {
                    swing_frame(facing)
                },
            ),
            face: None,
            start_swing: false,
            flip_x: None,
            try_jump: input.jump,
        },
        None => PlayerPlan {
            end_swing: false,
            sprite: None,
            face: match direction_of(input.x as int, input.y as int) {
                Ok(d) => Some(d),
                Err(_) => None,
            },
            start_swing: input.swing,
            flip_x: if input.x != 0 {
                Some(input.x < 0)
            } else {
                None
            },
            try_jump: input.jump,
        },
    }
}

/// Decides what happens to a player in one frame: a running swing animates
/// until its timer runs out; without one the player turns to the pressed
/// direction, may start a swing, and faces left or right with the horizontal
/// input. A jump is tried whenever jump was pressed.
pub fn apply_input(swing: Option<bool>, facing: Option<Direction>, input: InputHolder) -> (plan: PlayerPlan)
    ensures
        plan == plan_spec(swing, facing, input),
        swing is None ==> (input.x != 0 ==> plan.flip_x == Some(input.x < 0)),
        swing is None ==> (input.x == 0 ==> plan.flip_x is None),
        swing is Some ==> plan.flip_x is None,
        swing is None ==> (plan.face is None <==> (input.x == 0 && input.y == 0)),
        swing is None ==> plan.start_swing == input.swing && !plan.end_swing && plan.sprite is None,
        swing is Some ==> plan.face is None && !plan.start_swing,
        swing == Some(true) ==> plan.end_swing && plan.sprite == Some(SpriteFrame::Rest),
        swing == Some(false) ==> !plan.end_swing && plan.sprite is Some,
        plan.try_jump == input.jump,
{
    match swing {
        Some(finished) => {
            let sprite = if finished {
                SpriteFrame::Rest
            } else {
                match facing {
                    Some(Direction::Up) => SpriteFrame::Swing { first: 1, frames: 2 },
                    Some(Direction::Right) | Some(Direction::Left) => SpriteFrame::Swing {
                        first: 3,
                        frames: 2,
                    },
                    _ => SpriteFrame::Rest,
                }
            };
            PlayerPlan {
                end_swing: finished,
                sprite: Some(sprite),
                face: None,
                start_swing: false,
                flip_x: None,
                try_jump: input.jump,
            }
        },
        None => {
            let face = match Direction::try_from_axes(input.x as i32, input.y as i32) {
                Ok(d) => Some(d),
                Err(_) => None,
            };
            let flip_x = if input.x != 0 {
                Some(input.x < 0)
            } else {
                None
            };
            PlayerPlan {
                end_swing: false,
                sprite: None,
                face,
                start_swing: input.swing,
                flip_x,
                try_jump: input.jump,
            }
        },
    }
}

/// While a swing runs, nothing the player presses turns them or starts
/// another swing.
pub proof fn lemma_swing_locks_controls(finished: bool, facing: Option<Direction>, input: InputHolder)
    ensures
        plan_spec(Some(finished), facing, input).face is None,
        !plan_spec(Some(finished), facing, input).start_swing,
        plan_spec(Some(finished), facing, input).flip_x is None,
{
}

/// Without a running swing, turning left mirrors the sprite and turning right
/// (or diagonally right) un-mirrors it; the sprite is mirrored exactly when
/// the horizontal input points left, and left alone when there is none.
pub proof fn lemma_flip_follows_horizontal(facing: Option<Direction>, input: InputHolder)
    ensures
        plan_spec(None, facing, input).face == Some(Direction::Left) ==> plan_spec(None, facing, input).flip_x
            == Some(true),
        plan_spec(None, facing, input).face == Some(Direction::Right) && input.x != 0 ==> plan_spec(
            None,
            facing,
            input,
        ).flip_x == Some(false),
        (plan_spec(None, facing, input).flip_x == Some(true)) <==> input.x < 0,
        (plan_spec(None, facing, input).flip_x == Some(false)) <==> input.x > 0,
        (plan_spec(None, facing, input).flip_x is None) <==> input.x == 0,
{
}

/// A swing that ends puts the player back to the standing picture, and a
/// swing that starts only starts when none runs.
pub proof fn lemma_swing_ends_at_rest(facing: Option<Direction>, input: InputHolder)
    ensures
        plan_spec(Some(true), facing, input).end_swing,
        plan_spec(Some(true), facing, input).sprite == Some(SpriteFrame::Rest),
        plan_spec(None, facing, input).start_swing == input.swing,
{
}

/// How a swing sends a ball it reaches.
#[derive(Clone, Copy, Debug, PartialEq, Eq, Structural)]
pub enum SwingStyle {
    /// Straight across toward the other player (the upward swing); the
    /// swinging player also turns to face the other.
    Launch,
    /// Away from the swinging player's foot (every other swing).
    Bat,
}

/// The swing style of a direction.
pub open spec fn swing_style_spec(d: Direction) -> SwingStyle {
    if d == Direction::Up {
        SwingStyle::Launch
    } else {
        SwingStyle::Bat
    }
}

/// How a swing in direction `d` sends the balls it reaches.
pub fn swing_style(d: Direction) -> (s: SwingStyle)
    ensures
        s == swing_style_spec(d),
{
    match d {
        Direction::Up => SwingStyle::Launch,
        _ => SwingStyle::Bat,
    }
}

/// The balls a swing hits in one frame, and whether the swing is used up
/// afterwards.
pub struct SwingHits {
    pub hit: Vec<bool>,
    pub used_up: bool,
}

/// Whether any of the flags is set.
pub open spec fn any(flags: Seq<bool>) -> bool {
    exists|i: int| 0 <= i < flags.len() && flags[i]
}

/// The balls a swing hits in a frame: each ball within reach, unless the
/// swing is already used up.
pub open spec fn hits_spec(used_up: bool, in_reach: Seq<bool>) -> Seq<bool> {
    Seq::new(in_reach.len(), |i: int| !used_up && in_reach[i])
}

/// Whether the swing is used up after a frame: it was, or a ball was within
/// its reach.
pub open spec fn used_up_after(used_up: bool, in_reach: Seq<bool>) -> bool {
    used_up || any(in_reach)
}

/// Settles one frame of a swing: a swing that is not used up hits every ball
/// within its reach (`in_reach[i]`), and is used up once it has hit one; a
/// used-up swing hits nothing.
pub fn resolve_swing(used_up: bool, in_reach: &Vec<bool>) -> (r: SwingHits)
    ensures
        r.hit@ == hits_spec(used_up, in_reach@),
        r.used_up == used_up_after(used_up, in_reach@),
        used_up ==> r.used_up,
        r.hit@.len() == in_reach@.len(),
        forall|i: int| 0 <= i < in_reach@.len() ==> (#[trigger] r.hit@[i] <==> (!used_up && in_reach@[i])),
        r.used_up ==> used_up || exists|i: int| 0 <= i < in_reach@.len() && in_reach@[i],
        (exists|i: int| 0 <= i < in_reach@.len() && #[trigger] r.hit@[i]) ==> r.used_up,
{
    let mut hit: Vec<bool> = Vec::new();
    let mut now_used = used_up;
    let mut i: usize = 0;
    while i < in_reach.len()
        invariant
            i <= in_reach@.len(),
            hit@.len() == i,
            forall|j: int| 0 <= j < i ==> #[trigger] hit@[j] == (!used_up && in_reach@[j]),
            now_used == (used_up || exists|j: int| 0 <= j < i && in_reach@[j]),
        decreases in_reach@.len() - i,
    {
        let h = !used_up && in_reach[i];
        hit.push(h);
        if h {
            now_used = true;
        }
        if in_reach[i] {
            assert(in_reach@[i as int]);
        }
        i = i + 1;
    }
    assert(hit@ =~= hits_spec(used_up, in_reach@));
    SwingHits { hit, used_up: now_used }
}

/// A swing hits balls in one frame at most: once it has hit a ball it is
/// used up, and in any later frame it hits nothing.
pub proof fn lemma_swing_hits_once(used_up: bool, first: Seq<bool>, later: Seq<bool>)
    requires
        any(hits_spec(used_up, first)),
    ensures
        used_up_after(used_up, first),
        !any(hits_spec(used_up_after(used_up, first), later)),
{
    let i = choose|i: int| 0 <= i < hits_spec(used_up, first).len() && hits_spec(used_up, first)[i];
    assert(first[i]);
}

/// Being used up is permanent: a used-up swing stays used up whatever is in
/// reach, and a swing that hits anything is used up afterwards; a swing
/// only becomes used up by having something within reach.
pub proof fn lemma_used_up_permanent(used_up: bool, in_reach: Seq<bool>)
    ensures
        used_up ==> used_up_after(used_up, in_reach),
        any(hits_spec(used_up, in_reach)) ==> used_up_after(used_up, in_reach),
        used_up_after(used_up, in_reach) ==> used_up || exists|i: int|
            0 <= i < in_reach.len() && in_reach[i],
        used_up ==> !any(hits_spec(used_up, in_reach)),
{
    if any(hits_spec(used_up, in_reach)) {
        let i = choose|i: int| 0 <= i < hits_spec(used_up, in_reach).len() && hits_spec(used_up, in_reach)[i];
        assert(in_reach[i]);
    }
}

/// Whether the second player takes part: only in a two-player game.
pub fn spawns_second_player(players: u8) -> (two: bool)
    ensures
        two == (players == 2),
{
    players == 2
}

} // verus!

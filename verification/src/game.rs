//! The table, and what one frame does to it.

use vstd::prelude::*;
use crate::fixed::{
    advance, clamped, clip, delta_in_range, lemma_travel_at_unit_velocity, magnitude, product,
    quotient, saturate, travel, ONE,
};
use crate::geometry::{clamp, collide, overlaps, Vec2};
use crate::model::{binding_calls, draw_calls, Model, RenderContext};
use crate::opengl::{
    blend_func, clear, clear_color, depth_func, enable, lemma_color_and_depth, BlendFactor,
    Capability, ClearBit, Comparison, GlCall, Real,
};
use crate::particles::{
    added, batch_calls, create_sparks, fresh, lemma_sparks_respect_capacity,
    lemma_sweep_only_removes, swept, with_sparks, Particle, ParticleSystem,
};

verus! {

/// How far a paddle moves in one tick, in millionths.
pub const PADDLE_SPEED: i64 = 1_000;

/// How far the ball moves along each axis in one tick at unit velocity, in
/// millionths.
pub const BALL_SPEED: i64 = 1_200;

/// How far from the middle a paddle may go.
pub const PADDLE_REACH: i64 = 800_000;

/// How far from the middle the ball may go before a point is scored.
pub const GOAL_LINE: i64 = 1_050_000;

/// How far from the middle the top and bottom walls are.
pub const WALL: i64 = 950_000;

/// Where the paddles stand, to either side of the middle.
pub const PADDLE_DISTANCE: i64 = 900_000;

/// The life of a particle of the ball's trail, in ticks.
pub const TRAIL_LIFE: i32 = 1000;

/// The number of particles that the trail, and the sparks, may hold.
pub const MAX_PARTICLES: usize = 100;

/// The code of the up arrow key: the right paddle's up key.
pub const KEY_UP: u32 = 38;

/// The code of the down arrow key: the right paddle's down key.
pub const KEY_DOWN: u32 = 40;

/// The code of the key A: the left paddle's up key.
pub const KEY_A: u32 = 65;

/// The code of the key Z: the left paddle's down key.
pub const KEY_Z: u32 = 90;

/// The ball. Its velocity is a direction: each component is one or minus one
/// (in millionths: `ONE` or `-ONE`) in a game that was started by `start`.
#[derive(Clone, Copy, Debug, PartialEq, Eq, Structural)]
pub struct Ball {
    pub position: Vec2,
    pub velocity: Vec2,
}

/// A paddle, and which of its two keys are held down.
#[derive(Clone, Copy, Debug, PartialEq, Eq, Structural)]
pub struct Paddle {
    pub position: Vec2,
    pub up: bool,
    pub down: bool,
}

/// The three sounds of the game: the ball on a paddle, the ball on a wall,
/// and a point scored.
#[derive(Clone, Copy, Debug, PartialEq, Eq, Structural)]
pub enum Sound {
    Beep,
    Boop,
    Bloop,
}

/// What a frame asks of the world outside the table.
#[derive(Clone, Copy, Debug, PartialEq, Eq, Structural)]
pub enum Effect {
    /// Play the sound.
    Play(Sound),
    /// Show the two scores.
    SetScore { left: u32, right: u32 },
}

/// The whole game.
pub struct Pong {
    pub ctx: RenderContext,
    /// The timestamp of the last frame; zero before the first.
    pub timestamp: i32,
    pub ball_model: Model,
    pub ball_tail_model: Model,
    pub paddle_model: Model,
    pub spark_model: Model,
    pub field_model: Model,
    pub ball: Ball,
    pub left: Paddle,
    pub right: Paddle,
    pub ball_tail: ParticleSystem,
    pub sparks: ParticleSystem,
    pub left_score: u32,
    pub right_score: u32,
}

/// The game as a mathematical value: each pool by its particles and its
/// capacity, everything else as it is.
pub struct Table {
    pub ctx: RenderContext,
    pub timestamp: i32,
    pub ball_model: Model,
    pub ball_tail_model: Model,
    pub paddle_model: Model,
    pub spark_model: Model,
    pub field_model: Model,
    pub ball: Ball,
    pub left: Paddle,
    pub right: Paddle,
    pub ball_tail: Seq<Particle>,
    pub ball_tail_capacity: nat,
    pub sparks: Seq<Particle>,
    pub sparks_capacity: nat,
    pub left_score: u32,
    pub right_score: u32,
}

impl View for Pong {
    type V = Table;

    open spec fn view(&self) -> Table {
        Table {
            ctx: self.ctx,
            timestamp: self.timestamp,
            ball_model: self.ball_model,
            ball_tail_model: self.ball_tail_model,
            paddle_model: self.paddle_model,
            spark_model: self.spark_model,
            field_model: self.field_model,
            ball: self.ball,
            left: self.left,
            right: self.right,
            ball_tail: self.ball_tail@,
            ball_tail_capacity: self.ball_tail.capacity(),
            sparks: self.sparks@,
            sparks_capacity: self.sparks.capacity(),
            left_score: self.left_score,
            right_score: self.right_score,
        }
    }
}

/// The ticks that a frame at `now` covers when the last one was at `last`.
/// Before the first frame `last` is zero, and the frame covers one tick.
pub open spec fn frame_delta(last: i32, now: i32) -> int {
    if last == 0 { 1 } else { now - last }
}

/// Where a paddle is headed: up (1) when only its up key is down, down (-1)
/// when only its down key is, nowhere (0) when both are or neither.
pub open spec fn direction(p: Paddle) -> int {
    if p.up == p.down { 0 } else if p.up { 1 } else { -1 }
}

/// The paddle after `delta` ticks: moved in its direction, and held within
/// its reach.
pub open spec fn paddle_moved(p: Paddle, delta: int) -> Paddle {
    Paddle {
        position: Vec2 {
            x: p.position.x,
            y: clamped(
                p.position.y + direction(p) * PADDLE_SPEED * delta,
                -PADDLE_REACH as int,
                PADDLE_REACH as int,
            ) as i64,
        },
        up: p.up,
        down: p.down,
    }
}

/// Whether the ball, were it at `at`, would overlap one of the paddles.
pub open spec fn hits_paddle(t: Table, at: Vec2) -> bool {
    ||| overlaps(at, t.ball_model.extent, t.left.position, t.paddle_model.extent)
    ||| overlaps(at, t.ball_model.extent, t.right.position, t.paddle_model.extent)
}

/// `a` less the largest multiple of `b` that is no further from zero than
/// `a`: the remainder that goes with `quotient`, with the sign of `a`.
pub open spec fn remainder(a: int, b: int) -> int {
    a - b * quotient(a, b)
}

/// The velocity with which the ball is served after a point at `timestamp`.
pub open spec fn serve(timestamp: i32) -> Vec2 {
    Vec2 {
        x: ((1 - 2 * remainder(timestamp as int, 2)) * ONE) as i64,
        y: ((1 - 2 * remainder(quotient(timestamp as int, 7), 2)) * ONE) as i64,
    }
}

/// A score after one more point. It stops at the largest number it can hold.
pub open spec fn bumped(score: u32) -> u32 {
    if score < u32::MAX { (score + 1) as u32 } else { score }
}

/// The edge of the ball that has met a paddle, along one axis: for a ball at
/// `centre` with half-extent `extent` that now has the velocity `v` along that
/// axis, the edge that lies behind it.
pub open spec fn impact_edge(centre: i64, extent: i64, v: i64) -> i64 {
    if v > 0 {
        clip(centre - extent) as i64
    } else {
        clip(centre + extent) as i64
    }
}

/// The table after the ball's step along x.
///
/// The ball moves along x. If it then overlaps a paddle, its x velocity is
/// reversed, it moves once more with the new velocity, and sparks fly from the
/// edge that met the paddle. Otherwise, if it is beyond a goal line, the side opposite to
/// the one it left on scores, and the ball is served from the middle line.
pub open spec fn x_step(t: Table, delta: int, timestamp: i32) -> Table {
    let x1 = clip(t.ball.position.x + travel(t.ball.velocity.x as int, delta, BALL_SPEED as int)) as i64;
    let y = t.ball.position.y;
    if hits_paddle(t, Vec2 { x: x1, y }) {
        let vx = clip(-t.ball.velocity.x) as i64;
        let x2 = clip(x1 + travel(vx as int, delta, BALL_SPEED as int)) as i64;
        Table {
            ball: Ball { position: Vec2 { x: x2, y }, velocity: Vec2 { x: vx, y: t.ball.velocity.y } },
            sparks: with_sparks(
                t.sparks,
                t.sparks_capacity,
                impact_edge(x2, t.ball_model.extent.x, vx),
                y,
                clip(2 * vx) as i64,
                0,
                8,
            ),
            ..t
        }
    } else if magnitude(x1 as int) > GOAL_LINE {
        Table {
            ball: Ball { position: Vec2 { x: 0, y }, velocity: serve(timestamp) },
            left_score: if x1 > 0 { bumped(t.left_score) } else { t.left_score },
            right_score: if x1 > 0 { t.right_score } else { bumped(t.right_score) },
            ..t
        }
    } else {
        Table { ball: Ball { position: Vec2 { x: x1, y }, velocity: t.ball.velocity }, ..t }
    }
}

/// What the ball's step along x asks for: a beep on a paddle; on a point, a
/// bloop and the new scores.
pub open spec fn x_effects(t: Table, delta: int, timestamp: i32) -> Seq<Effect> {
    let x1 = clip(t.ball.position.x + travel(t.ball.velocity.x as int, delta, BALL_SPEED as int)) as i64;
    if hits_paddle(t, Vec2 { x: x1, y: t.ball.position.y }) {
        seq![Effect::Play(Sound::Beep)]
    } else if magnitude(x1 as int) > GOAL_LINE {
        seq![
            Effect::Play(Sound::Bloop),
            Effect::SetScore {
                left: x_step(t, delta, timestamp).left_score,
                right: x_step(t, delta, timestamp).right_score,
            },
        ]
    } else {
        Seq::empty()
    }
}

/// The table after the ball's step along y.
///
/// The ball moves along y. If it then overlaps a paddle, its y velocity is
/// reversed, it moves once more with the new velocity, and sparks fly from the
/// edge that met the paddle. Otherwise, if it is beyond the top or the bottom wall, its
/// y velocity is pointed back at the table, and sparks fly from the edge that
/// is furthest out.
pub open spec fn y_step(t: Table, delta: int) -> Table {
    let x = t.ball.position.x;
    let y1 = clip(t.ball.position.y + travel(t.ball.velocity.y as int, delta, BALL_SPEED as int)) as i64;
    let extent = t.ball_model.extent.y;
    if hits_paddle(t, Vec2 { x, y: y1 }) {
        let vy = clip(-t.ball.velocity.y) as i64;
        let y2 = clip(y1 + travel(vy as int, delta, BALL_SPEED as int)) as i64;
        Table {
            ball: Ball { position: Vec2 { x, y: y2 }, velocity: Vec2 { x: t.ball.velocity.x, y: vy } },
            sparks: with_sparks(
                t.sparks,
                t.sparks_capacity,
                x,
                impact_edge(y2, extent, vy),
                0,
                clip(2 * vy) as i64,
                8,
            ),
            ..t
        }
    } else if y1 > WALL {
        let vy = (-magnitude(t.ball.velocity.y as int)) as i64;
        Table {
            ball: Ball { position: Vec2 { x, y: y1 }, velocity: Vec2 { x: t.ball.velocity.x, y: vy } },
            sparks: with_sparks(
                t.sparks,
                t.sparks_capacity,
                x,
                clip(y1 + extent) as i64,
                0,
                clip(2 * vy) as i64,
                8,
            ),
            ..t
        }
    } else if y1 < -WALL {
        let vy = clip(magnitude(t.ball.velocity.y as int)) as i64;
        Table {
            ball: Ball { position: Vec2 { x, y: y1 }, velocity: Vec2 { x: t.ball.velocity.x, y: vy } },
            sparks: with_sparks(
                t.sparks,
                t.sparks_capacity,
                x,
                clip(y1 - extent) as i64,
                0,
                clip(2 * vy) as i64,
                8,
            ),
            ..t
        }
    } else {
        Table { ball: Ball { position: Vec2 { x, y: y1 }, velocity: t.ball.velocity }, ..t }
    }
}

/// What the ball's step along y asks for: a beep on a paddle, a boop on a
/// wall.
pub open spec fn y_effects(t: Table, delta: int) -> Seq<Effect> {
    let y1 = clip(t.ball.position.y + travel(t.ball.velocity.y as int, delta, BALL_SPEED as int)) as i64;
    if hits_paddle(t, Vec2 { x: t.ball.position.x, y: y1 }) {
        seq![Effect::Play(Sound::Beep)]
    } else if y1 > WALL || y1 < -WALL {
        seq![Effect::Play(Sound::Boop)]
    } else {
        Seq::empty()
    }
}

/// The table after the particles' step: the ball has left a particle of its
/// trail where it is, and both pools have been swept.
pub open spec fn particles_step(t: Table, delta: int) -> Table {
    Table {
        ball_tail: swept(
            added(
                t.ball_tail,
                t.ball_tail_capacity,
                fresh(t.ball.position, Vec2 { x: 0, y: 0 }, Vec2 { x: 0, y: 0 }, TRAIL_LIFE),
            ),
            delta,
        ),
        sparks: swept(t.sparks, delta),
        ..t
    }
}

/// The table at the start of a frame at `timestamp`, once the time has been
/// taken and the paddles have moved.
pub open spec fn paddles_step(t: Table, timestamp: i32) -> Table {
    let delta = frame_delta(t.timestamp, timestamp);
    Table {
        timestamp,
        left: paddle_moved(t.left, delta),
        right: paddle_moved(t.right, delta),
        ..t
    }
}

/// The table after the frame at `timestamp`: the paddles move, the ball steps
/// along x and then along y, and the particles follow.
pub open spec fn frame(t: Table, timestamp: i32) -> Table {
    let delta = frame_delta(t.timestamp, timestamp);
    particles_step(y_step(x_step(paddles_step(t, timestamp), delta, timestamp), delta), delta)
}

/// What the frame at `timestamp` asks for, in order.
pub open spec fn frame_effects(t: Table, timestamp: i32) -> Seq<Effect> {
    let delta = frame_delta(t.timestamp, timestamp);
    let moved = paddles_step(t, timestamp);
    x_effects(moved, delta, timestamp) + y_effects(x_step(moved, delta, timestamp), delta)
}

/// The calls that draw the table, from the back to the front: the field, the
/// ball's trail, the ball, the two paddles, the sparks.
pub open spec fn scene_calls(t: Table) -> Seq<GlCall> {
    seq![
        GlCall::Clear { bits: 16640 },
        GlCall::UseProgram { program: t.ctx.program.0 },
        GlCall::EnableVertexAttribArray { location: t.ctx.position.0.0 },
        GlCall::EnableVertexAttribArray { location: t.ctx.texcoord.0.0 },
    ] + binding_calls(t.field_model, t.ctx) + draw_calls(t.field_model, t.ctx, Vec2 { x: 0, y: 0 })
        + batch_calls(t.ball_tail, t.ball_tail_model, t.ctx) + binding_calls(t.ball_model, t.ctx)
        + draw_calls(t.ball_model, t.ctx, t.ball.position) + binding_calls(t.paddle_model, t.ctx)
        + draw_calls(t.paddle_model, t.ctx, t.left.position) + draw_calls(
        t.paddle_model,
        t.ctx,
        t.right.position,
    ) + batch_calls(t.sparks, t.spark_model, t.ctx)
}

/// The table after the key `key` has gone down (`state`) or up (`!state`).
/// The arrow keys steer the right paddle, A and Z the left one; no other key
/// does anything.
pub open spec fn keyed(t: Table, key: u32, state: bool) -> Table {
    if key == KEY_UP {
        Table { right: Paddle { up: state, ..t.right }, ..t }
    } else if key == KEY_DOWN {
        Table { right: Paddle { down: state, ..t.right }, ..t }
    } else if key == KEY_A {
        Table { left: Paddle { up: state, ..t.left }, ..t }
    } else if key == KEY_Z {
        Table { left: Paddle { down: state, ..t.left }, ..t }
    } else {
        t
    }
}

/// The table before the first frame: the ball in the middle, headed up and to
/// the right; the paddles level with it on either side, no key down; no
/// particles; no points.
pub open spec fn kickoff(
    ctx: RenderContext,
    ball_model: Model,
    ball_tail_model: Model,
    spark_model: Model,
    paddle_model: Model,
    field_model: Model,
) -> Table {
    Table {
        ctx,
        timestamp: 0,
        ball_model,
        ball_tail_model,
        paddle_model,
        spark_model,
        field_model,
        ball: Ball { position: Vec2 { x: 0, y: 0 }, velocity: Vec2 { x: ONE, y: ONE } },
        left: Paddle { position: Vec2 { x: (-PADDLE_DISTANCE) as i64, y: 0 }, up: false, down: false },
        right: Paddle { position: Vec2 { x: PADDLE_DISTANCE, y: 0 }, up: false, down: false },
        ball_tail: Seq::empty(),
        ball_tail_capacity: MAX_PARTICLES as nat,
        sparks: Seq::empty(),
        sparks_capacity: MAX_PARTICLES as nat,
        left_score: 0,
        right_score: 0,
    }
}

/// Whether each component of the ball's velocity is one or minus one.
pub open spec fn unit_velocity(b: Ball) -> bool {
    magnitude(b.velocity.x as int) == ONE && magnitude(b.velocity.y as int) == ONE
}

/// On and around the table the ball moves exactly: at unit velocity it goes
/// `BALL_SPEED` millionths a tick, with nothing rounded and nothing cut off.
pub proof fn lemma_ball_moves_exactly(position: i64, velocity: i64, delta: int)
    requires
        velocity == ONE || velocity == -ONE,
        -0x4000_0000_0000_0000 <= position <= 0x4000_0000_0000_0000,
        delta_in_range(delta),
    ensures
        velocity == ONE ==> clip(position + travel(velocity as int, delta, BALL_SPEED as int))
            == position + delta * BALL_SPEED,
        velocity == -ONE ==> clip(position + travel(velocity as int, delta, BALL_SPEED as int))
            == position - delta * BALL_SPEED,
{
    lemma_travel_at_unit_velocity(delta, BALL_SPEED as int);
}

/// A ball of unit velocity that starts a frame between the goal lines ends it
/// there: off a paddle it comes back to where it was, and beyond a goal line
/// it is served from the middle.
pub proof fn lemma_ball_stays_between_goal_lines(t: Table, timestamp: i32)
    requires
        unit_velocity(t.ball),
        -GOAL_LINE <= t.ball.position.x <= GOAL_LINE,
    ensures
        -GOAL_LINE <= frame(t, timestamp).ball.position.x <= GOAL_LINE,
{
    let delta = frame_delta(t.timestamp, timestamp);
    let t1 = paddles_step(t, timestamp);
    let x = t.ball.position.x;
    let v = t.ball.velocity.x;
    lemma_ball_moves_exactly(x, v, delta);
    let x1 = clip(x + travel(v as int, delta, BALL_SPEED as int)) as i64;
    lemma_ball_moves_exactly(x1, clip(-v) as i64, delta);
    let t2 = x_step(t1, delta, timestamp);
    assert(-GOAL_LINE <= t2.ball.position.x <= GOAL_LINE);
    let t3 = y_step(t2, delta);
    assert(t3.ball.position.x == t2.ball.position.x);
}

/// After a frame both paddles are within their reach, wherever they were
/// and however long the frame was.
pub proof fn lemma_paddles_stay_in_reach(t: Table, timestamp: i32)
    ensures
        -PADDLE_REACH <= frame(t, timestamp).left.position.y <= PADDLE_REACH,
        -PADDLE_REACH <= frame(t, timestamp).right.position.y <= PADDLE_REACH,
{
}

/// A paddle with both keys down, or none, does not move as long as it is
/// within its reach.
pub proof fn lemma_opposed_keys_cancel(p: Paddle, delta: int)
    requires
        p.up == p.down,
        -PADDLE_REACH <= p.position.y <= PADDLE_REACH,
    ensures
        paddle_moved(p, delta) == p,
{
    assert(0 * PADDLE_SPEED * delta == 0) by (nonlinear_arith);
}

/// At a timestamp that is not negative the ball is served with unit velocity.
pub proof fn lemma_serve_is_unit(timestamp: i32)
    requires
        timestamp >= 0,
    ensures
        magnitude(serve(timestamp).x as int) == ONE,
        magnitude(serve(timestamp).y as int) == ONE,
{
}

/// A frame at a timestamp that is not negative keeps the ball's velocity a
/// unit velocity: each component is one or minus one before the frame, and so
/// it is after it.
pub proof fn lemma_unit_velocity_kept(t: Table, timestamp: i32)
    requires
        unit_velocity(t.ball),
        timestamp >= 0,
    ensures
        unit_velocity(frame(t, timestamp).ball),
{
    lemma_serve_is_unit(timestamp);
    let delta = frame_delta(t.timestamp, timestamp);
    let t1 = paddles_step(t, timestamp);
    let t2 = x_step(t1, delta, timestamp);
    assert(unit_velocity(t2.ball));
    let t3 = y_step(t2, delta);
    assert(unit_velocity(t3.ball));
}

/// Where along x the frame at `timestamp` first moves the ball to.
pub open spec fn reached_x(t: Table, timestamp: i32) -> i64 {
    clip(
        t.ball.position.x + travel(
            t.ball.velocity.x as int,
            frame_delta(t.timestamp, timestamp),
            BALL_SPEED as int,
        ),
    ) as i64
}

/// Whether the frame at `timestamp` finds the ball beyond a goal line, and on
/// no paddle, after its step along x.
pub open spec fn point_scored(t: Table, timestamp: i32) -> bool {
    &&& !hits_paddle(
        paddles_step(t, timestamp),
        Vec2 { x: reached_x(t, timestamp), y: t.ball.position.y },
    )
    &&& magnitude(reached_x(t, timestamp) as int) > GOAL_LINE
}

/// Unless a point is scored, a frame changes the ball's velocity in sign
/// only: the distance of each component from zero stays what it was.
pub proof fn lemma_reflection_keeps_speed(t: Table, timestamp: i32)
    requires
        !point_scored(t, timestamp),
        t.ball.velocity.x > i64::MIN,
        t.ball.velocity.y > i64::MIN,
    ensures
        magnitude(frame(t, timestamp).ball.velocity.x as int) == magnitude(t.ball.velocity.x as int),
        magnitude(frame(t, timestamp).ball.velocity.y as int) == magnitude(t.ball.velocity.y as int),
        frame(t, timestamp).left_score == t.left_score,
        frame(t, timestamp).right_score == t.right_score,
{
    let delta = frame_delta(t.timestamp, timestamp);
    let t1 = paddles_step(t, timestamp);
    let t2 = x_step(t1, delta, timestamp);
    assert(t2.ball.velocity.y == t.ball.velocity.y);
    assert(magnitude(t2.ball.velocity.x as int) == magnitude(t.ball.velocity.x as int));
    let t3 = y_step(t2, delta);
    assert(t3.ball.velocity.x == t2.ball.velocity.x);
}

/// When a point is scored, it goes to the left side if the ball has left on
/// the right, and to the right side if it has left on the left. The ball is
/// served from the middle line, and the frame asks first for the bloop and
/// then for the new scores to be shown.
pub proof fn lemma_point_goes_to_the_other_side(t: Table, timestamp: i32)
    requires
        point_scored(t, timestamp),
    ensures
        reached_x(t, timestamp) > 0 ==> frame(t, timestamp).left_score == bumped(t.left_score)
            && frame(t, timestamp).right_score == t.right_score,
        reached_x(t, timestamp) < 0 ==> frame(t, timestamp).right_score == bumped(t.right_score)
            && frame(t, timestamp).left_score == t.left_score,
        frame(t, timestamp).ball.position.x == 0,
        frame(t, timestamp).ball.velocity.x == serve(timestamp).x,
        magnitude(frame(t, timestamp).ball.velocity.y as int) == magnitude(serve(timestamp).y as int),
        frame_effects(t, timestamp).len() >= 2,
        frame_effects(t, timestamp)[0] == Effect::Play(Sound::Bloop),
        frame_effects(t, timestamp)[1] == (Effect::SetScore {
            left: frame(t, timestamp).left_score,
            right: frame(t, timestamp).right_score,
        }),
{
    let delta = frame_delta(t.timestamp, timestamp);
    let t1 = paddles_step(t, timestamp);
    let t2 = x_step(t1, delta, timestamp);
    let t3 = y_step(t2, delta);
    assert(t2.ball.velocity == serve(timestamp));
    assert(t3.ball.velocity.x == t2.ball.velocity.x);
}

/// A frame takes no point away, and gives at most one point, to one side.
pub proof fn lemma_scores_never_fall(t: Table, timestamp: i32)
    ensures
        t.left_score <= frame(t, timestamp).left_score <= t.left_score + 1,
        t.right_score <= frame(t, timestamp).right_score <= t.right_score + 1,
        frame(t, timestamp).left_score == t.left_score || frame(t, timestamp).right_score
            == t.right_score,
{
}

/// A frame fills no pool beyond its capacity, and leaves none with a particle
/// whose life has run out.
pub proof fn lemma_pools_stay_within_capacity(t: Table, timestamp: i32)
    ensures
        frame(t, timestamp).ball_tail_capacity == t.ball_tail_capacity,
        frame(t, timestamp).sparks_capacity == t.sparks_capacity,
        t.ball_tail.len() <= t.ball_tail_capacity ==> frame(t, timestamp).ball_tail.len()
            <= t.ball_tail_capacity,
        t.sparks.len() <= t.sparks_capacity ==> frame(t, timestamp).sparks.len()
            <= t.sparks_capacity,
        forall|i: int|
            0 <= i < frame(t, timestamp).ball_tail.len() ==> (#[trigger] frame(
                t,
                timestamp,
            ).ball_tail[i]).life > 0,
        forall|i: int|
            0 <= i < frame(t, timestamp).sparks.len() ==> (#[trigger] frame(t, timestamp).sparks[i]).life
                > 0,
{
    let delta = frame_delta(t.timestamp, timestamp);
    let t1 = paddles_step(t, timestamp);
    let t2 = x_step(t1, delta, timestamp);
    let t3 = y_step(t2, delta);
    assert(t.sparks.len() <= t.sparks_capacity ==> t2.sparks.len() <= t.sparks_capacity) by {
        assert forall|x: i64, y: i64, dx: i64, dy: i64|
            t1.sparks.len() <= t1.sparks_capacity implies (#[trigger] with_sparks(
                t1.sparks,
                t1.sparks_capacity,
                x,
                y,
                dx,
                dy,
                8,
            )).len() <= t1.sparks_capacity by {
            lemma_sparks_respect_capacity(t1.sparks, t1.sparks_capacity, x, y, dx, dy, 8);
        }
    }
    assert(t.sparks.len() <= t.sparks_capacity ==> t3.sparks.len() <= t.sparks_capacity) by {
        assert forall|x: i64, y: i64, dx: i64, dy: i64|
            t2.sparks.len() <= t2.sparks_capacity implies (#[trigger] with_sparks(
                t2.sparks,
                t2.sparks_capacity,
                x,
                y,
                dx,
                dy,
                8,
            )).len() <= t2.sparks_capacity by {
            lemma_sparks_respect_capacity(t2.sparks, t2.sparks_capacity, x, y, dx, dy, 8);
        }
    }
    let trail = added(
        t3.ball_tail,
        t3.ball_tail_capacity,
        fresh(t3.ball.position, Vec2 { x: 0, y: 0 }, Vec2 { x: 0, y: 0 }, TRAIL_LIFE),
    );
    lemma_sweep_only_removes(trail, delta);
    lemma_sweep_only_removes(t3.sparks, delta);
}

impl Paddle {
    /// A paddle at rest at `position`.
    pub fn new(position: Vec2) -> (r: Paddle)
        ensures
            r == (Paddle { position, up: false, down: false }),
    {
        Paddle { position, up: false, down: false }
    }

    /// Moves the paddle for `delta` ticks by the keys that are down.
    pub fn update(&mut self, delta: i64)
        ensures
            *final(self) == paddle_moved(*old(self), delta as int),
            -PADDLE_REACH <= final(self).position.y <= PADDLE_REACH,
    {
        let heading: i64 = if self.up == self.down {
            0
        } else if self.up {
            PADDLE_SPEED
        } else {
            -PADDLE_SPEED
        };
        assert(heading == direction(*self) * PADDLE_SPEED);
        let step: i128 = product(heading, delta);
        let target: i64 = saturate(self.position.y as i128 + step);
        self.position.y = clamp(target, -PADDLE_REACH, PADDLE_REACH);
    }
}

/// The velocity with which the ball is served after a point at `timestamp`.
pub fn serve_velocity(timestamp: i32) -> (r: Vec2)
    ensures
        r == serve(timestamp),
{
    let x: i64 = (1 - 2 * (timestamp % 2)) as i64;
    let y: i64 = (1 - 2 * ((timestamp / 7) % 2)) as i64;
    Vec2 { x: x * ONE, y: y * ONE }
}

/// The opposite of `v`; of the least number, the greatest.
fn reversed(v: i64) -> (r: i64)
    ensures
        r == clip(-v),
{
    saturate(-(v as i128))
}

/// `score` and one more point.
fn bump(score: u32) -> (r: u32)
    ensures
        r == bumped(score),
{
    if score < u32::MAX { score + 1 } else { score }
}

impl Pong {
    /// Neither pool holds more particles than it may.
    pub open spec fn wf(&self) -> bool {
        self.ball_tail.wf() && self.sparks.wf()
    }

    /// Whether the ball overlaps one of the paddles.
    pub fn ball_hits_paddle(&self) -> (r: bool)
        ensures
            r == hits_paddle(self@, self.ball.position),
    {
        collide(
            &self.ball.position,
            &self.ball_model.extent,
            &self.left.position,
            &self.paddle_model.extent,
        ) || collide(
            &self.ball.position,
            &self.ball_model.extent,
            &self.right.position,
            &self.paddle_model.extent,
        )
    }

    /// Steps the ball along x for `delta` ticks of the frame at `timestamp`,
    /// and appends what the step asks for to `effects`.
    pub fn step_x(&mut self, delta: i64, timestamp: i32, effects: &mut Vec<Effect>)
        requires
            delta_in_range(delta as int),
        ensures
            final(self)@ == x_step(old(self)@, delta as int, timestamp),
            final(effects)@ == old(effects)@ + x_effects(old(self)@, delta as int, timestamp),
    {
        let x1: i64 = advance(self.ball.position.x, self.ball.velocity.x, delta, BALL_SPEED);
        self.ball.position.x = x1;
        if self.ball_hits_paddle() {
            let vx: i64 = reversed(self.ball.velocity.x);
            self.ball.velocity.x = vx;
            let x2: i64 = advance(x1, vx, delta, BALL_SPEED);
            self.ball.position.x = x2;
            effects.push(Effect::Play(Sound::Beep));
            let extent: i64 = self.ball_model.extent.x;
            let edge: i64 = if vx > 0 {
                saturate(x2 as i128 - extent as i128)
            } else {
                saturate(x2 as i128 + extent as i128)
            };
            create_sparks(&mut self.sparks, edge, self.ball.position.y, saturate(2 * (vx as i128)), 0);
        } else if x1 > GOAL_LINE || x1 < -GOAL_LINE {
            if x1 > 0 {
                self.left_score = bump(self.left_score);
            } else {
                self.right_score = bump(self.right_score);
            }
            self.ball.position.x = 0;
            self.ball.velocity = serve_velocity(timestamp);
            effects.push(Effect::Play(Sound::Bloop));
            effects.push(Effect::SetScore { left: self.left_score, right: self.right_score });
        }
    }

    /// Steps the ball along y for `delta` ticks, and appends what the step asks
    /// for to `effects`.
    pub fn step_y(&mut self, delta: i64, effects: &mut Vec<Effect>)
        requires
            delta_in_range(delta as int),
        ensures
            final(self)@ == y_step(old(self)@, delta as int),
            final(effects)@ == old(effects)@ + y_effects(old(self)@, delta as int),
    {
        let y1: i64 = advance(self.ball.position.y, self.ball.velocity.y, delta, BALL_SPEED);
        self.ball.position.y = y1;
        let extent: i64 = self.ball_model.extent.y;
        if self.ball_hits_paddle() {
            let vy: i64 = reversed(self.ball.velocity.y);
            self.ball.velocity.y = vy;
            let y2: i64 = advance(y1, vy, delta, BALL_SPEED);
            self.ball.position.y = y2;
            effects.push(Effect::Play(Sound::Beep));
            let edge: i64 = if vy > 0 {
                saturate(y2 as i128 - extent as i128)
            } else {
                saturate(y2 as i128 + extent as i128)
            };
            create_sparks(&mut self.sparks, self.ball.position.x, edge, 0, saturate(2 * (vy as i128)));
        } else if y1 > WALL {
            let vy: i64 = if self.ball.velocity.y < 0 {
                self.ball.velocity.y
            } else {
                -self.ball.velocity.y
            };
            self.ball.velocity.y = vy;
            effects.push(Effect::Play(Sound::Boop));
            create_sparks(
                &mut self.sparks,
                self.ball.position.x,
                saturate(y1 as i128 + extent as i128),
                0,
                saturate(2 * (vy as i128)),
            );
        } else if y1 < -WALL {
            let vy: i64 = if self.ball.velocity.y < 0 {
                reversed(self.ball.velocity.y)
            } else {
                self.ball.velocity.y
            };
            self.ball.velocity.y = vy;
            effects.push(Effect::Play(Sound::Boop));
            create_sparks(
                &mut self.sparks,
                self.ball.position.x,
                saturate(y1 as i128 - extent as i128),
                0,
                saturate(2 * (vy as i128)),
            );
        }
    }

    /// Leaves a particle of the trail where the ball is, and sweeps both pools
    /// for `delta` ticks.
    pub fn step_particles(&mut self, delta: i64)
        ensures
            final(self)@ == particles_step(old(self)@, delta as int),
    {
        self.ball_tail.add(self.ball.position, Vec2::zero(), Vec2::zero(), TRAIL_LIFE);
        self.ball_tail.update(delta);
        self.sparks.update(delta);
    }

    /// Advances the game to `timestamp` and returns what the frame asks for.
    pub fn update(&mut self, timestamp: i32) -> (effects: Vec<Effect>)
        ensures
            final(self)@ == frame(old(self)@, timestamp),
            effects@ == frame_effects(old(self)@, timestamp),
    {
        let delta: i64 = if self.timestamp == 0 {
            1
        } else {
            timestamp as i64 - self.timestamp as i64
        };
        self.timestamp = timestamp;
        self.left.update(delta);
        self.right.update(delta);
        let mut effects: Vec<Effect> = Vec::new();
        self.step_x(delta, timestamp, &mut effects);
        self.step_y(delta, &mut effects);
        self.step_particles(delta);
        effects
    }

    /// Appends the calls that draw the table to `calls`.
    pub fn render(&self, calls: &mut Vec<GlCall>)
        ensures
            final(calls)@ == old(calls)@ + scene_calls(self@),
    {
        proof {
            lemma_color_and_depth();
        }
        clear(calls, ClearBit::color_buffer() | ClearBit::depth_buffer());
        self.ctx.program.enable(calls);
        let _ = self.ctx.position.enable(calls);
        let _ = self.ctx.texcoord.enable(calls);

        self.field_model.pre_render(&self.ctx, calls);
        self.field_model.render(&Vec2 { x: 0, y: 0 }, &self.ctx, calls);

        self.ball_tail.render(&self.ball_tail_model, &self.ctx, calls);
        self.ball_model.pre_render(&self.ctx, calls);
        self.ball_model.render(&self.ball.position, &self.ctx, calls);

        self.paddle_model.pre_render(&self.ctx, calls);
        self.paddle_model.render(&self.left.position, &self.ctx, calls);
        self.paddle_model.render(&self.right.position, &self.ctx, calls);

        self.sparks.render(&self.spark_model, &self.ctx, calls);
    }
}

/// The calls that set the device up for the game: a dark grey background,
/// depth test and blending on, nearer or equal fragments in front, colours
/// weighted by the alpha of what is drawn, and a first clear.
pub open spec fn setup_calls() -> Seq<GlCall> {
    seq![
        GlCall::ClearColor {
            r: Real { numerator: 100_000, denominator: 1_000_000 },
            g: Real { numerator: 100_000, denominator: 1_000_000 },
            b: Real { numerator: 100_000, denominator: 1_000_000 },
            a: Real { numerator: 1_000_000, denominator: 1_000_000 },
        },
        GlCall::Enable { capability: Capability::DepthTest.value() },
        GlCall::Enable { capability: Capability::Blend.value() },
        GlCall::DepthFunc { comparison: Comparison::LessOrEqual.value() },
        GlCall::BlendFunc {
            source: BlendFactor::SourceAlpha.value(),
            destination: BlendFactor::OneMinusSourceAlpha.value(),
        },
        GlCall::Clear { bits: 16640 },
    ]
}

/// Appends the calls that set the device up for the game to `calls`.
pub fn prepare(calls: &mut Vec<GlCall>)
    ensures
        final(calls)@ == old(calls)@ + setup_calls(),
{
    proof {
        lemma_color_and_depth();
    }
    clear_color(
        calls,
        Real::from_fixed(100_000),
        Real::from_fixed(100_000),
        Real::from_fixed(100_000),
        Real::from_fixed(ONE),
    );
    enable(calls, Capability::DepthTest);
    enable(calls, Capability::Blend);
    depth_func(calls, Comparison::LessOrEqual);
    blend_func(calls, BlendFactor::SourceAlpha, BlendFactor::OneMinusSourceAlpha);
    clear(calls, ClearBit::color_buffer() | ClearBit::depth_buffer());
}

/// Sets the table for a new game with the given models.
pub fn start(
    ctx: RenderContext,
    ball_model: Model,
    ball_tail_model: Model,
    spark_model: Model,
    paddle_model: Model,
    field_model: Model,
) -> (pong: Pong)
    ensures
        pong@ == kickoff(ctx, ball_model, ball_tail_model, spark_model, paddle_model, field_model),
        unit_velocity(pong.ball),
        pong.wf(),
{
    Pong {
        ctx,
        timestamp: 0,
        ball_model,
        ball_tail_model,
        paddle_model,
        spark_model,
        field_model,
        ball: Ball { position: Vec2::zero(), velocity: Vec2::new(ONE, ONE) },
        left: Paddle::new(Vec2::new(-PADDLE_DISTANCE, 0)),
        right: Paddle::new(Vec2::new(PADDLE_DISTANCE, 0)),
        ball_tail: ParticleSystem::new(MAX_PARTICLES),
        sparks: ParticleSystem::new(MAX_PARTICLES),
        left_score: 0,
        right_score: 0,
    }
}

/// Runs the frame at `timestamp`: advances the game, then draws it. Returns
/// what the frame asks for and the calls that draw the table as it now is.
pub fn on_animation_frame(pong: &mut Pong, timestamp: i32) -> (out: (Vec<Effect>, Vec<GlCall>))
    ensures
        final(pong)@ == frame(old(pong)@, timestamp),
        out.0@ == frame_effects(old(pong)@, timestamp),
        out.1@ == scene_calls(frame(old(pong)@, timestamp)),
        -PADDLE_REACH <= final(pong).left.position.y <= PADDLE_REACH,
        -PADDLE_REACH <= final(pong).right.position.y <= PADDLE_REACH,
        unit_velocity(old(pong).ball) && timestamp >= 0 ==> unit_velocity(final(pong).ball),
        old(pong).left_score <= final(pong).left_score,
        old(pong).right_score <= final(pong).right_score,
        old(pong).wf() ==> final(pong).wf(),
{
    proof {
        lemma_paddles_stay_in_reach(pong@, timestamp);
        lemma_scores_never_fall(pong@, timestamp);
        if unit_velocity(pong.ball) && timestamp >= 0 {
            lemma_unit_velocity_kept(pong@, timestamp);
        }
        lemma_pools_stay_within_capacity(pong@, timestamp);
    }
    let effects: Vec<Effect> = pong.update(timestamp);
    let mut calls: Vec<GlCall> = Vec::new();
    pong.render(&mut calls);
    (effects, calls)
}

/// Takes note that the key `key` has gone down (`state`) or up.
pub fn on_key(pong: &mut Pong, key: u32, state: bool)
    ensures
        final(pong)@ == keyed(old(pong)@, key, state),
{
    if key == KEY_UP {
        pong.right.up = state;
    } else if key == KEY_DOWN {
        pong.right.down = state;
    } else if key == KEY_A {
        pong.left.up = state;
    } else if key == KEY_Z {
        pong.left.down = state;
    }
}

} // verus!

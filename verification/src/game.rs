//! Fixed-timestep simulation step.
//!
//! Each peer owns all game state and advances it once per tick: ball
//! movement, locally-sourced paddle input (boundary checked, and echoed
//! to the peer as a command), ball/paddle and ball/wall bounces, and
//! scoring.  Remotely-sourced commands drained from the queue move the
//! remote paddle by one speed increment each, with no boundary clamp —
//! an accepted asymmetry of the design: each peer trusts the other
//! side's own clamping.
//!
//! Geometry is held in whole pixels on a y-grows-downward screen, so
//! every per-tick change is exact integer arithmetic.

use vstd::prelude::*;

use crate::protocol::DecodeOutcome;
use crate::protocol::PaddleCommand;
use crate::protocol::spec_decode;
use crate::protocol::spec_encode;
use crate::protocol::lemma_round_trip;

verus! {

/// How far a paddle moves per applied command or held key, in pixels
/// per tick.
pub const PADDLE_SPEED: i64 = 5;

/// Side length of the square ball, in pixels.
pub const BALL_SIZE: i64 = 10;

/// Paddle width in pixels.
pub const PADDLE_WIDTH: i64 = 100;

/// Paddle height in pixels.
pub const PADDLE_HEIGHT: i64 = 5;

/// Vertical inset of each paddle from its screen edge, in pixels.
pub const PADDLE_MARGIN: i64 = 20;

/// Horizontal ball velocity right after a reset, in pixels per tick.
pub const BALL_INIT_VX: i64 = 1;

/// Vertical ball velocity right after a reset, in pixels per tick.
pub const BALL_INIT_VY: i64 = 2;

/// Smallest screen dimension the model admits: room for one paddle
/// width with the boundary checks still meaningful.
pub const MIN_SCREEN: i64 = 200;

/// Largest screen dimension the model admits.
pub const MAX_SCREEN: i64 = 1_000_000;

/// Largest ball velocity magnitude the model admits.
pub const MAX_BALL_SPEED: i64 = 1_000;

/// Largest magnitude the unclamped remote paddle position may reach.
pub const MAX_PADDLE_COORD: i64 = 1_000_000_000_000;

/// Largest number of queued commands one drain may apply.
pub const MAX_DRAIN: usize = 100_000_000;

/// The local input device state read once per tick: whether the
/// move-negative and move-positive keys are held.
#[derive(Clone, Copy, PartialEq, Eq, Structural, Debug)]
pub struct LocalInput {
    pub left_held: bool,
    pub right_held: bool,
}

/// Mathematical model of the whole per-peer game state.
pub ghost struct GameModel {
    pub screen_w: int,
    pub screen_h: int,
    pub ball_x: int,
    pub ball_y: int,
    pub ball_vx: int,
    pub ball_vy: int,
    /// Remote-controlled paddle (near the top edge), moved only by
    /// drained commands, never clamped.
    pub top_paddle_x: int,
    /// Locally-controlled paddle (near the bottom edge), moved only by
    /// local input, boundary checked before each move.
    pub bottom_paddle_x: int,
    pub top_score: int,
    pub bottom_score: int,
}

/// Well-formed state: screen dimensions and velocities in range, the
/// ball never more than one velocity step past an edge and always
/// heading back inward once past one, the local paddle within one speed
/// step of its clamped range, scores non-negative.  The remote paddle
/// is only coarsely bounded, since remote movement is unclamped.
pub open spec fn wf(m: GameModel) -> bool {
    &&& MIN_SCREEN <= m.screen_w <= MAX_SCREEN
    &&& MIN_SCREEN <= m.screen_h <= MAX_SCREEN
    &&& -MAX_BALL_SPEED <= m.ball_vx <= MAX_BALL_SPEED
    &&& -MAX_BALL_SPEED <= m.ball_vy <= MAX_BALL_SPEED
    &&& -MAX_BALL_SPEED <= m.ball_x <= m.screen_w + MAX_BALL_SPEED
    &&& -MAX_BALL_SPEED <= m.ball_y <= m.screen_h + MAX_BALL_SPEED
    &&& (m.ball_x + BALL_SIZE > m.screen_w ==> m.ball_vx <= 0)
    &&& (m.ball_x < 0 ==> m.ball_vx >= 0)
    &&& (m.ball_y + BALL_SIZE > m.screen_h ==> m.ball_vy <= 0)
    &&& (m.ball_y < 0 ==> m.ball_vy >= 0)
    &&& -PADDLE_SPEED < m.bottom_paddle_x
    &&& m.bottom_paddle_x + PADDLE_WIDTH < m.screen_w + PADDLE_SPEED
    &&& -MAX_PADDLE_COORD <= m.top_paddle_x <= MAX_PADDLE_COORD
    &&& 0 <= m.top_score
    &&& 0 <= m.bottom_score
}

/// Ball advanced by its velocity; nothing else changes.
pub open spec fn spec_move_ball(m: GameModel) -> GameModel {
    GameModel { ball_x: m.ball_x + m.ball_vx, ball_y: m.ball_y + m.ball_vy, ..m }
}

/// The command this tick transmits: the branch of the local input that
/// fired, or no-movement.  The three branches are mutually exclusive.
pub open spec fn spec_local_command(m: GameModel, input: LocalInput) -> PaddleCommand {
    if input.left_held && m.bottom_paddle_x > 0 {
        PaddleCommand::Left
    } else if input.right_held && m.bottom_paddle_x + PADDLE_WIDTH < m.screen_w {
        PaddleCommand::Right
    } else {
        PaddleCommand::Stop
    }
}

/// Local paddle moved by one speed step in the direction the local
/// input chose, boundary checked before the move.
pub open spec fn spec_local_paddle(m: GameModel, input: LocalInput) -> GameModel {
    match spec_local_command(m, input) {
        PaddleCommand::Left => GameModel {
            bottom_paddle_x: m.bottom_paddle_x - PADDLE_SPEED,
            ..m
        },
        PaddleCommand::Right => GameModel {
            bottom_paddle_x: m.bottom_paddle_x + PADDLE_SPEED,
            ..m
        },
        PaddleCommand::Stop => m,
    }
}

/// Closed-rectangle overlap between the ball and a paddle at the given
/// position.
pub open spec fn spec_ball_touches(m: GameModel, px: int, py: int) -> bool {
    &&& m.ball_x <= px + PADDLE_WIDTH
    &&& m.ball_x + BALL_SIZE >= px
    &&& m.ball_y <= py + PADDLE_HEIGHT
    &&& m.ball_y + BALL_SIZE >= py
}

/// The single paddle-bounce condition of a tick: the ball overlaps a
/// paddle while moving toward that paddle's side.
pub open spec fn spec_paddle_bounce_condition(m: GameModel) -> bool {
    ||| (spec_ball_touches(m, m.top_paddle_x, PADDLE_MARGIN as int) && m.ball_vy < 0)
    ||| (spec_ball_touches(m, m.bottom_paddle_x, m.screen_h - PADDLE_MARGIN)
        && m.ball_vy > 0)
}

/// Vertical velocity flipped exactly once if the paddle-bounce
/// condition holds.
pub open spec fn spec_paddle_bounce(m: GameModel) -> GameModel {
    if spec_paddle_bounce_condition(m) {
        GameModel { ball_vy: -m.ball_vy, ..m }
    } else {
        m
    }
}

/// The single wall-bounce condition of a tick: the ball's leading
/// horizontal edge has crossed a side boundary while moving outward.
pub open spec fn spec_wall_bounce_condition(m: GameModel) -> bool {
    ||| (m.ball_x + BALL_SIZE >= m.screen_w && m.ball_vx > 0)
    ||| (m.ball_x <= 0 && m.ball_vx < 0)
}

/// Horizontal velocity flipped exactly once if the wall-bounce
/// condition holds.
pub open spec fn spec_wall_bounce(m: GameModel) -> GameModel {
    if spec_wall_bounce_condition(m) {
        GameModel { ball_vx: -m.ball_vx, ..m }
    } else {
        m
    }
}

/// Ball back at the exact screen center with the fixed initial
/// velocity; prior position and velocity are discarded.
pub open spec fn spec_center_ball(m: GameModel) -> GameModel {
    GameModel {
        ball_x: m.screen_w / 2,
        ball_y: m.screen_h / 2,
        ball_vx: BALL_INIT_VX as int,
        ball_vy: BALL_INIT_VY as int,
        ..m
    }
}

/// Scoring: crossing the far (bottom) boundary outward scores for the
/// top player, then crossing the near (top) boundary outward scores for
/// the bottom player; each scoring resets the ball to center.
pub open spec fn spec_score(m: GameModel) -> GameModel {
    let after_bottom = if m.ball_y + BALL_SIZE >= m.screen_h && m.ball_vy > 0 {
        spec_center_ball(GameModel { top_score: m.top_score + 1, ..m })
    } else {
        m
    };
    if after_bottom.ball_y <= 0 && after_bottom.ball_vy < 0 {
        spec_center_ball(GameModel { bottom_score: after_bottom.bottom_score + 1, ..after_bottom })
    } else {
        after_bottom
    }
}

/// One full simulation tick, phases in their fixed order: ball
/// movement, local paddle input, paddle bounce, wall bounce, scoring.
pub open spec fn spec_tick(m: GameModel, input: LocalInput) -> GameModel {
    let moved = spec_move_ball(m);
    let stepped = spec_local_paddle(moved, input);
    let bounced = spec_paddle_bounce(stepped);
    let walled = spec_wall_bounce(bounced);
    spec_score(walled)
}

/// How far one command moves the remote paddle.
pub open spec fn shift_of(c: PaddleCommand) -> int {
    match c {
        PaddleCommand::Left => -PADDLE_SPEED as int,
        PaddleCommand::Right => PADDLE_SPEED as int,
        PaddleCommand::Stop => 0,
    }
}

/// Net remote-paddle displacement of a drained command sequence.
pub open spec fn net_shift(cmds: Seq<PaddleCommand>) -> int
    decreases cmds.len(),
{
    if cmds.len() == 0 {
        0
    } else {
        net_shift(cmds.drop_last()) + shift_of(cmds.last())
    }
}

/// How many entries of a command sequence equal `c`.
pub open spec fn count_cmd(cmds: Seq<PaddleCommand>, c: PaddleCommand) -> int
    decreases cmds.len(),
{
    if cmds.len() == 0 {
        0
    } else {
        count_cmd(cmds.drop_last(), c) + if cmds.last() == c {
            1int
        } else {
            0int
        }
    }
}

/// The net displacement never exceeds one speed step per command.
pub proof fn lemma_net_shift_bound(cmds: Seq<PaddleCommand>)
    ensures
        -PADDLE_SPEED * cmds.len() <= net_shift(cmds) <= PADDLE_SPEED * cmds.len(),
    decreases cmds.len(),
{
    if cmds.len() > 0 {
        lemma_net_shift_bound(cmds.drop_last());
    }
}

/// Draining a queue of commands moves the remote paddle by exactly
/// (count of move-positive) − (count of move-negative) speed steps;
/// no-movement commands contribute nothing.
pub proof fn lemma_drain_net_movement(cmds: Seq<PaddleCommand>)
    ensures
        net_shift(cmds) == count_cmd(cmds, PaddleCommand::Right) * PADDLE_SPEED
            - count_cmd(cmds, PaddleCommand::Left) * PADDLE_SPEED,
    decreases cmds.len(),
{
    if cmds.len() > 0 {
        lemma_drain_net_movement(cmds.drop_last());
    }
}

/// Within one tick, each velocity axis is flipped at most once, no
/// matter how many bounce conditions hold at the same time: after the
/// two bounce phases, each component is either unchanged or negated
/// exactly once, and each phase leaves the other axis untouched.
pub proof fn lemma_flip_once_per_axis(m: GameModel, input: LocalInput)
    ensures
        ({
            let before = spec_local_paddle(spec_move_ball(m), input);
            let after = spec_wall_bounce(spec_paddle_bounce(before));
            &&& (after.ball_vy == m.ball_vy || after.ball_vy == -m.ball_vy)
            &&& (after.ball_vx == m.ball_vx || after.ball_vx == -m.ball_vx)
            &&& spec_paddle_bounce(before).ball_vx == before.ball_vx
            &&& spec_wall_bounce(spec_paddle_bounce(before)).ball_vy
                == spec_paddle_bounce(before).ball_vy
        }),
{
}

/// Every outward crossing of a scoring boundary resets the ball to the
/// exact screen center with the fixed initial velocity, discarding the
/// prior velocity, and raises exactly the opposing score by one; a tick
/// without such a crossing leaves scores and ball alone.
pub proof fn lemma_scoring_resets(m: GameModel)
    ensures
        m.ball_y + BALL_SIZE >= m.screen_h && m.ball_vy > 0 ==> spec_score(m)
            == (GameModel { top_score: m.top_score + 1, ..spec_center_ball(m) }),
        m.ball_y <= 0 && m.ball_vy < 0 ==> spec_score(m)
            == (GameModel { bottom_score: m.bottom_score + 1, ..spec_center_ball(m) }),
        !(m.ball_y + BALL_SIZE >= m.screen_h && m.ball_vy > 0)
            && !(m.ball_y <= 0 && m.ball_vy < 0) ==> spec_score(m) == m,
{
}

/// Encoding a move-negative intent, decoding the resulting bytes and
/// applying the decoded command moves the remote paddle by exactly one
/// speed step in the negative direction.
pub proof fn lemma_move_negative_round_trip()
    ensures
        spec_decode(spec_encode(PaddleCommand::Left))
            == DecodeOutcome::Command(PaddleCommand::Left),
        net_shift(seq![PaddleCommand::Left]) == -PADDLE_SPEED,
{
    lemma_round_trip(PaddleCommand::Left);
    assert(seq![PaddleCommand::Left].drop_last() =~= Seq::<PaddleCommand>::empty());
    assert(net_shift(Seq::<PaddleCommand>::empty()) == 0);
    assert(seq![PaddleCommand::Left].last() == PaddleCommand::Left);
}

/// The whole per-peer game state, in whole pixels.  Both paddles are
/// mirrored locally; only the bottom one is driven by local input, the
/// top one mirrors the remote peer.
pub struct GameState {
    pub screen_w: i64,
    pub screen_h: i64,
    pub ball_x: i64,
    pub ball_y: i64,
    pub ball_vx: i64,
    pub ball_vy: i64,
    pub top_paddle_x: i64,
    pub bottom_paddle_x: i64,
    pub top_score: i64,
    pub bottom_score: i64,
}

impl View for GameState {
    type V = GameModel;

    open spec fn view(&self) -> GameModel {
        GameModel {
            screen_w: self.screen_w as int,
            screen_h: self.screen_h as int,
            ball_x: self.ball_x as int,
            ball_y: self.ball_y as int,
            ball_vx: self.ball_vx as int,
            ball_vy: self.ball_vy as int,
            top_paddle_x: self.top_paddle_x as int,
            bottom_paddle_x: self.bottom_paddle_x as int,
            top_score: self.top_score as int,
            bottom_score: self.bottom_score as int,
        }
    }
}

/// The state a fresh session starts from: ball at center with the
/// initial velocity, both paddles centered, scores zero.
pub open spec fn spec_initial(screen_w: int, screen_h: int) -> GameModel {
    GameModel {
        screen_w: screen_w,
        screen_h: screen_h,
        ball_x: screen_w / 2,
        ball_y: screen_h / 2,
        ball_vx: BALL_INIT_VX as int,
        ball_vy: BALL_INIT_VY as int,
        top_paddle_x: screen_w / 2,
        bottom_paddle_x: screen_w / 2,
        top_score: 0,
        bottom_score: 0,
    }
}

impl GameState {
    /// Fresh state for a screen of the given size.
    pub fn new(screen_w: i64, screen_h: i64) -> (s: GameState)
        requires
            MIN_SCREEN <= screen_w <= MAX_SCREEN,
            MIN_SCREEN <= screen_h <= MAX_SCREEN,
        ensures
            s@ == spec_initial(screen_w as int, screen_h as int),
            wf(s@),
    {
        let cx: i64 = screen_w / 2;
        let cy: i64 = screen_h / 2;
        GameState {
            screen_w,
            screen_h,
            ball_x: cx,
            ball_y: cy,
            ball_vx: BALL_INIT_VX,
            ball_vy: BALL_INIT_VY,
            top_paddle_x: cx,
            bottom_paddle_x: cx,
            top_score: 0,
            bottom_score: 0,
        }
    }

    /// Whether this state is well formed; lets an unverified caller
    /// test the precondition of the stepping functions.
    pub fn is_well_formed(&self) -> (r: bool)
        ensures
            r == wf(self@),
    {
        self.screen_w >= MIN_SCREEN && self.screen_w <= MAX_SCREEN
            && self.screen_h >= MIN_SCREEN && self.screen_h <= MAX_SCREEN
            && self.ball_vx >= -MAX_BALL_SPEED && self.ball_vx <= MAX_BALL_SPEED
            && self.ball_vy >= -MAX_BALL_SPEED && self.ball_vy <= MAX_BALL_SPEED
            && self.ball_x >= -MAX_BALL_SPEED && self.ball_x <= self.screen_w + MAX_BALL_SPEED
            && self.ball_y >= -MAX_BALL_SPEED && self.ball_y <= self.screen_h + MAX_BALL_SPEED
            && (self.ball_x + BALL_SIZE <= self.screen_w || self.ball_vx <= 0)
            && (self.ball_x >= 0 || self.ball_vx >= 0)
            && (self.ball_y + BALL_SIZE <= self.screen_h || self.ball_vy <= 0)
            && (self.ball_y >= 0 || self.ball_vy >= 0)
            && self.bottom_paddle_x > -PADDLE_SPEED
            && self.bottom_paddle_x < self.screen_w + PADDLE_SPEED - PADDLE_WIDTH
            && self.top_paddle_x >= -MAX_PADDLE_COORD && self.top_paddle_x <= MAX_PADDLE_COORD
            && self.top_score >= 0 && self.bottom_score >= 0
    }

    /// Put the ball back at the exact screen center with the fixed
    /// initial velocity.
    pub fn reset_ball(&mut self)
        requires
            MIN_SCREEN <= old(self)@.screen_w <= MAX_SCREEN,
            MIN_SCREEN <= old(self)@.screen_h <= MAX_SCREEN,
        ensures
            final(self)@ == spec_center_ball(old(self)@),
    {
        self.ball_x = self.screen_w / 2;
        self.ball_y = self.screen_h / 2;
        self.ball_vx = BALL_INIT_VX;
        self.ball_vy = BALL_INIT_VY;
    }

    /// One simulation tick: advance the ball, apply local input to the
    /// local paddle (boundary checked), bounce, score.  Returns the one
    /// command this tick owes the peer — the movement that was applied,
    /// or no-movement; exactly one branch fires.
    pub fn update(&mut self, input: LocalInput) -> (cmd: PaddleCommand)
        requires
            wf(old(self)@),
            old(self)@.top_score < i64::MAX,
            old(self)@.bottom_score < i64::MAX,
        ensures
            final(self)@ == spec_tick(old(self)@, input),
            cmd == spec_local_command(spec_move_ball(old(self)@), input),
            wf(final(self)@),
    {
        let ghost m0 = self@;

        // Ball movement
        self.ball_x = self.ball_x + self.ball_vx;
        self.ball_y = self.ball_y + self.ball_vy;
        let ghost m1 = self@;
        proof {
            assert(m1 == spec_move_ball(m0));
        }

        // Locally-sourced paddle input, boundary checked before the
        // move; the fired branch is also the transmitted command.
        let cmd: PaddleCommand;
        if input.left_held && self.bottom_paddle_x > 0 {
            self.bottom_paddle_x = self.bottom_paddle_x - PADDLE_SPEED;
            cmd = PaddleCommand::Left;
        } else if input.right_held && self.bottom_paddle_x + PADDLE_WIDTH < self.screen_w {
            self.bottom_paddle_x = self.bottom_paddle_x + PADDLE_SPEED;
            cmd = PaddleCommand::Right;
        } else {
            cmd = PaddleCommand::Stop;
        }
        let ghost m2 = self@;
        proof {
            assert(m2 == spec_local_paddle(m1, input));
            assert(cmd == spec_local_command(m1, input));
        }

        // Ball bounce off paddles
        let bottom_paddle_y: i64 = self.screen_h - PADDLE_MARGIN;
        if (self.ball_x <= self.top_paddle_x + PADDLE_WIDTH
            && self.ball_x + BALL_SIZE >= self.top_paddle_x
            && self.ball_y <= PADDLE_MARGIN + PADDLE_HEIGHT
            && self.ball_y + BALL_SIZE >= PADDLE_MARGIN && self.ball_vy < 0)
            || (self.ball_x <= self.bottom_paddle_x + PADDLE_WIDTH
                && self.ball_x + BALL_SIZE >= self.bottom_paddle_x
                && self.ball_y <= bottom_paddle_y + PADDLE_HEIGHT
                && self.ball_y + BALL_SIZE >= bottom_paddle_y && self.ball_vy > 0) {
            self.ball_vy = -self.ball_vy;
        }
        let ghost m3 = self@;
        proof {
            assert(m3 == spec_paddle_bounce(m2));
        }

        // Ball bounce off the side walls
        if (self.ball_x + BALL_SIZE >= self.screen_w && self.ball_vx > 0)
            || (self.ball_x <= 0 && self.ball_vx < 0) {
            self.ball_vx = -self.ball_vx;
        }
        let ghost m4 = self@;
        proof {
            assert(m4 == spec_wall_bounce(m3));
        }

        // Scoring
        if self.ball_y + BALL_SIZE >= self.screen_h && self.ball_vy > 0 {
            self.top_score = self.top_score + 1;
            self.reset_ball();
        }
        if self.ball_y <= 0 && self.ball_vy < 0 {
            self.bottom_score = self.bottom_score + 1;
            self.reset_ball();
        }
        proof {
            assert(self@ == spec_score(m4));
        }
        cmd
    }

    /// Apply every command drained from the queue this tick, in arrival
    /// order: each moves the remote paddle one speed step in its
    /// direction, with no boundary clamp.
    pub fn apply_commands(&mut self, cmds: &Vec<PaddleCommand>)
        requires
            wf(old(self)@),
            cmds@.len() <= MAX_DRAIN,
        ensures
            final(self)@ == (GameModel {
                top_paddle_x: old(self)@.top_paddle_x + net_shift(cmds@),
                ..old(self)@
            }),
            -MAX_PADDLE_COORD <= old(self)@.top_paddle_x + net_shift(cmds@)
                <= MAX_PADDLE_COORD ==> wf(final(self)@),
    {
        let mut k: usize = 0;
        proof {
            assert(cmds@.take(0) =~= Seq::<PaddleCommand>::empty());
        }
        while k < cmds.len()
            invariant
                k <= cmds@.len(),
                cmds@.len() <= MAX_DRAIN,
                wf(old(self)@),
                self@ == (GameModel {
                    top_paddle_x: old(self)@.top_paddle_x + net_shift(cmds@.take(k as int)),
                    ..old(self)@
                }),
            decreases cmds@.len() - k,
        {
            proof {
                lemma_net_shift_bound(cmds@.take(k as int));
                assert(cmds@.take(k as int).len() == k as int);
                let ghost net = net_shift(cmds@.take(k as int));
                assert(-PADDLE_SPEED * (MAX_DRAIN as int) <= net
                    && net <= PADDLE_SPEED * (MAX_DRAIN as int)) by (nonlinear_arith)
                    requires
                        -PADDLE_SPEED * (k as int) <= net,
                        net <= PADDLE_SPEED * (k as int),
                        0 <= k as int <= MAX_DRAIN as int,
                        PADDLE_SPEED >= 0;
                assert(cmds@.take(k + 1).drop_last() =~= cmds@.take(k as int));
                assert(cmds@.take(k + 1).last() == cmds@[k as int]);
            }
            let c: PaddleCommand = cmds[k];
            match c {
                PaddleCommand::Left => {
                    self.top_paddle_x = self.top_paddle_x - PADDLE_SPEED;
                }
                PaddleCommand::Right => {
                    self.top_paddle_x = self.top_paddle_x + PADDLE_SPEED;
                }
                PaddleCommand::Stop => {}
            }
            k += 1;
        }
        proof {
            assert(cmds@.take(cmds@.len() as int) =~= cmds@);
        }
    }
}

} // verus!

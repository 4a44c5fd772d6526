use vstd::prelude::*;

use crate::geometry::{fits_i16, Point};
use vstd::arithmetic::div_mod::{lemma_mod_self_0, lemma_small_mod};

verus! {

/// Height of the play field in pixels.
pub const HEIGHT: i16 = 600;

/// Largest `y` the player's position may take: the player stands here.
pub const FLOOR: i16 = 479;

/// Height of the player sprite; landing on a surface at `y` puts the player at
/// `y - PLAYER_HEIGHT`.
pub const PLAYER_HEIGHT: i16 = HEIGHT - FLOOR;

pub const STARTING_POINT: i16 = -20;

pub const IDLE_FRAMES: u8 = 29;

pub const RUNNING_FRAMES: u8 = 23;

pub const JUMPING_FRAMES: u8 = 35;

pub const SLIDING_FRAMES: u8 = 14;

pub const FALLING_FRAMES: u8 = 29;

pub const RUNNING_SPEED: i16 = 4;

pub const JUMP_SPEED: i16 = -25;

pub const GRAVITY: i16 = 1;

pub const TERMINAL_VELOCITY: i16 = 20;

pub const IDLE_FRAME_NAME: &'static str = "Idle";

pub const RUN_FRAME_NAME: &'static str = "Run";

pub const SLIDING_FRAME_NAME: &'static str = "Slide";

pub const JUMPING_FRAME_NAME: &'static str = "Jump";

pub const FALLING_FRAME_NAME: &'static str = "Dead";

/// The animation counter after one step: it counts up and wraps to 0 when it
/// would reach the state's frame budget.
pub open spec fn next_frame(frame: u8, budget: u8) -> u8 {
    if frame + 1 < budget {
        (frame + 1) as u8
    } else {
        0
    }
}

/// Vertical velocity after one step of gravity, capped at terminal velocity.
pub open spec fn fall_velocity(vy: i16) -> i16 {
    if vy < TERMINAL_VELOCITY {
        (vy + GRAVITY) as i16
    } else {
        vy
    }
}

pub open spec fn clamp_to_floor(y: int) -> int {
    if y > FLOOR {
        FLOOR as int
    } else {
        y
    }
}

/// The player at rest on the floor at the starting point, at frame 0.
pub open spec fn starting_context() -> RedHatBoyContext {
    RedHatBoyContext {
        frame: 0,
        position: Point { x: STARTING_POINT, y: FLOOR },
        velocity: Point { x: 0, y: 0 },
    }
}

/// Animation counter, position and velocity of the player.
#[derive(Clone, Copy, Debug, PartialEq, Eq, Structural)]
pub struct RedHatBoyContext {
    pub frame: u8,
    pub position: Point,
    pub velocity: Point,
}

impl RedHatBoyContext {
    /// One physics step fits the integer types.
    pub open spec fn can_update(self) -> bool {
        &&& fits_i16(self.position.x + self.velocity.x)
        &&& fits_i16(self.position.y + fall_velocity(self.velocity.y))
    }

    /// One physics step: gravity, animation counter, integration, floor clamp.
    pub open spec fn spec_update(self, budget: u8) -> RedHatBoyContext {
        let vy = fall_velocity(self.velocity.y);
        RedHatBoyContext {
            frame: next_frame(self.frame, budget),
            position: Point {
                x: (self.position.x + self.velocity.x) as i16,
                y: clamp_to_floor(self.position.y + vy) as i16,
            },
            velocity: Point { x: self.velocity.x, y: vy },
        }
    }

    pub open spec fn spec_reset_frame(self) -> RedHatBoyContext {
        RedHatBoyContext { frame: 0, ..self }
    }

    pub open spec fn spec_set_vertical_velocity(self, y: i16) -> RedHatBoyContext {
        RedHatBoyContext { velocity: Point { x: self.velocity.x, y }, ..self }
    }

    pub open spec fn spec_run_right(self) -> RedHatBoyContext {
        RedHatBoyContext {
            velocity: Point { x: (self.velocity.x + RUNNING_SPEED) as i16, y: self.velocity.y },
            ..self
        }
    }

    pub open spec fn spec_stop(self) -> RedHatBoyContext {
        RedHatBoyContext { velocity: Point { x: 0, y: 0 }, ..self }
    }

    pub open spec fn spec_set_on(self, position: i16) -> RedHatBoyContext {
        RedHatBoyContext {
            position: Point { x: self.position.x, y: (position - PLAYER_HEIGHT) as i16 },
            ..self
        }
    }

    /// Whether one physics step fits the integer types.
    pub fn can_update_exec(&self) -> (r: bool)
        ensures
            r == self.can_update(),
    {
        let vy: i32 = if self.velocity.y < TERMINAL_VELOCITY {
            self.velocity.y as i32 + GRAVITY as i32
        } else {
            self.velocity.y as i32
        };
        let x = self.position.x as i32 + self.velocity.x as i32;
        let y = self.position.y as i32 + vy;
        i16::MIN as i32 <= x && x <= i16::MAX as i32 && i16::MIN as i32 <= y && y
            <= i16::MAX as i32
    }

    /// One physics step: the animation counter counts up modulo
    /// `frame_count`, gravity adds 1 up to terminal velocity, the position
    /// moves by the velocity and stops at the floor.
    pub fn update(self, frame_count: u8) -> (r: RedHatBoyContext)
        requires
            self.can_update(),
        ensures
            r == self.spec_update(frame_count),
            0 < frame_count && self.frame < frame_count ==> r.frame == (self.frame + 1)
                % (frame_count as int),
            self.velocity.y <= TERMINAL_VELOCITY ==> r.velocity.y == if self.velocity.y + GRAVITY
                < TERMINAL_VELOCITY {
                self.velocity.y + GRAVITY
            } else {
                TERMINAL_VELOCITY as int
            },
            r.velocity.x == self.velocity.x,
            r.position.x == self.position.x + self.velocity.x,
            r.position.y <= FLOOR,
            self.position.y + r.velocity.y <= FLOOR ==> r.position.y == self.position.y
                + r.velocity.y,
    {
        let mut next = self;
        if next.velocity.y < TERMINAL_VELOCITY {
            next.velocity.y = next.velocity.y + GRAVITY;
        }
        if (next.frame as u16) + 1 < frame_count as u16 {
            next.frame = next.frame + 1;
        } else {
            next.frame = 0;
        }
        next.position.x = next.position.x + next.velocity.x;
        next.position.y = next.position.y + next.velocity.y;
        if next.position.y > FLOOR {
            next.position.y = FLOOR;
        }
        proof {
            if 0 < frame_count && self.frame < frame_count {
                if self.frame + 1 < frame_count {
                    lemma_small_mod((self.frame + 1) as nat, frame_count as nat);
                } else {
                    lemma_mod_self_0(frame_count as int);
                }
            }
        }
        next
    }

    fn reset_frame(self) -> (r: RedHatBoyContext)
        ensures
            r == self.spec_reset_frame(),
    {
        RedHatBoyContext { frame: 0, ..self }
    }

    fn set_vertical_velocity(self, y: i16) -> (r: RedHatBoyContext)
        ensures
            r == self.spec_set_vertical_velocity(y),
    {
        let mut next = self;
        next.velocity.y = y;
        next
    }

    fn run_right(self) -> (r: RedHatBoyContext)
        requires
            fits_i16(self.velocity.x + RUNNING_SPEED),
        ensures
            r == self.spec_run_right(),
    {
        let mut next = self;
        next.velocity.x = next.velocity.x + RUNNING_SPEED;
        next
    }

    fn stop(self) -> (r: RedHatBoyContext)
        ensures
            r == self.spec_stop(),
    {
        let mut next = self;
        next.velocity.x = 0;
        next.velocity.y = 0;
        next
    }

    fn set_on(self, position: i16) -> (r: RedHatBoyContext)
        requires
            fits_i16(position - PLAYER_HEIGHT),
        ensures
            r == self.spec_set_on(position),
    {
        let mut next = self;
        next.position.y = position - PLAYER_HEIGHT;
        next
    }
}

/// The six states of the player, without their data.
#[derive(Clone, Copy, Debug, PartialEq, Eq, Structural)]
pub enum Phase {
    Idle,
    Running,
    Sliding,
    Jumping,
    Falling,
    KnockedOut,
}

/// What can happen to the player.
#[derive(Clone, Copy, Debug, PartialEq, Eq, Structural)]
pub enum Event {
    Run,
    Slide,
    Jump,
    Update,
    KnockOut,
    Land(i16),
}

/// The number of animation frames of each state.
pub open spec fn frame_budget(phase: Phase) -> u8 {
    match phase {
        Phase::Idle => IDLE_FRAMES,
        Phase::Running => RUNNING_FRAMES,
        Phase::Sliding => SLIDING_FRAMES,
        Phase::Jumping => JUMPING_FRAMES,
        Phase::Falling => FALLING_FRAMES,
        Phase::KnockedOut => 0,
    }
}

/// Whether the transition on `event` stays within the integer types.
pub open spec fn accepts(phase: Phase, ctx: RedHatBoyContext, event: Event) -> bool {
    match event {
        Event::Run => phase == Phase::Idle ==> fits_i16(ctx.velocity.x + RUNNING_SPEED),
        Event::Update => phase != Phase::KnockedOut ==> ctx.can_update(),
        Event::Land(y) => (phase == Phase::Running || phase == Phase::Sliding || phase
            == Phase::Jumping) ==> fits_i16(y - PLAYER_HEIGHT),
        _ => true,
    }
}

/// The transition table. Pairs that it does not list leave the player as it
/// is. Besides landing by itself on the floor, a jump also ends on `Land`, on
/// a platform.
pub open spec fn next_state(phase: Phase, ctx: RedHatBoyContext, event: Event) -> (
    Phase,
    RedHatBoyContext,
) {
    match event {
        Event::Run => if phase == Phase::Idle {
            (Phase::Running, ctx.spec_reset_frame().spec_run_right())
        } else {
            (phase, ctx)
        },
        Event::Slide => if phase == Phase::Running {
            (Phase::Sliding, ctx.spec_reset_frame())
        } else {
            (phase, ctx)
        },
        Event::Jump => if phase == Phase::Running {
            (Phase::Jumping, ctx.spec_reset_frame().spec_set_vertical_velocity(JUMP_SPEED))
        } else {
            (phase, ctx)
        },
        Event::KnockOut => if phase == Phase::Running || phase == Phase::Sliding || phase
            == Phase::Jumping {
            (Phase::Falling, ctx.spec_reset_frame().spec_stop())
        } else {
            (phase, ctx)
        },
        Event::Land(y) => match phase {
            Phase::Running => (Phase::Running, ctx.spec_set_on(y)),
            Phase::Sliding => (Phase::Running, ctx.spec_set_on(y)),
            Phase::Jumping => (Phase::Running, ctx.spec_reset_frame().spec_set_on(y)),
            _ => (phase, ctx),
        },
        Event::Update => {
            let moved = ctx.spec_update(frame_budget(phase));
            match phase {
                Phase::Idle => (Phase::Idle, moved),
                Phase::Running => (Phase::Running, moved),
                Phase::Sliding => if moved.frame == 0 {
                    (Phase::Running, moved.spec_reset_frame())
                } else {
                    (Phase::Sliding, moved)
                },
                Phase::Jumping => if moved.position.y >= FLOOR {
                    (Phase::Running, moved.spec_reset_frame().spec_set_on(HEIGHT))
                } else {
                    (Phase::Jumping, moved)
                },
                Phase::Falling => if moved.frame == 0 {
                    (Phase::KnockedOut, moved)
                } else {
                    (Phase::Falling, moved)
                },
                Phase::KnockedOut => (phase, ctx),
            }
        },
    }
}

/// The player in state `S`: only the moves that `S` allows are offered.
#[derive(Clone, Copy)]
pub struct RedHatBoyState<S> {
    context: RedHatBoyContext,
    _state: S,
}

/// A state is seen as its context; the state itself is in its type.
impl<S> View for RedHatBoyState<S> {
    type V = RedHatBoyContext;

    closed spec fn view(&self) -> RedHatBoyContext {
        self.context
    }
}

impl<S> RedHatBoyState<S> {
    pub fn context(&self) -> (r: &RedHatBoyContext)
        ensures
            *r == self@,
    {
        &self.context
    }

    fn update_context(&mut self, frames: u8)
        requires
            old(self)@.can_update(),
        ensures
            final(self)@ == old(self)@.spec_update(frames),
    {
        self.context = self.context.update(frames);
    }
}

#[derive(Clone, Copy)]
pub struct Idle;

#[derive(Clone, Copy)]
pub struct Running;

#[derive(Clone, Copy)]
pub struct Sliding;

#[derive(Clone, Copy)]
pub struct Jumping;

#[derive(Clone, Copy)]
pub struct Falling;

#[derive(Clone, Copy)]
pub struct KnockedOut;

impl RedHatBoyState<Idle> {
    /// The player at rest at the starting point on the floor.
    pub fn new() -> (r: RedHatBoyState<Idle>)
        ensures
            r@ == starting_context(),
    {
        RedHatBoyState {
            context: RedHatBoyContext {
                frame: 0,
                position: Point { x: STARTING_POINT, y: FLOOR },
                velocity: Point { x: 0, y: 0 },
            },
            _state: Idle,
        }
    }

    pub fn frame_name(&self) -> (r: &'static str)
        ensures
            r@ == IDLE_FRAME_NAME@,
    {
        IDLE_FRAME_NAME
    }

    pub fn run(self) -> (r: RedHatBoyState<Running>)
        requires
            fits_i16(self@.velocity.x + RUNNING_SPEED),
        ensures
            r@ == self@.spec_reset_frame().spec_run_right(),
    {
        RedHatBoyState { context: self.context.reset_frame().run_right(), _state: Running }
    }

    pub fn update(self) -> (r: RedHatBoyState<Idle>)
        requires
            self@.can_update(),
        ensures
            r@ == self@.spec_update(IDLE_FRAMES),
    {
        let mut next = self;
        next.update_context(IDLE_FRAMES);
        next
    }
}

impl RedHatBoyState<Running> {
    pub fn frame_name(&self) -> (r: &'static str)
        ensures
            r@ == RUN_FRAME_NAME@,
    {
        RUN_FRAME_NAME
    }

    pub fn update(self) -> (r: RedHatBoyState<Running>)
        requires
            self@.can_update(),
        ensures
            r@ == self@.spec_update(RUNNING_FRAMES),
    {
        let mut next = self;
        next.update_context(RUNNING_FRAMES);
        next
    }

    pub fn slide(&self) -> (r: RedHatBoyState<Sliding>)
        ensures
            r@ == self@.spec_reset_frame(),
    {
        RedHatBoyState { context: self.context.reset_frame(), _state: Sliding }
    }

    pub fn jump(&self) -> (r: RedHatBoyState<Jumping>)
        ensures
            r@ == self@.spec_reset_frame().spec_set_vertical_velocity(JUMP_SPEED),
    {
        RedHatBoyState {
            context: self.context.reset_frame().set_vertical_velocity(JUMP_SPEED),
            _state: Jumping,
        }
    }

    pub fn knock_out(self) -> (r: RedHatBoyState<Falling>)
        ensures
            r@ == self@.spec_reset_frame().spec_stop(),
    {
        RedHatBoyState { context: self.context.reset_frame().stop(), _state: Falling }
    }

    pub fn land_on(self, position: i16) -> (r: RedHatBoyState<Running>)
        requires
            fits_i16(position - PLAYER_HEIGHT),
        ensures
            r@ == self@.spec_set_on(position),
    {
        RedHatBoyState { context: self.context.set_on(position), _state: Running }
    }
}

/// Where a sliding player is after one step.
pub enum SlidingEndState {
    Sliding(RedHatBoyState<Sliding>),
    Running(RedHatBoyState<Running>),
}

impl RedHatBoyState<Sliding> {
    pub fn frame_name(&self) -> (r: &'static str)
        ensures
            r@ == SLIDING_FRAME_NAME@,
    {
        SLIDING_FRAME_NAME
    }

    /// One step; when the animation counter wraps, the slide is over.
    pub fn update(self) -> (r: SlidingEndState)
        requires
            self@.can_update(),
        ensures
            ({
                let moved = self@.spec_update(SLIDING_FRAMES);
                match r {
                    SlidingEndState::Running(s) => moved.frame == 0 && s@
                        == moved.spec_reset_frame(),
                    SlidingEndState::Sliding(s) => moved.frame != 0 && s@ == moved,
                }
            }),
    {
        let mut next = self;
        next.update_context(SLIDING_FRAMES);
        if next.context.frame == 0 {
            SlidingEndState::Running(next.stand())
        } else {
            SlidingEndState::Sliding(next)
        }
    }

    pub fn stand(self) -> (r: RedHatBoyState<Running>)
        ensures
            r@ == self@.spec_reset_frame(),
    {
        RedHatBoyState { context: self.context.reset_frame(), _state: Running }
    }

    pub fn knock_out(self) -> (r: RedHatBoyState<Falling>)
        ensures
            r@ == self@.spec_reset_frame().spec_stop(),
    {
        RedHatBoyState { context: self.context.reset_frame().stop(), _state: Falling }
    }

    pub fn land_on(self, position: i16) -> (r: RedHatBoyState<Running>)
        requires
            fits_i16(position - PLAYER_HEIGHT),
        ensures
            r@ == self@.spec_set_on(position),
    {
        RedHatBoyState { context: self.context.set_on(position), _state: Running }
    }
}

/// Where a jumping player is after one step.
pub enum JumpingEndState {
    Jumping(RedHatBoyState<Jumping>),
    Landing(RedHatBoyState<Running>),
}

impl RedHatBoyState<Jumping> {
    pub fn frame_name(&self) -> (r: &'static str)
        ensures
            r@ == JUMPING_FRAME_NAME@,
    {
        JUMPING_FRAME_NAME
    }

    /// One step; back on the floor, the player lands and runs on.
    pub fn update(self) -> (r: JumpingEndState)
        requires
            self@.can_update(),
        ensures
            ({
                let moved = self@.spec_update(JUMPING_FRAMES);
                match r {
                    JumpingEndState::Landing(s) => moved.position.y >= FLOOR && s@
                        == moved.spec_reset_frame().spec_set_on(HEIGHT),
                    JumpingEndState::Jumping(s) => moved.position.y < FLOOR && s@
                        == moved,
                }
            }),
    {
        let mut next = self;
        next.update_context(JUMPING_FRAMES);
        if next.context.position.y >= FLOOR {
            JumpingEndState::Landing(next.land_on(HEIGHT))
        } else {
            JumpingEndState::Jumping(next)
        }
    }

    pub fn land_on(self, position: i16) -> (r: RedHatBoyState<Running>)
        requires
            fits_i16(position - PLAYER_HEIGHT),
        ensures
            r@ == self@.spec_reset_frame().spec_set_on(position),
    {
        RedHatBoyState { context: self.context.reset_frame().set_on(position), _state: Running }
    }

    pub fn knock_out(self) -> (r: RedHatBoyState<Falling>)
        ensures
            r@ == self@.spec_reset_frame().spec_stop(),
    {
        RedHatBoyState { context: self.context.reset_frame().stop(), _state: Falling }
    }
}

/// Where a falling player is after one step.
pub enum FallingEndState {
    Falling(RedHatBoyState<Falling>),
    KnockedOut(RedHatBoyState<KnockedOut>),
}

impl RedHatBoyState<Falling> {
    pub fn frame_name(&self) -> (r: &'static str)
        ensures
            r@ == FALLING_FRAME_NAME@,
    {
        FALLING_FRAME_NAME
    }

    /// One step; when the animation counter wraps, the player is knocked out.
    /// A fall that starts at frame 0 thus lasts `FALLING_FRAMES` updates: the
    /// update that wraps the counter is the one that knocks the player out.
    pub fn update(self) -> (r: FallingEndState)
        requires
            self@.can_update(),
        ensures
            ({
                let moved = self@.spec_update(FALLING_FRAMES);
                match r {
                    FallingEndState::KnockedOut(s) => moved.frame == 0 && s@ == moved,
                    FallingEndState::Falling(s) => moved.frame != 0 && s@ == moved,
                }
            }),
    {
        let mut next = self;
        next.update_context(FALLING_FRAMES);
        if next.context.frame == 0 {
            FallingEndState::KnockedOut(next.knock_out())
        } else {
            FallingEndState::Falling(next)
        }
    }

    pub fn knock_out(self) -> (r: RedHatBoyState<KnockedOut>)
        ensures
            r@ == self@,
    {
        RedHatBoyState { context: self.context, _state: KnockedOut }
    }
}

impl RedHatBoyState<KnockedOut> {
    pub fn frame_name(&self) -> (r: &'static str)
        ensures
            r@ == FALLING_FRAME_NAME@,
    {
        FALLING_FRAME_NAME
    }
}


/// The player in exactly one of its six states.
#[derive(Clone, Copy)]
pub enum RedHatBoyStateMachine {
    Idle(RedHatBoyState<Idle>),
    Running(RedHatBoyState<Running>),
    Sliding(RedHatBoyState<Sliding>),
    Jumping(RedHatBoyState<Jumping>),
    Falling(RedHatBoyState<Falling>),
    KnockedOut(RedHatBoyState<KnockedOut>),
}

/// The machine is seen as its state and that state's context.
impl View for RedHatBoyStateMachine {
    type V = (Phase, RedHatBoyContext);

    open spec fn view(&self) -> (Phase, RedHatBoyContext) {
        match self {
            RedHatBoyStateMachine::Idle(s) => (Phase::Idle, s@),
            RedHatBoyStateMachine::Running(s) => (Phase::Running, s@),
            RedHatBoyStateMachine::Sliding(s) => (Phase::Sliding, s@),
            RedHatBoyStateMachine::Jumping(s) => (Phase::Jumping, s@),
            RedHatBoyStateMachine::Falling(s) => (Phase::Falling, s@),
            RedHatBoyStateMachine::KnockedOut(s) => (Phase::KnockedOut, s@),
        }
    }
}

/// The sprite label of each state.
pub open spec fn phase_label(phase: Phase) -> Seq<char> {
    match phase {
        Phase::Idle => IDLE_FRAME_NAME@,
        Phase::Running => RUN_FRAME_NAME@,
        Phase::Sliding => SLIDING_FRAME_NAME@,
        Phase::Jumping => JUMPING_FRAME_NAME@,
        Phase::Falling => FALLING_FRAME_NAME@,
        Phase::KnockedOut => FALLING_FRAME_NAME@,
    }
}

impl RedHatBoyStateMachine {
    /// The player at rest at the starting point.
    pub fn new() -> (r: RedHatBoyStateMachine)
        ensures
            r@ == (Phase::Idle, starting_context()),
    {
        RedHatBoyStateMachine::Idle(RedHatBoyState::new())
    }

    /// Applies one event; pairs that the table does not list change nothing.
    pub fn transition(self, event: Event) -> (r: RedHatBoyStateMachine)
        requires
            accepts(self@.0, self@.1, event),
        ensures
            r@ == next_state(self@.0, self@.1, event),
    {
        match (self, event) {
            (RedHatBoyStateMachine::Idle(state), Event::Run) => state.run().into(),
            (RedHatBoyStateMachine::Idle(state), Event::Update) => state.update().into(),
            (RedHatBoyStateMachine::Running(state), Event::Slide) => state.slide().into(),
            (RedHatBoyStateMachine::Running(state), Event::Jump) => state.jump().into(),
            (RedHatBoyStateMachine::Running(state), Event::Update) => state.update().into(),
            (RedHatBoyStateMachine::Sliding(state), Event::Update) => state.update().into(),
            (RedHatBoyStateMachine::Jumping(state), Event::Update) => state.update().into(),
            (RedHatBoyStateMachine::Running(state), Event::KnockOut) => state.knock_out().into(),
            (RedHatBoyStateMachine::Jumping(state), Event::KnockOut) => state.knock_out().into(),
            (RedHatBoyStateMachine::Sliding(state), Event::KnockOut) => state.knock_out().into(),
            (RedHatBoyStateMachine::Falling(state), Event::Update) => state.update().into(),
            (RedHatBoyStateMachine::Running(state), Event::Land(position)) => {
                state.land_on(position).into()
            },
            (RedHatBoyStateMachine::Jumping(state), Event::Land(position)) => {
                state.land_on(position).into()
            },
            (RedHatBoyStateMachine::Sliding(state), Event::Land(position)) => {
                state.land_on(position).into()
            },
            _ => self,
        }
    }

    /// Whether `transition(event)` may be applied: the arithmetic stays
    /// within the integer types.
    pub fn can_take(&self, event: Event) -> (r: bool)
        ensures
            r == accepts(self@.0, self@.1, event),
    {
        let ctx = self.context();
        let upright = match self {
            RedHatBoyStateMachine::Running(_) => true,
            RedHatBoyStateMachine::Sliding(_) => true,
            RedHatBoyStateMachine::Jumping(_) => true,
            _ => false,
        };
        match event {
            Event::Run => match self {
                RedHatBoyStateMachine::Idle(_) => ctx.velocity.x as i32 + RUNNING_SPEED as i32
                    <= i16::MAX as i32,
                _ => true,
            },
            Event::Update => match self {
                RedHatBoyStateMachine::KnockedOut(_) => true,
                _ => ctx.can_update_exec(),
            },
            Event::Land(y) => !upright || y as i32 - PLAYER_HEIGHT as i32 >= i16::MIN as i32,
            _ => true,
        }
    }

    pub fn phase(&self) -> (r: Phase)
        ensures
            r == self@.0,
    {
        match self {
            RedHatBoyStateMachine::Idle(_) => Phase::Idle,
            RedHatBoyStateMachine::Running(_) => Phase::Running,
            RedHatBoyStateMachine::Sliding(_) => Phase::Sliding,
            RedHatBoyStateMachine::Jumping(_) => Phase::Jumping,
            RedHatBoyStateMachine::Falling(_) => Phase::Falling,
            RedHatBoyStateMachine::KnockedOut(_) => Phase::KnockedOut,
        }
    }

    pub fn frame_name(&self) -> (r: &'static str)
        ensures
            r@ == phase_label(self@.0),
    {
        match self {
            RedHatBoyStateMachine::Idle(state) => state.frame_name(),
            RedHatBoyStateMachine::Running(state) => state.frame_name(),
            RedHatBoyStateMachine::Jumping(state) => state.frame_name(),
            RedHatBoyStateMachine::Sliding(state) => state.frame_name(),
            RedHatBoyStateMachine::Falling(state) => state.frame_name(),
            RedHatBoyStateMachine::KnockedOut(state) => state.frame_name(),
        }
    }

    pub fn context(&self) -> (r: &RedHatBoyContext)
        ensures
            *r == self@.1,
    {
        match self {
            RedHatBoyStateMachine::Idle(state) => state.context(),
            RedHatBoyStateMachine::Running(state) => state.context(),
            RedHatBoyStateMachine::Jumping(state) => state.context(),
            RedHatBoyStateMachine::Sliding(state) => state.context(),
            RedHatBoyStateMachine::Falling(state) => state.context(),
            RedHatBoyStateMachine::KnockedOut(state) => state.context(),
        }
    }
}

impl From<RedHatBoyState<Idle>> for RedHatBoyStateMachine {
    fn from(state: RedHatBoyState<Idle>) -> (r: RedHatBoyStateMachine)
        ensures
            r == RedHatBoyStateMachine::Idle(state),
    {
        RedHatBoyStateMachine::Idle(state)
    }
}

impl vstd::std_specs::convert::FromSpecImpl<RedHatBoyState<Idle>> for RedHatBoyStateMachine {
    open spec fn obeys_from_spec() -> bool {
        true
    }

    open spec fn from_spec(state: RedHatBoyState<Idle>) -> RedHatBoyStateMachine {
        RedHatBoyStateMachine::Idle(state)
    }
}

impl From<RedHatBoyState<Running>> for RedHatBoyStateMachine {
    fn from(state: RedHatBoyState<Running>) -> (r: RedHatBoyStateMachine)
        ensures
            r == RedHatBoyStateMachine::Running(state),
    {
        RedHatBoyStateMachine::Running(state)
    }
}

impl vstd::std_specs::convert::FromSpecImpl<RedHatBoyState<Running>> for RedHatBoyStateMachine {
    open spec fn obeys_from_spec() -> bool {
        true
    }

    open spec fn from_spec(state: RedHatBoyState<Running>) -> RedHatBoyStateMachine {
        RedHatBoyStateMachine::Running(state)
    }
}

impl From<RedHatBoyState<Sliding>> for RedHatBoyStateMachine {
    fn from(state: RedHatBoyState<Sliding>) -> (r: RedHatBoyStateMachine)
        ensures
            r == RedHatBoyStateMachine::Sliding(state),
    {
        RedHatBoyStateMachine::Sliding(state)
    }
}

impl vstd::std_specs::convert::FromSpecImpl<RedHatBoyState<Sliding>> for RedHatBoyStateMachine {
    open spec fn obeys_from_spec() -> bool {
        true
    }

    open spec fn from_spec(state: RedHatBoyState<Sliding>) -> RedHatBoyStateMachine {
        RedHatBoyStateMachine::Sliding(state)
    }
}

impl From<RedHatBoyState<Jumping>> for RedHatBoyStateMachine {
    fn from(state: RedHatBoyState<Jumping>) -> (r: RedHatBoyStateMachine)
        ensures
            r == RedHatBoyStateMachine::Jumping(state),
    {
        RedHatBoyStateMachine::Jumping(state)
    }
}

impl vstd::std_specs::convert::FromSpecImpl<RedHatBoyState<Jumping>> for RedHatBoyStateMachine {
    open spec fn obeys_from_spec() -> bool {
        true
    }

    open spec fn from_spec(state: RedHatBoyState<Jumping>) -> RedHatBoyStateMachine {
        RedHatBoyStateMachine::Jumping(state)
    }
}

impl From<RedHatBoyState<Falling>> for RedHatBoyStateMachine {
    fn from(state: RedHatBoyState<Falling>) -> (r: RedHatBoyStateMachine)
        ensures
            r == RedHatBoyStateMachine::Falling(state),
    {
        RedHatBoyStateMachine::Falling(state)
    }
}

impl vstd::std_specs::convert::FromSpecImpl<RedHatBoyState<Falling>> for RedHatBoyStateMachine {
    open spec fn obeys_from_spec() -> bool {
        true
    }

    open spec fn from_spec(state: RedHatBoyState<Falling>) -> RedHatBoyStateMachine {
        RedHatBoyStateMachine::Falling(state)
    }
}

impl From<RedHatBoyState<KnockedOut>> for RedHatBoyStateMachine {
    fn from(state: RedHatBoyState<KnockedOut>) -> (r: RedHatBoyStateMachine)
        ensures
            r == RedHatBoyStateMachine::KnockedOut(state),
    {
        RedHatBoyStateMachine::KnockedOut(state)
    }
}

impl vstd::std_specs::convert::FromSpecImpl<RedHatBoyState<KnockedOut>> for RedHatBoyStateMachine {
    open spec fn obeys_from_spec() -> bool {
        true
    }

    open spec fn from_spec(state: RedHatBoyState<KnockedOut>) -> RedHatBoyStateMachine {
        RedHatBoyStateMachine::KnockedOut(state)
    }
}

impl From<SlidingEndState> for RedHatBoyStateMachine {
    fn from(state: SlidingEndState) -> (r: RedHatBoyStateMachine)
        ensures
            (match state {
                SlidingEndState::Sliding(s) => r == RedHatBoyStateMachine::Sliding(s),
                SlidingEndState::Running(s) => r == RedHatBoyStateMachine::Running(s),
            }),
    {
        match state {
            SlidingEndState::Sliding(sliding) => RedHatBoyStateMachine::Sliding(sliding),
            SlidingEndState::Running(running) => RedHatBoyStateMachine::Running(running),
        }
    }
}

impl vstd::std_specs::convert::FromSpecImpl<SlidingEndState> for RedHatBoyStateMachine {
    open spec fn obeys_from_spec() -> bool {
        true
    }

    open spec fn from_spec(state: SlidingEndState) -> RedHatBoyStateMachine {
        match state {
            SlidingEndState::Sliding(sliding) => RedHatBoyStateMachine::Sliding(sliding),
            SlidingEndState::Running(running) => RedHatBoyStateMachine::Running(running),
        }
    }
}

impl From<JumpingEndState> for RedHatBoyStateMachine {
    fn from(state: JumpingEndState) -> (r: RedHatBoyStateMachine)
        ensures
            (match state {
                JumpingEndState::Jumping(s) => r == RedHatBoyStateMachine::Jumping(s),
                JumpingEndState::Landing(s) => r == RedHatBoyStateMachine::Running(s),
            }),
    {
        match state {
            JumpingEndState::Jumping(jumping) => RedHatBoyStateMachine::Jumping(jumping),
            JumpingEndState::Landing(landing) => RedHatBoyStateMachine::Running(landing),
        }
    }
}

impl vstd::std_specs::convert::FromSpecImpl<JumpingEndState> for RedHatBoyStateMachine {
    open spec fn obeys_from_spec() -> bool {
        true
    }

    open spec fn from_spec(state: JumpingEndState) -> RedHatBoyStateMachine {
        match state {
            JumpingEndState::Jumping(jumping) => RedHatBoyStateMachine::Jumping(jumping),
            JumpingEndState::Landing(landing) => RedHatBoyStateMachine::Running(landing),
        }
    }
}

impl From<FallingEndState> for RedHatBoyStateMachine {
    fn from(state: FallingEndState) -> (r: RedHatBoyStateMachine)
        ensures
            (match state {
                FallingEndState::Falling(s) => r == RedHatBoyStateMachine::Falling(s),
                FallingEndState::KnockedOut(s) => r == RedHatBoyStateMachine::KnockedOut(s),
            }),
    {
        match state {
            FallingEndState::Falling(falling) => RedHatBoyStateMachine::Falling(falling),
            FallingEndState::KnockedOut(knocked_out) => RedHatBoyStateMachine::KnockedOut(knocked_out),
        }
    }
}

impl vstd::std_specs::convert::FromSpecImpl<FallingEndState> for RedHatBoyStateMachine {
    open spec fn obeys_from_spec() -> bool {
        true
    }

    open spec fn from_spec(state: FallingEndState) -> RedHatBoyStateMachine {
        match state {
            FallingEndState::Falling(falling) => RedHatBoyStateMachine::Falling(falling),
            FallingEndState::KnockedOut(knocked_out) => RedHatBoyStateMachine::KnockedOut(knocked_out),
        }
    }
}

/// The player after `n` consecutive `Update` events.
pub open spec fn after_updates(phase: Phase, ctx: RedHatBoyContext, n: nat) -> (
    Phase,
    RedHatBoyContext,
)
    decreases n,
{
    if n == 0 {
        (phase, ctx)
    } else {
        let next = next_state(phase, ctx, Event::Update);
        after_updates(next.0, next.1, (n - 1) as nat)
    }
}

/// An `Update` in any state but `KnockedOut` moves the animation counter one
/// frame on, or wraps it to 0 at the end of the state's budget; a jump that
/// lands starts the running animation at 0.
pub proof fn lemma_update_advances_frame(phase: Phase, ctx: RedHatBoyContext)
    requires
        phase != Phase::KnockedOut,
    ensures
        ({
            let next = next_state(phase, ctx, Event::Update);
            let budget = frame_budget(phase);
            &&& phase != Phase::Jumping ==> next.1.frame == next_frame(ctx.frame, budget)
            &&& phase == Phase::Jumping ==> next.1.frame == next_frame(ctx.frame, budget) || (
            next.0 == Phase::Running && next.1.frame == 0)
            &&& ctx.frame + 1 < budget ==> (next.0 == phase ==> next.1.frame == ctx.frame + 1)
            &&& next.1.frame == ctx.frame + 1 || next.1.frame == 0
        }),
{
}

/// Updates a falling player takes to be knocked out.
pub open spec fn updates_left_in_fall(frame: u8) -> nat {
    if frame + 1 < FALLING_FRAMES {
        (FALLING_FRAMES - frame) as nat
    } else {
        1
    }
}

/// Gravity acts for all of the next `n` updates, or the vertical velocity has
/// reached its cap before it stops acting: a knocked-out player no longer
/// moves.
pub open spec fn falls_freely(phase: Phase, vy: int, frame: u8, n: nat) -> bool {
    match phase {
        Phase::KnockedOut => n == 0 || vy >= TERMINAL_VELOCITY,
        Phase::Falling => n <= updates_left_in_fall(frame) || vy + updates_left_in_fall(frame)
            >= TERMINAL_VELOCITY,
        _ => true,
    }
}

/// Starting from rest vertically, `n` updates give a vertical velocity of
/// `min(n, TERMINAL_VELOCITY)`, as long as the player is not knocked out
/// before that.
pub proof fn lemma_gravity(phase: Phase, ctx: RedHatBoyContext, n: nat)
    requires
        ctx.velocity.y == 0,
        falls_freely(phase, 0, ctx.frame, n),
    ensures
        after_updates(phase, ctx, n).1.velocity.y == if n < TERMINAL_VELOCITY {
            n as int
        } else {
            TERMINAL_VELOCITY as int
        },
{
    lemma_gravity_from(phase, ctx, n);
}

proof fn lemma_gravity_from(phase: Phase, ctx: RedHatBoyContext, n: nat)
    requires
        0 <= ctx.velocity.y <= TERMINAL_VELOCITY,
        falls_freely(phase, ctx.velocity.y as int, ctx.frame, n),
    ensures
        after_updates(phase, ctx, n).1.velocity.y == if ctx.velocity.y + n < TERMINAL_VELOCITY {
            ctx.velocity.y + n
        } else {
            TERMINAL_VELOCITY as int
        },
    decreases n,
{
    if n > 0 {
        let next = next_state(phase, ctx, Event::Update);
        if phase != Phase::KnockedOut {
            assert(next.1.velocity.y == fall_velocity(ctx.velocity.y));
        }
        lemma_gravity_from(next.0, next.1, (n - 1) as nat);
    }
}

/// Right after an `Update`, the player is never below the floor. A
/// knocked-out player does not move, so this needs it to be there already.
pub proof fn lemma_update_stays_above_floor(phase: Phase, ctx: RedHatBoyContext)
    requires
        accepts(phase, ctx, Event::Update),
        phase == Phase::KnockedOut ==> ctx.position.y <= FLOOR,
    ensures
        next_state(phase, ctx, Event::Update).1.position.y <= FLOOR,
{
}

/// A knock-out while running, sliding or jumping starts the fall at frame 0
/// with no velocity.
pub proof fn lemma_knock_out_falls(phase: Phase, ctx: RedHatBoyContext)
    requires
        phase == Phase::Running || phase == Phase::Sliding || phase == Phase::Jumping,
    ensures
        ({
            let next = next_state(phase, ctx, Event::KnockOut);
            &&& next.0 == Phase::Falling
            &&& next.1.velocity == Point { x: 0, y: 0 }
            &&& next.1.frame == 0
        }),
{
}

/// Landing on a surface at `y` puts the player at `y - PLAYER_HEIGHT`, and
/// leaves the velocity as it was.
pub proof fn lemma_land_sets_height(phase: Phase, ctx: RedHatBoyContext, y: i16)
    requires
        phase == Phase::Running || phase == Phase::Sliding || phase == Phase::Jumping,
        fits_i16(y - PLAYER_HEIGHT),
    ensures
        ({
            let next = next_state(phase, ctx, Event::Land(y));
            &&& next.0 == Phase::Running
            &&& next.1.position.y == y - PLAYER_HEIGHT
            &&& next.1.velocity == ctx.velocity
        }),
{
}

/// A jump whose integrated height reaches the floor ends on that step: the
/// player runs on, exactly on the floor.
pub proof fn lemma_jump_lands_on_floor(ctx: RedHatBoyContext)
    requires
        ctx.can_update(),
        ctx.position.y + fall_velocity(ctx.velocity.y) >= FLOOR,
    ensures
        next_state(Phase::Jumping, ctx, Event::Update).0 == Phase::Running,
        next_state(Phase::Jumping, ctx, Event::Update).1.position.y == FLOOR,
{
}

} // verus!

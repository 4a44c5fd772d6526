use walk_the_dog::red_hat_boy::{
    Event, Phase, RedHatBoyState, RedHatBoyStateMachine, FALLING_FRAMES, FLOOR, JUMP_SPEED,
    PLAYER_HEIGHT, RUNNING_FRAMES, RUNNING_SPEED, SLIDING_FRAMES, STARTING_POINT,
    TERMINAL_VELOCITY,
};

fn updates(mut sm: RedHatBoyStateMachine, n: usize) -> RedHatBoyStateMachine {
    for _ in 0..n {
        assert!(sm.can_take(Event::Update));
        sm = sm.transition(Event::Update);
    }
    sm
}

fn running() -> RedHatBoyStateMachine {
    RedHatBoyStateMachine::new().transition(Event::Run)
}

#[test]
fn new_player_is_idle_at_the_start() {
    let sm = RedHatBoyStateMachine::new();
    assert_eq!(sm.phase(), Phase::Idle);
    let ctx = *sm.context();
    assert_eq!(ctx.frame, 0);
    assert_eq!(ctx.position.x, STARTING_POINT);
    assert_eq!(ctx.position.y, FLOOR);
    assert_eq!(ctx.velocity.x, 0);
    assert_eq!(ctx.velocity.y, 0);
}

#[test]
fn idle_frame_wraps_at_its_budget() {
    let sm = updates(RedHatBoyStateMachine::new(), 28);
    assert_eq!(sm.context().frame, 28);
    let sm = updates(sm, 1);
    assert_eq!(sm.phase(), Phase::Idle);
    assert_eq!(sm.context().frame, 0);
}

#[test]
fn update_counts_frames_up() {
    let sm = updates(running(), 5);
    assert_eq!(sm.context().frame, 5);
    let sm = updates(sm, 1);
    assert_eq!(sm.context().frame, 6);
}

#[test]
fn gravity_accelerates_up_to_terminal_velocity() {
    for n in [0usize, 1, 7, 19, 20, 21, 40] {
        let sm = updates(RedHatBoyStateMachine::new(), n);
        let expected = std::cmp::min(n as i16, TERMINAL_VELOCITY);
        assert_eq!(sm.context().velocity.y, expected, "after {} updates", n);
    }
}

#[test]
fn update_keeps_player_above_floor() {
    let mut sm = running();
    for _ in 0..50 {
        sm = sm.transition(Event::Update);
        assert!(sm.context().position.y <= FLOOR);
    }
    assert_eq!(sm.context().position.y, FLOOR);
}

#[test]
fn run_then_sixty_nine_updates() {
    let sm = updates(running(), 69);
    assert_eq!(sm.phase(), Phase::Running);
    assert_eq!(sm.context().frame, 0);
    assert_eq!(sm.context().position.x, STARTING_POINT + RUNNING_SPEED * 69);
    assert_eq!(RUNNING_FRAMES as usize * 3, 69);
}

#[test]
fn run_only_from_idle() {
    let sm = running();
    assert_eq!(sm.phase(), Phase::Running);
    assert_eq!(sm.context().velocity.x, RUNNING_SPEED);
    let again = sm.transition(Event::Run);
    assert_eq!(again.phase(), Phase::Running);
    assert_eq!(again.context().velocity.x, RUNNING_SPEED);
}

#[test]
fn knock_out_from_running_sliding_and_jumping() {
    let base = updates(running(), 4);
    let starts = [
        base,
        base.transition(Event::Slide),
        base.transition(Event::Jump),
        updates(base.transition(Event::Jump), 3),
    ];
    for sm in starts {
        let out = sm.transition(Event::KnockOut);
        assert_eq!(out.phase(), Phase::Falling);
        assert_eq!(out.context().frame, 0);
        assert_eq!(out.context().velocity.x, 0);
        assert_eq!(out.context().velocity.y, 0);
        assert_eq!(out.context().position, sm.context().position);
    }
}

#[test]
fn knock_out_is_ignored_when_idle_or_down() {
    let idle = RedHatBoyStateMachine::new();
    assert_eq!(idle.transition(Event::KnockOut).phase(), Phase::Idle);
    let falling = updates(running(), 3).transition(Event::KnockOut);
    let again = falling.transition(Event::KnockOut);
    assert_eq!(again.phase(), Phase::Falling);
    assert_eq!(*again.context(), *falling.context());
}

#[test]
fn land_sets_height_and_keeps_velocity() {
    let base = updates(running(), 2);
    for sm in [base, base.transition(Event::Slide), base.transition(Event::Jump)] {
        let landed = sm.transition(Event::Land(375));
        assert_eq!(landed.phase(), Phase::Running);
        assert_eq!(landed.context().position.y, 375 - PLAYER_HEIGHT);
        assert_eq!(landed.context().velocity, sm.context().velocity);
    }
}

#[test]
fn land_is_refused_when_it_would_overflow() {
    let sm = running();
    assert!(!sm.can_take(Event::Land(i16::MIN)));
    assert!(sm.can_take(Event::Land(i16::MIN + PLAYER_HEIGHT)));
    assert!(RedHatBoyStateMachine::new().can_take(Event::Land(i16::MIN)));
}

#[test]
fn jump_sets_upward_speed_and_lands_on_floor() {
    let sm = running().transition(Event::Jump);
    assert_eq!(sm.phase(), Phase::Jumping);
    assert_eq!(sm.context().velocity.y, JUMP_SPEED);
    let mut sm = sm;
    let mut steps = 0;
    while sm.phase() == Phase::Jumping {
        sm = sm.transition(Event::Update);
        steps += 1;
        assert!(steps < 100);
    }
    assert_eq!(sm.phase(), Phase::Running);
    assert_eq!(sm.context().position.y, FLOOR);
    assert_eq!(sm.context().frame, 0);
    assert_eq!(steps, 50);
}

#[test]
fn slide_ends_when_its_frames_wrap() {
    let sm = running().transition(Event::Slide);
    assert_eq!(sm.phase(), Phase::Sliding);
    let sm = updates(sm, SLIDING_FRAMES as usize - 1);
    assert_eq!(sm.phase(), Phase::Sliding);
    assert_eq!(sm.context().frame, SLIDING_FRAMES - 1);
    let sm = updates(sm, 1);
    assert_eq!(sm.phase(), Phase::Running);
    assert_eq!(sm.context().frame, 0);
}

#[test]
fn fall_ends_knocked_out() {
    let sm = running().transition(Event::KnockOut);
    let sm = updates(sm, FALLING_FRAMES as usize - 1);
    assert_eq!(sm.phase(), Phase::Falling);
    let sm = updates(sm, 1);
    assert_eq!(sm.phase(), Phase::KnockedOut);
    let frozen = updates(sm, 10);
    assert_eq!(frozen.phase(), Phase::KnockedOut);
    assert_eq!(*frozen.context(), *sm.context());
}

#[test]
fn typestate_moves() {
    let idle = RedHatBoyState::new();
    assert_eq!(idle.frame_name(), "Idle");
    let running = idle.run();
    assert_eq!(running.frame_name(), "Run");
    assert_eq!(running.context().velocity.x, RUNNING_SPEED);
    let jumping = running.jump();
    assert_eq!(jumping.frame_name(), "Jump");
    let sliding = running.slide();
    assert_eq!(sliding.frame_name(), "Slide");
    let stood = sliding.stand();
    assert_eq!(stood.context().frame, 0);
    let falling = running.knock_out();
    assert_eq!(falling.frame_name(), "Dead");
    let out = falling.knock_out();
    assert_eq!(out.frame_name(), "Dead");
    assert_eq!(*out.context(), *falling.context());
}

#[test]
fn machine_frame_names() {
    let sm = RedHatBoyStateMachine::new();
    assert_eq!(sm.frame_name(), "Idle");
    assert_eq!(running().frame_name(), "Run");
    assert_eq!(running().transition(Event::Slide).frame_name(), "Slide");
    assert_eq!(running().transition(Event::Jump).frame_name(), "Jump");
    assert_eq!(running().transition(Event::KnockOut).frame_name(), "Dead");
}

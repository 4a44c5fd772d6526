use walk_the_dog::game::{Image, Platform, RedHatBoy, StepError, Walk, WalkTheDog};
use walk_the_dog::game_loop::{GameLoop, FRAME_SIZE, TICKS_PER_MS};
use walk_the_dog::geometry::Point;
use walk_the_dog::input::KeyState;
use walk_the_dog::red_hat_boy::{Phase, STARTING_POINT};
use walk_the_dog::sheet::{Cell, Sheet, SheetRect};

fn loaded() -> WalkTheDog {
    let c = Cell {
        frame: SheetRect { x: 0, y: 0, w: 160, h: 136 },
        sprite_source_size: SheetRect { x: 0, y: 0, w: 160, h: 136 },
    };
    let mut boy = Sheet::new();
    for group in 1..=10 {
        boy.insert(format!("Idle ({}).png", group), c);
    }
    let mut tiles = Sheet::new();
    tiles.insert("13.png".to_string(), c);
    WalkTheDog::Loaded(Walk::new(
        RedHatBoy::new(boy),
        Image::new(Point { x: 0, y: 0 }, 1200, 600),
        Image::new(Point { x: 150, y: 546 }, 90, 54),
        Platform::new(tiles, Point { x: 370, y: 375 }),
    ))
}

fn idle_frame(game: &WalkTheDog) -> u8 {
    match game {
        WalkTheDog::Loaded(walk) => walk.boy.state_machine.context().frame,
        WalkTheDog::Loading => panic!("not loaded"),
    }
}

#[test]
fn one_frame_is_a_sixtieth_of_a_second() {
    assert_eq!(FRAME_SIZE * 60, 1000 * TICKS_PER_MS);
}

#[test]
fn no_step_until_more_than_one_frame_is_pending() {
    let mut game_loop = GameLoop::new(0);
    let mut game = WalkTheDog::new();
    assert_eq!(game_loop.tick(FRAME_SIZE, &mut game, &KeyState::new()), Ok(0));
    assert_eq!(game_loop.accumulated_delta, FRAME_SIZE);
    assert_eq!(game_loop.last_frame, FRAME_SIZE);
    assert_eq!(game_loop.tick(FRAME_SIZE + 1, &mut game, &KeyState::new()), Ok(1));
    assert_eq!(game_loop.accumulated_delta, 1);
}

#[test]
fn catch_up_runs_every_pending_step() {
    let mut game_loop = GameLoop::new(500);
    let mut game = loaded();
    let keys = KeyState::new();
    assert_eq!(game_loop.tick(500 + 5 * FRAME_SIZE + 1, &mut game, &keys), Ok(5));
    assert_eq!(game_loop.accumulated_delta, 1);
    assert_eq!(game_loop.last_frame, 500 + 5 * FRAME_SIZE + 1);
    assert_eq!(idle_frame(&game), 5);
    assert_eq!(game_loop.tick(500 + 7 * FRAME_SIZE, &mut game, &keys), Ok(1));
    assert_eq!(game_loop.accumulated_delta, FRAME_SIZE);
    assert_eq!(idle_frame(&game), 6);
}

#[test]
fn time_going_backwards_runs_nothing() {
    let mut game_loop = GameLoop::new(10_000);
    let mut game = loaded();
    assert_eq!(game_loop.tick(4_000, &mut game, &KeyState::new()), Ok(0));
    assert_eq!(game_loop.accumulated_delta, -6_000);
    assert_eq!(idle_frame(&game), 0);
}

#[test]
fn loop_stops_at_a_failing_step() {
    let mut game_loop = GameLoop::new(0);
    let mut game = WalkTheDog::Loaded(Walk::new(
        RedHatBoy::new(Sheet::new()),
        Image::new(Point { x: 0, y: 0 }, 1200, 600),
        Image::new(Point { x: 150, y: 546 }, 90, 54),
        Platform::new(Sheet::new(), Point { x: 370, y: 375 }),
    ));
    assert_eq!(
        game_loop.tick(3 * FRAME_SIZE, &mut game, &KeyState::new()),
        Err(StepError::MissingSprite)
    );
    match &game {
        WalkTheDog::Loaded(walk) => {
            assert_eq!(walk.boy.state_machine.phase(), Phase::Idle);
            assert_eq!(walk.boy.state_machine.context().position.x, STARTING_POINT);
        }
        WalkTheDog::Loading => panic!("not loaded"),
    }
}

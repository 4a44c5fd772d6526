use walk_the_dog::game::{
    AlreadyInitialized, Image, Platform, RedHatBoy, StepError, Walk, WalkTheDog, JUMP_KEY,
    RUN_KEY, SLIDE_KEY,
};
use walk_the_dog::geometry::{Point, Rect};
use walk_the_dog::input::KeyState;
use walk_the_dog::red_hat_boy::{Event, Phase, FALLING_FRAMES, FLOOR, PLAYER_HEIGHT};
use walk_the_dog::sheet::{sprite_key, Cell, Sheet, SheetRect};

fn cell(w: i16, h: i16, dx: i16, dy: i16) -> Cell {
    Cell {
        frame: SheetRect { x: 0, y: 0, w, h },
        sprite_source_size: SheetRect { x: dx, y: dy, w, h },
    }
}

fn boy_sheet() -> Sheet {
    let mut sheet = Sheet::new();
    for (label, count) in [("Idle", 10u8), ("Run", 8), ("Jump", 12), ("Slide", 5), ("Dead", 10)] {
        for group in 1..=count {
            sheet.insert(format!("{} ({}).png", label, group), cell(160, 136, 0, 0));
        }
    }
    sheet
}

fn tile_sheet() -> Sheet {
    let mut sheet = Sheet::new();
    sheet.insert("13.png".to_string(), cell(128, 93, 0, 0));
    sheet
}

fn level_with_stone_at(x: i16) -> Walk {
    Walk::new(
        RedHatBoy::new(boy_sheet()),
        Image::new(Point { x: 0, y: 0 }, 1200, 600),
        Image::new(Point { x, y: 546 }, 90, 54),
        Platform::new(tile_sheet(), Point { x: 370, y: 375 }),
    )
}

fn level() -> Walk {
    level_with_stone_at(150)
}

fn no_keys() -> KeyState {
    KeyState::new()
}

#[test]
fn sprite_keys_group_three_frames() {
    assert_eq!(sprite_key("Run", 0), "Run (1).png");
    assert_eq!(sprite_key("Run", 2), "Run (1).png");
    assert_eq!(sprite_key("Run", 3), "Run (2).png");
    assert_eq!(sprite_key("Idle", 28), "Idle (10).png");
    assert_eq!(sprite_key("Jump", 34), "Jump (12).png");
    assert_eq!(sprite_key("Dead", 255), "Dead (86).png");
    assert_eq!(sprite_key("X", 27), "X (10).png");
    assert_eq!(sprite_key("X", 254), "X (85).png");
}

#[test]
fn sheet_insert_and_get() {
    let mut sheet = Sheet::new();
    assert!(sheet.get("a.png").is_none());
    sheet.insert("a.png".to_string(), cell(1, 2, 3, 4));
    sheet.insert("b.png".to_string(), cell(5, 6, 7, 8));
    assert_eq!(sheet.get("a.png"), Some(&cell(1, 2, 3, 4)));
    sheet.insert("a.png".to_string(), cell(9, 9, 9, 9));
    assert_eq!(sheet.get("a.png"), Some(&cell(9, 9, 9, 9)));
    assert_eq!(sheet.get("b.png"), Some(&cell(5, 6, 7, 8)));
    assert!(sheet.get("c.png").is_none());
}

#[test]
fn key_state_tracks_pressed_keys() {
    let mut keys = KeyState::new();
    assert!(!keys.is_pressed("Space"));
    keys.set_pressed("Space");
    keys.set_pressed("ArrowDown");
    keys.set_pressed("Space");
    assert!(keys.is_pressed("Space"));
    assert!(keys.is_pressed("ArrowDown"));
    keys.set_released("Space");
    assert!(!keys.is_pressed("Space"));
    assert!(keys.is_pressed("ArrowDown"));
    keys.set_released("Space");
    assert!(!keys.is_pressed("Space"));
}

#[test]
fn boy_frame_name_and_boxes() {
    let mut sheet = boy_sheet();
    sheet.insert("Idle (1).png".to_string(), cell(160, 136, 10, -5));
    let boy = RedHatBoy::new(sheet);
    assert_eq!(boy.frame_name(), "Idle (1).png");
    assert_eq!(boy.current_sprite(), Some(&cell(160, 136, 10, -5)));
    assert_eq!(boy.destination_box(), Rect::new_from_x_y(-10, FLOOR - 5, 160, 136));
    assert_eq!(boy.bounding_box(), Rect::new_from_x_y(46, FLOOR + 9, 78, 122));
    assert_eq!(boy.try_destination_box(), Ok(boy.destination_box()));
    assert_eq!(boy.try_bounding_box(), Ok(boy.bounding_box()));
}

#[test]
fn boy_without_its_sprite() {
    let boy = RedHatBoy::new(Sheet::new());
    assert!(boy.current_sprite().is_none());
    assert_eq!(boy.try_destination_box(), Err(StepError::MissingSprite));
    assert_eq!(boy.try_bounding_box(), Err(StepError::MissingSprite));
}

#[test]
fn boy_box_out_of_range() {
    let mut sheet = Sheet::new();
    sheet.insert("Idle (1).png".to_string(), cell(160, 136, i16::MIN, 0));
    let boy = RedHatBoy::new(sheet);
    assert_eq!(boy.try_destination_box(), Err(StepError::OutOfRange));
    let mut sheet = Sheet::new();
    sheet.insert("Idle (1).png".to_string(), cell(i16::MIN + 10, 136, 0, 0));
    let boy = RedHatBoy::new(sheet);
    assert!(boy.try_destination_box().is_ok());
    assert_eq!(boy.try_bounding_box(), Err(StepError::OutOfRange));
}

#[test]
fn boy_moves() {
    let mut boy = RedHatBoy::new(boy_sheet());
    boy.run_right();
    assert_eq!(boy.walking_speed(), 4);
    boy.update();
    assert_eq!(boy.velocity_y(), 1);
    assert_eq!(boy.pos_y(), FLOOR);
    boy.jump();
    assert_eq!(boy.velocity_y(), -25);
    boy.land_on(400);
    assert_eq!(boy.pos_y(), 400 - PLAYER_HEIGHT);
    assert_eq!(boy.state_machine.phase(), Phase::Running);
    boy.slide();
    assert_eq!(boy.state_machine.phase(), Phase::Sliding);
    boy.knock_out();
    assert_eq!(boy.state_machine.phase(), Phase::Falling);
    assert_eq!(boy.try_take(Event::Land(i16::MIN)), Ok(()));
    assert_eq!(boy.state_machine.phase(), Phase::Falling);
}

#[test]
fn try_take_refuses_overflow() {
    let mut boy = RedHatBoy::new(boy_sheet());
    boy.run_right();
    let before = *boy.state_machine.context();
    assert_eq!(boy.try_take(Event::Land(i16::MIN)), Err(StepError::OutOfRange));
    assert_eq!(*boy.state_machine.context(), before);
    assert_eq!(boy.try_take(Event::Land(500)), Ok(()));
    assert_eq!(boy.pos_y(), 500 - PLAYER_HEIGHT);
}

#[test]
fn platform_boxes_split_into_three() {
    let platform = Platform::new(tile_sheet(), Point { x: 370, y: 375 });
    assert_eq!(platform.destination_box(), Rect::new_from_x_y(370, 375, 384, 93));
    assert_eq!(platform.try_bounding_boxes(), Ok(platform.bounding_boxes()));
    let boxes = platform.bounding_boxes();
    assert_eq!(
        boxes,
        vec![
            Rect::new_from_x_y(370, 375, 60, 54),
            Rect::new_from_x_y(430, 375, 264, 93),
            Rect::new_from_x_y(694, 375, 60, 54),
        ]
    );
}

#[test]
fn platform_without_its_tile() {
    let platform = Platform::new(Sheet::new(), Point { x: 0, y: 0 });
    assert_eq!(platform.try_bounding_boxes(), Err(StepError::MissingSprite));
    let mut wide = Sheet::new();
    wide.insert("13.png".to_string(), cell(20000, 10, 0, 0));
    let platform = Platform::new(wide, Point { x: 0, y: 0 });
    assert_eq!(platform.try_bounding_boxes(), Err(StepError::OutOfRange));
    let platform = Platform::new(tile_sheet(), Point { x: i16::MAX - 100, y: 0 });
    assert_eq!(platform.try_bounding_boxes(), Err(StepError::OutOfRange));
}

#[test]
fn image_bounding_box() {
    let image = Image::new(Point { x: 150, y: 546 }, 90, 54);
    assert_eq!(*image.bounding_box(), Rect::new_from_x_y(150, 546, 90, 54));
    assert_eq!(image.position, Point { x: 150, y: 546 });
}

#[test]
fn loading_game_does_not_move() {
    let mut game = WalkTheDog::new();
    assert_eq!(game.update(&no_keys()), Ok(()));
    assert!(matches!(game, WalkTheDog::Loading));
}

#[test]
fn keys_steer_the_player() {
    let mut walk = level();
    let mut keys = KeyState::new();
    keys.set_pressed(RUN_KEY);
    assert_eq!(walk.update(&keys), Ok(()));
    assert_eq!(walk.boy.state_machine.phase(), Phase::Running);
    assert_eq!(walk.boy.state_machine.context().position.x, -16);
    let mut keys = KeyState::new();
    keys.set_pressed(SLIDE_KEY);
    assert_eq!(walk.update(&keys), Ok(()));
    assert_eq!(walk.boy.state_machine.phase(), Phase::Sliding);
    let mut keys = KeyState::new();
    keys.set_pressed(JUMP_KEY);
    assert_eq!(walk.update(&keys), Ok(()));
    assert_eq!(walk.boy.state_machine.phase(), Phase::Sliding);
}

#[test]
fn running_into_the_stone_knocks_out() {
    let mut walk = level();
    walk.boy.run_right();
    let keys = no_keys();
    let mut steps = 0;
    loop {
        let next_box = {
            let mut probe = RedHatBoy::new(boy_sheet());
            probe.state_machine = walk.boy.state_machine.transition(Event::Update);
            probe.bounding_box()
        };
        let hits = next_box.intersects(walk.stone.bounding_box());
        assert_eq!(walk.update(&keys), Ok(()));
        steps += 1;
        if hits {
            assert_eq!(walk.boy.state_machine.phase(), Phase::Falling);
            break;
        }
        assert_eq!(walk.boy.state_machine.phase(), Phase::Running);
        assert!(steps < 100);
    }
    assert_eq!(steps, 10);
    for _ in 0..FALLING_FRAMES - 1 {
        assert_eq!(walk.update(&keys), Ok(()));
        assert_eq!(walk.boy.state_machine.phase(), Phase::Falling);
    }
    assert_eq!(walk.update(&keys), Ok(()));
    assert_eq!(walk.boy.state_machine.phase(), Phase::KnockedOut);
}

#[test]
fn jumping_onto_the_platform_lands() {
    let mut walk = level_with_stone_at(1000);
    walk.boy.run_right();
    let keys = no_keys();
    for _ in 0..40 {
        assert_eq!(walk.update(&keys), Ok(()));
    }
    let mut jump = KeyState::new();
    jump.set_pressed(JUMP_KEY);
    assert_eq!(walk.update(&jump), Ok(()));
    assert_eq!(walk.boy.state_machine.phase(), Phase::Jumping);
    let mut landed = false;
    for _ in 0..60 {
        assert_eq!(walk.update(&keys), Ok(()));
        let phase = walk.boy.state_machine.phase();
        if phase == Phase::Running && walk.boy.pos_y() == 375 - PLAYER_HEIGHT {
            landed = true;
            break;
        }
        assert_ne!(phase, Phase::Falling);
    }
    assert!(landed);
}

#[test]
fn level_step_reports_missing_sprite() {
    let mut walk = Walk::new(
        RedHatBoy::new(Sheet::new()),
        Image::new(Point { x: 0, y: 0 }, 1200, 600),
        Image::new(Point { x: 150, y: 546 }, 90, 54),
        Platform::new(tile_sheet(), Point { x: 370, y: 375 }),
    );
    assert_eq!(walk.update(&no_keys()), Err(StepError::MissingSprite));
    let mut walk = Walk::new(
        RedHatBoy::new(boy_sheet()),
        Image::new(Point { x: 0, y: 0 }, 1200, 600),
        Image::new(Point { x: 150, y: 546 }, 90, 54),
        Platform::new(Sheet::new(), Point { x: 370, y: 375 }),
    );
    assert_eq!(walk.update(&no_keys()), Err(StepError::MissingSprite));
}

#[test]
fn level_layout() {
    let walk = Walk::level(boy_sheet(), tile_sheet(), 1200, 600, 90, 54);
    assert_eq!(walk.stone.bounding_box, Rect::new_from_x_y(150, 546, 90, 54));
    assert_eq!(walk.background.bounding_box, Rect::new_from_x_y(0, 0, 1200, 600));
    assert_eq!(walk.platform.position, Point { x: 370, y: 375 });
    assert_eq!(walk.boy.state_machine.phase(), Phase::Idle);
}

#[test]
fn game_loads_once() {
    let loading = WalkTheDog::new();
    let loaded = loading.initialize(level()).unwrap();
    assert!(matches!(loaded, WalkTheDog::Loaded(_)));
    assert_eq!(loaded.initialize(level()).err(), Some(AlreadyInitialized));
}

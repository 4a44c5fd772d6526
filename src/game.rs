use vstd::prelude::*;

use crate::geometry::{fits_i16, overlaps, Point, Rect};
use crate::red_hat_boy::{
    accepts, next_state, phase_label, starting_context, Event, Phase, RedHatBoyContext, RedHatBoyStateMachine,
};
use crate::input::KeyState;
use crate::sheet::{sprite_key, sprite_name, Cell, Sheet};

verus! {

/// Width of the play field in pixels.
pub const WIDTH: i16 = 1200;

/// Height of the top of a low platform.
pub const LOW_PLATFORM: i16 = 420;

/// Height of the top of a high platform.
pub const HIGH_PLATFORM: i16 = 375;

/// Where the level's stone lies.
pub const STONE_X: i16 = 150;

pub const STONE_Y: i16 = 546;

/// Left end of the level's platform.
pub const PLATFORM_X: i16 = 370;

/// Why a simulation step could not be carried out.
#[derive(Clone, Copy, Debug, PartialEq, Eq, Structural)]
pub enum StepError {
    /// The sprite sheet has no frame for the player's current animation.
    MissingSprite,
    /// A position or a size left the range of the integer types.
    OutOfRange,
}

/// The player's state and context.
pub type BoyState = (Phase, RedHatBoyContext);

/// Applies `event` if its arithmetic fits the integer types.
pub open spec fn apply_event(s: BoyState, event: Event) -> Result<BoyState, StepError> {
    if accepts(s.0, s.1, event) {
        Ok(next_state(s.0, s.1, event))
    } else {
        Err(StepError::OutOfRange)
    }
}

/// Where the sprite lands on screen: the player's position moved by the
/// cell's offset, with the cell's size.
pub open spec fn destination_of(position: Point, cell: Cell) -> Option<Rect> {
    let x = position.x + cell.sprite_source_size.x;
    let y = position.y + cell.sprite_source_size.y;
    if fits_i16(x) && fits_i16(y) {
        Some(
            Rect {
                position: Point { x: x as i16, y: y as i16 },
                width: cell.frame.w,
                height: cell.frame.h,
            },
        )
    } else {
        None
    }
}

pub const BOX_X_OFFSET: i16 = 56;

pub const BOX_Y_OFFSET: i16 = 14;

pub const BOX_WIDTH_OFFSET: i16 = 82;

/// The part of the sprite's rectangle that collides: the transparent margins
/// are cut off.
pub open spec fn collision_box(d: Rect) -> Option<Rect> {
    let x = d.position.x + BOX_X_OFFSET;
    let y = d.position.y + BOX_Y_OFFSET;
    let w = d.width - BOX_WIDTH_OFFSET;
    let h = d.height - BOX_Y_OFFSET;
    if fits_i16(x) && fits_i16(y) && fits_i16(w) && fits_i16(h) {
        Some(
            Rect {
                position: Point { x: x as i16, y: y as i16 },
                width: w as i16,
                height: h as i16,
            },
        )
    } else {
        None
    }
}

/// Sheet key of the sprite that shows the player in state `s`.
pub open spec fn frame_key(s: BoyState) -> Seq<char> {
    sprite_name(phase_label(s.0), s.1.frame)
}

pub open spec fn boy_destination(s: BoyState, sheet: Map<Seq<char>, Cell>) -> Result<
    Rect,
    StepError,
> {
    if !sheet.contains_key(frame_key(s)) {
        Err(StepError::MissingSprite)
    } else {
        match destination_of(s.1.position, sheet[frame_key(s)]) {
            Some(d) => Ok(d),
            None => Err(StepError::OutOfRange),
        }
    }
}

pub open spec fn boy_bounding_box(s: BoyState, sheet: Map<Seq<char>, Cell>) -> Result<
    Rect,
    StepError,
> {
    match boy_destination(s, sheet) {
        Ok(d) => match collision_box(d) {
            Some(b) => Ok(b),
            None => Err(StepError::OutOfRange),
        },
        Err(e) => Err(e),
    }
}

/// A static picture in the level, such as the background or a stone.
#[derive(Clone, Copy, Debug, PartialEq, Eq, Structural)]
pub struct Image {
    pub position: Point,
    pub bounding_box: Rect,
}

impl Image {
    /// A picture of the given size at `position`; it collides over its whole
    /// extent.
    pub fn new(position: Point, width: i16, height: i16) -> (r: Image)
        ensures
            r.position == position,
            r.bounding_box == (Rect { position, width, height }),
    {
        Image { position, bounding_box: Rect { position, width, height } }
    }

    pub fn bounding_box(&self) -> (r: &Rect)
        ensures
            *r == self.bounding_box,
    {
        &self.bounding_box
    }
}

/// The player: its state machine and the sprite sheet that draws it.
pub struct RedHatBoy {
    pub state_machine: RedHatBoyStateMachine,
    pub sprite_sheet: Sheet,
}

impl RedHatBoy {
    pub open spec fn state(&self) -> BoyState {
        self.state_machine@
    }

    /// The player at rest at the starting point.
    pub fn new(sprite_sheet: Sheet) -> (r: RedHatBoy)
        ensures
            r.state() == (Phase::Idle, starting_context()),
            r.sprite_sheet@ == sprite_sheet@,
    {
        RedHatBoy { state_machine: RedHatBoyStateMachine::new(), sprite_sheet }
    }

    fn take(&mut self, event: Event)
        requires
            accepts(old(self).state().0, old(self).state().1, event),
        ensures
            final(self).state() == next_state(old(self).state().0, old(self).state().1, event),
            final(self).sprite_sheet@ == old(self).sprite_sheet@,
    {
        self.state_machine = self.state_machine.transition(event);
    }

    /// Applies `event`, or reports that its arithmetic would not fit.
    pub fn try_take(&mut self, event: Event) -> (r: Result<(), StepError>)
        ensures
            match apply_event(old(self).state(), event) {
                Ok(s) => r == Ok::<(), StepError>(()) && final(self).state() == s,
                Err(e) => r == Err::<(), StepError>(e) && final(self).state() == old(self).state(),
            },
            final(self).sprite_sheet@ == old(self).sprite_sheet@,
    {
        if self.state_machine.can_take(event) {
            self.take(event);
            Ok(())
        } else {
            Err(StepError::OutOfRange)
        }
    }

    pub fn run_right(&mut self)
        requires
            accepts(old(self).state().0, old(self).state().1, Event::Run),
        ensures
            final(self).state() == next_state(old(self).state().0, old(self).state().1, Event::Run),
            final(self).sprite_sheet@ == old(self).sprite_sheet@,
    {
        self.take(Event::Run);
    }

    pub fn slide(&mut self)
        ensures
            final(self).state() == next_state(
                old(self).state().0,
                old(self).state().1,
                Event::Slide,
            ),
            final(self).sprite_sheet@ == old(self).sprite_sheet@,
    {
        self.take(Event::Slide);
    }

    pub fn jump(&mut self)
        ensures
            final(self).state() == next_state(old(self).state().0, old(self).state().1, Event::Jump),
            final(self).sprite_sheet@ == old(self).sprite_sheet@,
    {
        self.take(Event::Jump);
    }

    pub fn update(&mut self)
        requires
            accepts(old(self).state().0, old(self).state().1, Event::Update),
        ensures
            final(self).state() == next_state(
                old(self).state().0,
                old(self).state().1,
                Event::Update,
            ),
            final(self).sprite_sheet@ == old(self).sprite_sheet@,
    {
        self.take(Event::Update);
    }

    pub fn knock_out(&mut self)
        ensures
            final(self).state() == next_state(
                old(self).state().0,
                old(self).state().1,
                Event::KnockOut,
            ),
            final(self).sprite_sheet@ == old(self).sprite_sheet@,
    {
        self.take(Event::KnockOut);
    }

    pub fn land_on(&mut self, position: i16)
        requires
            accepts(old(self).state().0, old(self).state().1, Event::Land(position)),
        ensures
            final(self).state() == next_state(
                old(self).state().0,
                old(self).state().1,
                Event::Land(position),
            ),
            final(self).sprite_sheet@ == old(self).sprite_sheet@,
    {
        self.take(Event::Land(position));
    }

    pub fn pos_y(&self) -> (r: i16)
        ensures
            r == self.state().1.position.y,
    {
        self.state_machine.context().position.y
    }

    pub fn velocity_y(&self) -> (r: i16)
        ensures
            r == self.state().1.velocity.y,
    {
        self.state_machine.context().velocity.y
    }

    pub fn walking_speed(&self) -> (r: i16)
        ensures
            r == self.state().1.velocity.x,
    {
        self.state_machine.context().velocity.x
    }

    /// Sheet key of the sprite for the current state and animation frame.
    pub fn frame_name(&self) -> (r: String)
        ensures
            r@ == frame_key(self.state()),
    {
        sprite_key(self.state_machine.frame_name(), self.state_machine.context().frame)
    }

    pub fn current_sprite(&self) -> (r: Option<&Cell>)
        ensures
            match r {
                Some(c) => self.sprite_sheet@.contains_key(frame_key(self.state())) && *c
                    == self.sprite_sheet@[frame_key(self.state())],
                None => !self.sprite_sheet@.contains_key(frame_key(self.state())),
            },
    {
        let name = self.frame_name();
        self.sprite_sheet.get(name.as_str())
    }

    /// Where the current sprite is drawn. The sheet must hold the sprite, and
    /// the box must fit the integer types.
    pub fn destination_box(&self) -> (r: Rect)
        requires
            boy_destination(self.state(), self.sprite_sheet@) is Ok,
        ensures
            Ok::<Rect, StepError>(r) == boy_destination(self.state(), self.sprite_sheet@),
    {
        let sprite = self.current_sprite().unwrap();
        let position = self.state_machine.context().position;
        Rect::new_from_x_y(
            position.x + sprite.sprite_source_size.x,
            position.y + sprite.sprite_source_size.y,
            sprite.frame.w,
            sprite.frame.h,
        )
    }

    /// The part of the sprite that collides with the level.
    pub fn bounding_box(&self) -> (r: Rect)
        requires
            boy_bounding_box(self.state(), self.sprite_sheet@) is Ok,
        ensures
            Ok::<Rect, StepError>(r) == boy_bounding_box(self.state(), self.sprite_sheet@),
    {
        let d = self.destination_box();
        Rect::new_from_x_y(
            d.position.x + BOX_X_OFFSET,
            d.position.y + BOX_Y_OFFSET,
            d.width - BOX_WIDTH_OFFSET,
            d.height - BOX_Y_OFFSET,
        )
    }

    /// `destination_box`, or why it cannot be had.
    pub fn try_destination_box(&self) -> (r: Result<Rect, StepError>)
        ensures
            r == boy_destination(self.state(), self.sprite_sheet@),
    {
        match self.current_sprite() {
            None => Err(StepError::MissingSprite),
            Some(sprite) => {
                let position = self.state_machine.context().position;
                let x = position.x as i32 + sprite.sprite_source_size.x as i32;
                let y = position.y as i32 + sprite.sprite_source_size.y as i32;
                if fits_i32_in_i16(x) && fits_i32_in_i16(y) {
                    Ok(self.destination_box())
                } else {
                    Err(StepError::OutOfRange)
                }
            },
        }
    }

    /// `bounding_box`, or why it cannot be had.
    pub fn try_bounding_box(&self) -> (r: Result<Rect, StepError>)
        ensures
            r == boy_bounding_box(self.state(), self.sprite_sheet@),
    {
        match self.try_destination_box() {
            Err(e) => Err(e),
            Ok(d) => {
                let x = d.position.x as i32 + BOX_X_OFFSET as i32;
                let y = d.position.y as i32 + BOX_Y_OFFSET as i32;
                let w = d.width as i32 - BOX_WIDTH_OFFSET as i32;
                let h = d.height as i32 - BOX_Y_OFFSET as i32;
                if fits_i32_in_i16(x) && fits_i32_in_i16(y) && fits_i32_in_i16(w)
                    && fits_i32_in_i16(h) {
                    Ok(self.bounding_box())
                } else {
                    Err(StepError::OutOfRange)
                }
            },
        }
    }
}

/// Sheet key of the platform's tile.
pub const PLATFORM_TILE: &'static str = "13.png";

/// Width of each end cap of a platform.
pub const PLATFORM_CAP_WIDTH: i16 = 60;

/// Height of each end cap of a platform.
pub const PLATFORM_CAP_HEIGHT: i16 = 54;

/// The platform's rectangle: three tiles wide, at `position`.
pub open spec fn platform_destination(position: Point, sheet: Map<Seq<char>, Cell>) -> Result<
    Rect,
    StepError,
> {
    if !sheet.contains_key(PLATFORM_TILE@) {
        Err(StepError::MissingSprite)
    } else {
        let tile = sheet[PLATFORM_TILE@];
        let w = tile.frame.w * 3;
        if fits_i16(w) {
            Ok(Rect { position, width: w as i16, height: tile.frame.h })
        } else {
            Err(StepError::OutOfRange)
        }
    }
}

/// The three colliding parts of a platform: left cap, middle span, right cap.
pub open spec fn platform_boxes(d: Rect) -> Option<Seq<Rect>> {
    let middle_x = d.position.x + PLATFORM_CAP_WIDTH;
    let middle_w = d.width - PLATFORM_CAP_WIDTH * 2;
    let right_x = d.position.x + d.width - PLATFORM_CAP_WIDTH;
    if fits_i16(middle_x) && fits_i16(middle_w) && fits_i16(right_x) {
        Some(
            seq![
                Rect {
                    position: d.position,
                    width: PLATFORM_CAP_WIDTH,
                    height: PLATFORM_CAP_HEIGHT,
                },
                Rect {
                    position: Point { x: middle_x as i16, y: d.position.y },
                    width: middle_w as i16,
                    height: d.height,
                },
                Rect {
                    position: Point { x: right_x as i16, y: d.position.y },
                    width: PLATFORM_CAP_WIDTH,
                    height: PLATFORM_CAP_HEIGHT,
                },
            ],
        )
    } else {
        None
    }
}

pub open spec fn platform_bounding_boxes(position: Point, sheet: Map<Seq<char>, Cell>) -> Result<
    Seq<Rect>,
    StepError,
> {
    match platform_destination(position, sheet) {
        Ok(d) => match platform_boxes(d) {
            Some(b) => Ok(b),
            None => Err(StepError::OutOfRange),
        },
        Err(e) => Err(e),
    }
}

/// A platform the player can land on, drawn from a tile sheet.
pub struct Platform {
    pub sheet: Sheet,
    pub position: Point,
}

impl Platform {
    pub fn new(sheet: Sheet, position: Point) -> (r: Platform)
        ensures
            r.sheet@ == sheet@,
            r.position == position,
    {
        Platform { sheet, position }
    }

    /// The sheet holds the platform's tile, and the platform's boxes fit the
    /// integer types.
    pub open spec fn wf(&self) -> bool {
        platform_bounding_boxes(self.position, self.sheet@) is Ok
    }

    /// The platform's rectangle, three tiles wide.
    pub fn destination_box(&self) -> (r: Rect)
        requires
            platform_destination(self.position, self.sheet@) is Ok,
        ensures
            Ok::<Rect, StepError>(r) == platform_destination(self.position, self.sheet@),
    {
        let tile = self.sheet.get(PLATFORM_TILE).unwrap();
        Rect::new(self.position, tile.frame.w * 3, tile.frame.h)
    }

    /// Left cap, middle span and right cap, in that order.
    pub fn bounding_boxes(&self) -> (r: Vec<Rect>)
        requires
            self.wf(),
        ensures
            Ok::<Seq<Rect>, StepError>(r@) == platform_bounding_boxes(
                self.position,
                self.sheet@,
            ),
    {
        let d = self.destination_box();
        let middle_width = d.width - PLATFORM_CAP_WIDTH * 2;
        let right_x = (d.position.x as i32 + d.width as i32 - PLATFORM_CAP_WIDTH as i32) as i16;
        let boxes = vec![
            Rect::new(d.position, PLATFORM_CAP_WIDTH, PLATFORM_CAP_HEIGHT),
            Rect::new_from_x_y(
                d.position.x + PLATFORM_CAP_WIDTH,
                d.position.y,
                middle_width,
                d.height,
            ),
            Rect::new_from_x_y(right_x, d.position.y, PLATFORM_CAP_WIDTH, PLATFORM_CAP_HEIGHT),
        ];
        assert(boxes@ =~= platform_boxes(d)->0);
        boxes
    }

    /// `bounding_boxes`, or why they cannot be had.
    pub fn try_bounding_boxes(&self) -> (r: Result<Vec<Rect>, StepError>)
        ensures
            match r {
                Ok(b) => platform_bounding_boxes(self.position, self.sheet@) == Ok::<
                    Seq<Rect>,
                    StepError,
                >(b@),
                Err(e) => platform_bounding_boxes(self.position, self.sheet@) == Err::<
                    Seq<Rect>,
                    StepError,
                >(e),
            },
    {
        match self.sheet.get(PLATFORM_TILE) {
            None => Err(StepError::MissingSprite),
            Some(tile) => {
                let w = tile.frame.w as i32 * 3;
                if !fits_i32_in_i16(w) {
                    return Err(StepError::OutOfRange);
                }
                let d = self.destination_box();
                let middle_x = d.position.x as i32 + PLATFORM_CAP_WIDTH as i32;
                let middle_w = d.width as i32 - PLATFORM_CAP_WIDTH as i32 * 2;
                let right_x = d.position.x as i32 + d.width as i32 - PLATFORM_CAP_WIDTH as i32;
                if fits_i32_in_i16(middle_x) && fits_i32_in_i16(middle_w) && fits_i32_in_i16(
                    right_x,
                ) {
                    Ok(self.bounding_boxes())
                } else {
                    Err(StepError::OutOfRange)
                }
            },
        }
    }
}

/// Key that starts the run.
pub const RUN_KEY: &'static str = "ArrowRight";

/// Key that jumps.
pub const JUMP_KEY: &'static str = "Space";

/// Key that slides.
pub const SLIDE_KEY: &'static str = "ArrowDown";

/// Applies `event` to a successful outcome when `when` holds.
pub open spec fn then_take(r: Result<BoyState, StepError>, when: bool, event: Event) -> Result<
    BoyState,
    StepError,
> {
    match r {
        Ok(s) => if when {
            apply_event(s, event)
        } else {
            Ok(s)
        },
        Err(e) => Err(e),
    }
}

/// The pressed keys turned into events, then one `Update`.
pub open spec fn steer(s: BoyState, keys: Set<Seq<char>>) -> Result<BoyState, StepError> {
    let ran = then_take(Ok(s), keys.contains(RUN_KEY@), Event::Run);
    let jumped = then_take(ran, keys.contains(JUMP_KEY@), Event::Jump);
    let slid = then_take(jumped, keys.contains(SLIDE_KEY@), Event::Slide);
    then_take(slid, true, Event::Update)
}

/// Meeting one part of a platform: a player moving down from above lands on
/// its top, any other contact knocks the player out.
pub open spec fn meet_platform_box(
    s: BoyState,
    sheet: Map<Seq<char>, Cell>,
    part: Rect,
    platform_top: i16,
) -> Result<BoyState, StepError> {
    match boy_bounding_box(s, sheet) {
        Ok(b) => if overlaps(b, part) {
            if s.1.velocity.y > 0 && s.1.position.y < platform_top {
                apply_event(s, Event::Land(part.position.y))
            } else {
                apply_event(s, Event::KnockOut)
            }
        } else {
            Ok(s)
        },
        Err(e) => Err(e),
    }
}

/// The first `n` parts of a platform met in order, each against the outcome
/// of the one before.
pub open spec fn meet_platform(
    s: BoyState,
    sheet: Map<Seq<char>, Cell>,
    parts: Seq<Rect>,
    platform_top: i16,
    n: nat,
) -> Result<BoyState, StepError>
    decreases n,
{
    if n == 0 {
        Ok(s)
    } else {
        match meet_platform(s, sheet, parts, platform_top, (n - 1) as nat) {
            Ok(t) => meet_platform_box(t, sheet, parts[n - 1], platform_top),
            Err(e) => Err(e),
        }
    }
}

/// Touching a stone always knocks the player out.
pub open spec fn meet_stone(s: BoyState, sheet: Map<Seq<char>, Cell>, stone: Rect) -> Result<
    BoyState,
    StepError,
> {
    match boy_bounding_box(s, sheet) {
        Ok(b) => if overlaps(b, stone) {
            apply_event(s, Event::KnockOut)
        } else {
            Ok(s)
        },
        Err(e) => Err(e),
    }
}

proof fn lemma_platform_error_stays(
    s: BoyState,
    sheet: Map<Seq<char>, Cell>,
    parts: Seq<Rect>,
    platform_top: i16,
    n: nat,
    m: nat,
)
    requires
        n <= m,
        meet_platform(s, sheet, parts, platform_top, n) is Err,
    ensures
        meet_platform(s, sheet, parts, platform_top, m) == meet_platform(
            s,
            sheet,
            parts,
            platform_top,
            n,
        ),
    decreases m,
{
    if n < m {
        lemma_platform_error_stays(s, sheet, parts, platform_top, n, (m - 1) as nat);
    }
}

/// A level: the player, the background, a stone and a platform.
pub struct Walk {
    pub boy: RedHatBoy,
    pub background: Image,
    pub stone: Image,
    pub platform: Platform,
}

impl Walk {
    /// One simulation step from player state `s`: steering by the keys, the
    /// player's own update, then the platform's parts in order, then the stone.
    pub open spec fn step_from(&self, s: BoyState, keys: Set<Seq<char>>) -> Result<
        BoyState,
        StepError,
    > {
        let sheet = self.boy.sprite_sheet@;
        match steer(s, keys) {
            Ok(steered) => match platform_bounding_boxes(self.platform.position, self.platform.sheet@) {
                Ok(parts) => match meet_platform(
                    steered,
                    sheet,
                    parts,
                    self.platform.position.y,
                    parts.len(),
                ) {
                    Ok(landed) => meet_stone(landed, sheet, self.stone.bounding_box),
                    Err(e) => Err(e),
                },
                Err(e) => Err(e),
            },
            Err(e) => Err(e),
        }
    }

    /// Everything but the player's state is the same in both levels.
    pub open spec fn same_scene(&self, other: &Walk) -> bool {
        &&& self.boy.sprite_sheet@ == other.boy.sprite_sheet@
        &&& self.background == other.background
        &&& self.stone == other.stone
        &&& self.platform.sheet@ == other.platform.sheet@
        &&& self.platform.position == other.platform.position
    }

    /// What a step reported, and the player state it left, agree with
    /// `step_from`.
    pub open spec fn stepped(&self, after: &Walk, keys: Set<Seq<char>>, r: Result<(), StepError>) -> bool {
        &&& after.same_scene(self)
        &&& match self.step_from(self.boy.state(), keys) {
            Ok(s) => r == Ok::<(), StepError>(()) && after.boy.state() == s,
            Err(e) => r == Err::<(), StepError>(e),
        }
    }

    /// The player state after `n` steps from `s`, or the first failure.
    pub open spec fn run_from(&self, s: BoyState, keys: Set<Seq<char>>, n: nat) -> Result<
        BoyState,
        StepError,
    >
        decreases n,
    {
        if n == 0 {
            Ok(s)
        } else {
            match self.run_from(s, keys, (n - 1) as nat) {
                Ok(t) => self.step_from(t, keys),
                Err(e) => Err(e),
            }
        }
    }

    /// A failure ends the run: later steps report the same failure.
    pub proof fn lemma_run_error_stays(&self, s: BoyState, keys: Set<Seq<char>>, n: nat, m: nat)
        requires
            n <= m,
            self.run_from(s, keys, n) is Err,
        ensures
            self.run_from(s, keys, m) == self.run_from(s, keys, n),
        decreases m,
    {
        if n < m {
            self.lemma_run_error_stays(s, keys, n, (m - 1) as nat);
        }
    }

    pub fn new(boy: RedHatBoy, background: Image, stone: Image, platform: Platform) -> (r: Walk)
        ensures
            r.boy.state() == boy.state(),
            r.boy.sprite_sheet@ == boy.sprite_sheet@,
            r.background == background,
            r.stone == stone,
            r.platform.sheet@ == platform.sheet@,
            r.platform.position == platform.position,
    {
        Walk { boy, background, stone, platform }
    }

    /// The level: the background at the origin, the stone on the floor ahead
    /// of the player, and a high platform beyond it. The sizes are those of
    /// the two pictures.
    pub fn level(
        boy_sheet: Sheet,
        tile_sheet: Sheet,
        background_width: i16,
        background_height: i16,
        stone_width: i16,
        stone_height: i16,
    ) -> (r: Walk)
        ensures
            r.boy.state() == (Phase::Idle, starting_context()),
            r.boy.sprite_sheet@ == boy_sheet@,
            r.background == (Image {
                position: Point { x: 0, y: 0 },
                bounding_box: Rect {
                    position: Point { x: 0, y: 0 },
                    width: background_width,
                    height: background_height,
                },
            }),
            r.stone == (Image {
                position: Point { x: STONE_X, y: STONE_Y },
                bounding_box: Rect {
                    position: Point { x: STONE_X, y: STONE_Y },
                    width: stone_width,
                    height: stone_height,
                },
            }),
            r.platform.sheet@ == tile_sheet@,
            r.platform.position == (Point { x: PLATFORM_X, y: HIGH_PLATFORM }),
    {
        Walk::new(
            RedHatBoy::new(boy_sheet),
            Image::new(Point { x: 0, y: 0 }, background_width, background_height),
            Image::new(Point { x: STONE_X, y: STONE_Y }, stone_width, stone_height),
            Platform::new(tile_sheet, Point { x: PLATFORM_X, y: HIGH_PLATFORM }),
        )
    }

    /// One simulation step under the keys held down.
    pub fn update(&mut self, keystate: &KeyState) -> (r: Result<(), StepError>)
        ensures
            old(self).stepped(final(self), keystate@, r),
    {
        let ghost start = self.boy.state();
        let ghost keys = keystate@;
        let ghost sheet = self.boy.sprite_sheet@;
        if keystate.is_pressed(RUN_KEY) {
            if let Err(e) = self.boy.try_take(Event::Run) {
                return Err(e);
            }
        }
        if keystate.is_pressed(JUMP_KEY) {
            if let Err(e) = self.boy.try_take(Event::Jump) {
                return Err(e);
            }
        }
        if keystate.is_pressed(SLIDE_KEY) {
            if let Err(e) = self.boy.try_take(Event::Slide) {
                return Err(e);
            }
        }
        if let Err(e) = self.boy.try_take(Event::Update) {
            return Err(e);
        }
        let ghost steered = self.boy.state();
        let parts = match self.platform.try_bounding_boxes() {
            Ok(parts) => parts,
            Err(e) => {
                return Err(e);
            },
        };
        let mut i: usize = 0;
        while i < parts.len()
            invariant
                i <= parts@.len(),
                platform_bounding_boxes(self.platform.position, self.platform.sheet@) == Ok::<
                    Seq<Rect>,
                    StepError,
                >(parts@),
                meet_platform(steered, sheet, parts@, self.platform.position.y, i as nat) == Ok::<
                    BoyState,
                    StepError,
                >(self.boy.state()),
                self.same_scene(old(self)),
                steer(start, keys) == Ok::<BoyState, StepError>(steered),
                start == old(self).boy.state(),
                keys == keystate@,
                sheet == old(self).boy.sprite_sheet@,
            decreases parts@.len() - i,
        {
            let b = match self.boy.try_bounding_box() {
                Ok(b) => b,
                Err(e) => {
                    proof {
                        lemma_platform_error_stays(
                            steered,
                            sheet,
                            parts@,
                            self.platform.position.y,
                            (i + 1) as nat,
                            parts@.len(),
                        );
                    }
                    return Err(e);
                },
            };
            if b.intersects(&parts[i]) {
                if self.boy.velocity_y() > 0 && self.boy.pos_y() < self.platform.position.y {
                    if let Err(e) = self.boy.try_take(Event::Land(parts[i].position.y)) {
                        proof {
                            lemma_platform_error_stays(
                                steered,
                                sheet,
                                parts@,
                                self.platform.position.y,
                                (i + 1) as nat,
                                parts@.len(),
                            );
                        }
                        return Err(e);
                    }
                } else {
                    self.boy.knock_out();
                }
            }
            i = i + 1;
        }
        match self.boy.try_bounding_box() {
            Err(e) => Err(e),
            Ok(b) => {
                if b.intersects(self.stone.bounding_box()) {
                    self.boy.knock_out();
                }
                Ok(())
            },
        }
    }
}

/// A game that already has its level cannot be loaded again.
#[derive(Clone, Copy, Debug, PartialEq, Eq, Structural)]
pub struct AlreadyInitialized;

/// The game: waiting for its assets, or running a level.
pub enum WalkTheDog {
    Loading,
    Loaded(Walk),
}

impl WalkTheDog {
    pub fn new() -> (r: WalkTheDog)
        ensures
            r is Loading,
    {
        WalkTheDog::Loading
    }

    /// The game with its level loaded; a game is loaded once only.
    pub fn initialize(&self, walk: Walk) -> (r: Result<WalkTheDog, AlreadyInitialized>)
        ensures
            match *self {
                WalkTheDog::Loading => r == Ok::<WalkTheDog, AlreadyInitialized>(
                    WalkTheDog::Loaded(walk),
                ),
                WalkTheDog::Loaded(_) => r == Err::<WalkTheDog, AlreadyInitialized>(
                    AlreadyInitialized,
                ),
            },
    {
        match self {
            WalkTheDog::Loading => Ok(WalkTheDog::Loaded(walk)),
            WalkTheDog::Loaded(_) => Err(AlreadyInitialized),
        }
    }

    /// One simulation step; a game still loading does not move.
    pub fn update(&mut self, keystate: &KeyState) -> (r: Result<(), StepError>)
        ensures
            match *old(self) {
                WalkTheDog::Loading => r == Ok::<(), StepError>(()) && *final(self) is Loading,
                WalkTheDog::Loaded(before) => match *final(self) {
                    WalkTheDog::Loaded(after) => before.stepped(&after, keystate@, r),
                    WalkTheDog::Loading => false,
                },
            },
    {
        match self {
            WalkTheDog::Loaded(walk) => walk.update(keystate),
            WalkTheDog::Loading => Ok(()),
        }
    }
}

fn fits_i32_in_i16(v: i32) -> (r: bool)
    ensures
        r == fits_i16(v as int),
{
    i16::MIN as i32 <= v && v <= i16::MAX as i32
}

} // verus!

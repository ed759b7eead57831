use crate::geometry::ball::lemma_div_below;
use crate::geometry::vector2d::{abs, div_toward_zero, tdiv, Vector2d};
use crate::platformer::constants::{
    ASCEND_TIME, DESCEND_SPEED, FLOAT_TIME, JUMP_COOL_DOWN, MAX_ASCEND, MAX_SPEED, PLAYER_FPS,
    SPEED_UP_TIME,
};
use crate::platformer::map::{GameMap, COORD_LIMIT, TILE_LIMIT};
use crate::utils::input::{GameInput, KEY_A, KEY_D, KEY_SPACE};
use vstd::prelude::*;

verus! {

/// Microseconds in one second.
pub const SECOND: i64 = 1_000_000;

/// Longest tick, in microseconds.
pub const TICK_LIMIT: i64 = 1_073_741_824;

/// Bound on the player's coordinates, in subpixels.
pub const PLAYER_POS_LIMIT: i64 = 288_230_376_151_711_744;

#[derive(Copy, Clone, Debug, PartialEq, Eq, Structural)]
pub enum PlayerState {
    Stand,
    Move,
    AscendStart,
    Ascend,
    Float,
    Descend,
}

impl PlayerState {
    /// The sprites of the state's animation, in the order they loop.
    pub open spec fn frame_names(self) -> Seq<Seq<char>> {
        match self {
            PlayerState::Stand => seq!["playerRed_stand.png"@],
            PlayerState::Move => seq![
                "playerRed_walk1.png"@,
                "playerRed_walk2.png"@,
                "playerRed_walk3.png"@,
                "playerRed_walk2.png"@,
            ],
            PlayerState::AscendStart => seq!["playerRed_up1.png"@, "playerRed_up2.png"@],
            PlayerState::Ascend => seq!["playerRed_up3.png"@],
            PlayerState::Float => seq!["playerRed_up3.png"@],
            PlayerState::Descend => seq!["playerRed_fall.png"@],
        }
    }

    pub open spec fn frame_count(self) -> nat {
        self.frame_names().len()
    }

    pub fn frames(self) -> (r: Vec<String>)
        ensures
            r@.map_values(|s: String| s@) == self.frame_names(),
    {
        let r = match self {
            PlayerState::Stand => vec!["playerRed_stand.png".to_owned()],
            PlayerState::Move => vec![
                "playerRed_walk1.png".to_owned(),
                "playerRed_walk2.png".to_owned(),
                "playerRed_walk3.png".to_owned(),
                "playerRed_walk2.png".to_owned(),
            ],
            PlayerState::AscendStart => vec![
                "playerRed_up1.png".to_owned(),
                "playerRed_up2.png".to_owned(),
            ],
            PlayerState::Ascend => vec!["playerRed_up3.png".to_owned()],
            PlayerState::Float => vec!["playerRed_up3.png".to_owned()],
            PlayerState::Descend => vec!["playerRed_fall.png".to_owned()],
        };
        assert(r@.map_values(|s: String| s@) =~= self.frame_names());
        r
    }

    fn frame_len(self) -> (r: usize)
        ensures
            r == self.frame_count(),
    {
        match self {
            PlayerState::Move => 4,
            PlayerState::AscendStart => 2,
            _ => 1,
        }
    }
}

/// The time a tick hands to the player and the screen size, in subpixels.
pub struct PlayerUpdateArgs {
    pub dt: i64,
    pub screen_size: Vector2d,
}

/// What the renderer needs of the player.
pub struct RenderArgs {
    pub sprite: String,
    pub pos: Vector2d,
    pub size: Vector2d,
}

/// The player: a box that stands, runs and jumps through the map.
/// Positions are in subpixels with `y` upward, times in microseconds, the
/// speed in subpixels per second.
#[derive(Copy, Clone, Debug, PartialEq, Eq, Structural)]
pub struct Player {
    pub size: Vector2d,
    pub pos: Vector2d,
    pub state: PlayerState,
    pub frame_ctr: usize,
    pub frame_timer: i64,
    pub action_timer: i64,
    pub speed: i64,
    pub can_jump: bool,
}

/// How much the running speed changes in `dt`.
pub open spec fn speed_step(dt: int) -> int {
    dt * MAX_SPEED / (SPEED_UP_TIME as int)
}

pub open spec fn min(a: int, b: int) -> int {
    if a < b {
        a
    } else {
        b
    }
}

pub open spec fn max(a: int, b: int) -> int {
    if a > b {
        a
    } else {
        b
    }
}

impl Player {
    pub open spec fn wf(self) -> bool {
        &&& 0 <= self.size.x <= TILE_LIMIT
        &&& 0 <= self.size.y <= TILE_LIMIT
        &&& self.pos.within(PLAYER_POS_LIMIT as int)
        &&& self.frame_ctr < self.state.frame_count()
        &&& 0 <= self.frame_timer
        &&& self.frame_timer * PLAYER_FPS < SECOND
        &&& 0 <= self.action_timer <= ASCEND_TIME
        &&& -MAX_SPEED <= self.speed <= MAX_SPEED
    }

    pub open spec fn with_state(self, state: PlayerState) -> Player {
        Player { state, frame_ctr: 0, ..self }
    }

    pub open spec fn with_y(self, y: int) -> Player {
        Player { pos: Vector2d { x: self.pos.x, y: y as i64 }, ..self }
    }

    pub open spec fn with_x(self, x: int) -> Player {
        Player { pos: Vector2d { x: x as i64, y: self.pos.y }, ..self }
    }

    /// The player stopped: no speed, and standing if it was running.
    pub open spec fn stopped(self) -> Player {
        let q = Player { speed: 0, ..self };
        if q.state == PlayerState::Move {
            q.with_state(PlayerState::Stand)
        } else {
            q
        }
    }

    /// The state machine's step for the current state, with `floor` and
    /// `ceiling` the map's bounds over the player.
    pub open spec fn motion_step(
        self,
        dt: int,
        jump: bool,
        right: bool,
        left: bool,
        floor: int,
        ceiling: int,
    ) -> Player {
        let jumped = Player {
            action_timer: ASCEND_TIME,
            ..self.with_state(PlayerState::AscendStart)
        };
        match self.state {
            PlayerState::Stand => {
                let p = if jump && self.can_jump {
                    jumped
                } else if right {
                    Player { speed: speed_step(dt) as i64, ..self.with_state(PlayerState::Move) }
                } else if left {
                    Player { speed: -speed_step(dt) as i64, ..self.with_state(PlayerState::Move) }
                } else {
                    self
                };
                if p.pos.y > floor {
                    p.with_state(PlayerState::Descend)
                } else {
                    p
                }
            },
            PlayerState::Move => {
                let p = if jump && self.can_jump {
                    jumped
                } else {
                    self
                };
                if p.pos.y > floor {
                    p.with_state(PlayerState::Descend)
                } else {
                    p
                }
            },
            PlayerState::AscendStart | PlayerState::Ascend => {
                if self.action_timer > 0 {
                    let step = min(dt, self.action_timer as int);
                    let y = self.pos.y + step * MAX_ASCEND / (ASCEND_TIME as int);
                    if y > ceiling - self.size.y {
                        Player {
                            action_timer: 0,
                            ..self.with_y(ceiling - self.size.y).with_state(PlayerState::Float)
                        }
                    } else {
                        Player {
                            action_timer: max(self.action_timer - dt, 0) as i64,
                            ..self.with_y(y)
                        }
                    }
                } else {
                    Player { action_timer: FLOAT_TIME, ..self.with_state(PlayerState::Float) }
                }
            },
            PlayerState::Float => {
                if self.action_timer > 0 {
                    Player { action_timer: max(self.action_timer - dt, 0) as i64, ..self }
                } else {
                    self.with_state(PlayerState::Descend)
                }
            },
            PlayerState::Descend => {
                if self.pos.y > floor {
                    self.with_y(self.pos.y - min(dt * DESCEND_SPEED / (SECOND as int), self.pos.y - floor))
                } else {
                    Player {
                        action_timer: JUMP_COOL_DOWN,
                        can_jump: false,
                        ..self.with_state(
                            if self.speed == 0 {
                                PlayerState::Stand
                            } else {
                                PlayerState::Move
                            },
                        )
                    }
                }
            },
        }
    }

    /// The running speed after `dt`: it ramps toward the pressed direction
    /// and decays toward zero when no direction is pressed. Reaching zero
    /// stops the player.
    pub open spec fn speed_ramped(self, dt: int, right: bool, left: bool) -> Player {
        let c = speed_step(dt);
        if right {
            if min(self.speed + c, MAX_SPEED as int) == 0 {
                self.stopped()
            } else {
                Player { speed: min(self.speed + c, MAX_SPEED as int) as i64, ..self }
            }
        } else if left {
            if max(self.speed - c, -MAX_SPEED) == 0 {
                self.stopped()
            } else {
                Player { speed: max(self.speed - c, -MAX_SPEED) as i64, ..self }
            }
        } else if self.speed < 0 {
            if self.speed + c >= 0 {
                self.stopped()
            } else {
                Player { speed: (self.speed + c) as i64, ..self }
            }
        } else if self.speed > 0 {
            if self.speed - c <= 0 {
                self.stopped()
            } else {
                Player { speed: (self.speed - c) as i64, ..self }
            }
        } else {
            self
        }
    }

    /// The jump cool-down after `dt`.
    pub open spec fn cooled(self, dt: int) -> Player {
        if !self.can_jump {
            if self.action_timer - dt <= 0 {
                Player { action_timer: 0, can_jump: true, ..self }
            } else {
                Player { action_timer: (self.action_timer - dt) as i64, ..self }
            }
        } else {
            self
        }
    }

    /// The player after running for `dt`.
    pub open spec fn ran(self, dt: int) -> Player {
        if self.speed != 0 {
            self.with_x(self.pos.x + tdiv(dt * self.speed, SECOND as int))
        } else {
            self
        }
    }

    /// The player kept between the walls at `left` and `right`.
    pub open spec fn walled(self, left: int, right: int) -> Player {
        let hw = self.size.x / 2;
        let p = if self.pos.x > right - hw {
            self.with_x(right - hw).stopped()
        } else {
            self
        };
        if p.pos.x < left + hw {
            p.with_x(left + hw).stopped()
        } else {
            p
        }
    }

    /// The animation after `dt`: one frame on each `1 / PLAYER_FPS` second;
    /// the jump's start gives way to the rise when its frames are done.
    pub open spec fn animated(self, dt: int) -> Player {
        let t = self.frame_timer + dt;
        if t * PLAYER_FPS >= SECOND {
            let c = ((self.frame_ctr + 1) % (self.state.frame_count() as int)) as usize;
            let p = Player { frame_ctr: c, frame_timer: 0, ..self };
            if p.state == PlayerState::AscendStart && c == 0 {
                p.with_state(PlayerState::Ascend)
            } else {
                p
            }
        } else {
            Player { frame_timer: t as i64, ..self }
        }
    }

    /// One tick of `dt` microseconds with the given keys held, on a screen
    /// of `screen` subpixels.
    pub open spec fn stepped(
        self,
        dt: int,
        jump: bool,
        right: bool,
        left: bool,
        screen: Vector2d,
        map: GameMap,
    ) -> Player {
        let s1 = self.motion_step(
            dt,
            jump,
            right,
            left,
            map.floor_spec(self.pos),
            map.ceiling_spec(self.pos, screen.y as int),
        );
        let s2 = s1.speed_ramped(dt, right, left).cooled(dt).ran(dt);
        s2.walled(map.wall_left_spec(s2.pos), map.wall_right_spec(s2.pos, screen.x as int)).animated(
            dt,
        )
    }

    /// A player of `size` standing at its start point.
    pub open spec fn new_spec(size: Vector2d) -> Player {
        Player {
            size,
            pos: Vector2d { x: 32_000, y: 192_000 },
            state: PlayerState::Stand,
            frame_ctr: 0,
            frame_timer: 0,
            action_timer: 0,
            speed: 0,
            can_jump: true,
        }
    }

    pub fn new(size: Vector2d) -> (r: Player)
        ensures
            r == Player::new_spec(size),
    {
        Player {
            size,
            pos: Vector2d { x: 32_000, y: 192_000 },
            state: PlayerState::Stand,
            frame_ctr: 0,
            frame_timer: 0,
            action_timer: 0,
            speed: 0,
            can_jump: true,
        }
    }

    pub fn render_args(&self) -> (r: RenderArgs)
        requires
            self.frame_ctr < self.state.frame_count(),
        ensures
            r.sprite@ == self.state.frame_names()[self.frame_ctr as int],
            r.pos == self.pos,
            r.size == self.size,
    {
        let frames = self.state.frames();
        let sprite = frames[self.frame_ctr].clone();
        assert(frames@.map_values(|s: String| s@)[self.frame_ctr as int] == frames@[self.frame_ctr as int]@);
        RenderArgs { sprite, pos: self.pos, size: self.size }
    }

    /// Where the player's sprite, `sprite_width` wide, is drawn on a screen
    /// `screen_height` high: centred on the player, measured from the top.
    pub fn sprite_pos(&self, sprite_width: i64, screen_height: i64) -> (r: Vector2d)
        requires
            self.wf(),
            0 <= sprite_width <= TILE_LIMIT,
            0 <= screen_height <= COORD_LIMIT,
        ensures
            r.x == self.pos.x - sprite_width / 2,
            r.y == screen_height - self.pos.y - self.size.y,
    {
        Vector2d { x: self.pos.x - sprite_width / 2, y: screen_height - self.pos.y - self.size.y }
    }

    fn set_state(&mut self, state: PlayerState)
        ensures
            *final(self) == old(self).with_state(state),
    {
        self.state = state;
        self.frame_ctr = 0;
    }

    fn stop(&mut self)
        ensures
            *final(self) == old(self).stopped(),
    {
        self.speed = 0;
        if self.state == PlayerState::Move {
            self.set_state(PlayerState::Stand);
        }
    }

    /// Runs the state machine's step for the current state.
    pub fn update_motion(
        &mut self,
        dt: i64,
        jump: bool,
        right: bool,
        left: bool,
        floor: i64,
        ceiling: i64,
    )
        requires
            old(self).wf(),
            0 <= dt <= TICK_LIMIT,
            0 <= floor <= COORD_LIMIT,
            0 <= ceiling <= COORD_LIMIT,
        ensures
            *final(self) == old(self).motion_step(
                dt as int,
                jump,
                right,
                left,
                floor as int,
                ceiling as int,
            ),
            final(self).pos.within(PLAYER_POS_LIMIT as int),
            final(self).pos.x == old(self).pos.x,
            0 <= final(self).action_timer <= ASCEND_TIME,
            -(MAX_SPEED + 0x2_0000_0000) <= final(self).speed <= MAX_SPEED + 0x2_0000_0000,
            -MAX_SPEED <= final(self).speed <= MAX_SPEED || (right && final(self).speed >= 0) || (
            !right && left && final(self).speed <= 0),
    {
        proof {
            lemma_speed_step(dt as int);
        }
        match self.state {
            PlayerState::Stand => {
                if jump && self.can_jump {
                    self.set_state(PlayerState::AscendStart);
                    self.action_timer = ASCEND_TIME;
                } else if right {
                    self.set_state(PlayerState::Move);
                    self.speed = dt * MAX_SPEED / SPEED_UP_TIME;
                } else if left {
                    self.set_state(PlayerState::Move);
                    self.speed = -(dt * MAX_SPEED / SPEED_UP_TIME);
                }
                if self.pos.y > floor {
                    self.set_state(PlayerState::Descend);
                }
            },
            PlayerState::Move => {
                if jump && self.can_jump {
                    self.set_state(PlayerState::AscendStart);
                    self.action_timer = ASCEND_TIME;
                }
                if self.pos.y > floor {
                    self.set_state(PlayerState::Descend);
                }
            },
            PlayerState::AscendStart | PlayerState::Ascend => {
                if self.action_timer > 0 {
                    let step = if dt < self.action_timer {
                        dt
                    } else {
                        self.action_timer
                    };
                    proof {
                        lemma_rise(step as int);
                    }
                    self.pos.y = self.pos.y + step * MAX_ASCEND / ASCEND_TIME;
                    self.action_timer = if self.action_timer - dt > 0 {
                        self.action_timer - dt
                    } else {
                        0
                    };
                    if self.pos.y > ceiling - self.size.y {
                        self.pos.y = ceiling - self.size.y;
                        self.set_state(PlayerState::Float);
                        self.action_timer = 0;
                    }
                } else {
                    self.set_state(PlayerState::Float);
                    self.action_timer = FLOAT_TIME;
                }
            },
            PlayerState::Float => {
                if self.action_timer > 0 {
                    self.action_timer = if self.action_timer - dt > 0 {
                        self.action_timer - dt
                    } else {
                        0
                    };
                } else {
                    self.set_state(PlayerState::Descend);
                }
            },
            PlayerState::Descend => {
                if self.pos.y > floor {
                    proof {
                        lemma_fall(dt as int);
                    }
                    let desc_dt = dt * DESCEND_SPEED / SECOND;
                    let desc_floor = self.pos.y - floor;
                    self.pos.y = self.pos.y - if desc_dt < desc_floor {
                        desc_dt
                    } else {
                        desc_floor
                    };
                } else {
                    if self.speed == 0 {
                        self.set_state(PlayerState::Stand);
                    } else {
                        self.set_state(PlayerState::Move);
                    }
                    self.action_timer = JUMP_COOL_DOWN;
                    self.can_jump = false;
                }
            },
        }
    }

    /// Ramps the running speed, runs the jump cool-down and moves the
    /// player sideways.
    fn update_run(&mut self, dt: i64, right: bool, left: bool)
        requires
            0 <= dt <= TICK_LIMIT,
            old(self).pos.within(PLAYER_POS_LIMIT as int),
            0 <= old(self).action_timer <= ASCEND_TIME,
            -(MAX_SPEED + 0x2_0000_0000) <= old(self).speed <= MAX_SPEED + 0x2_0000_0000,
        ensures
            *final(self) == old(self).speed_ramped(dt as int, right, left).cooled(dt as int).ran(
                dt as int,
            ),
            (-MAX_SPEED <= old(self).speed <= MAX_SPEED || (right && old(self).speed >= 0) || (!right
                && left && old(self).speed <= 0)) ==> -MAX_SPEED <= final(self).speed <= MAX_SPEED,
            -(PLAYER_POS_LIMIT + 0x1_0000_0000_0000) <= final(self).pos.x <= PLAYER_POS_LIMIT
                + 0x1_0000_0000_0000,
            final(self).pos.y == old(self).pos.y,
            0 <= final(self).action_timer <= ASCEND_TIME,
    {
        proof {
            lemma_speed_step(dt as int);
        }
        let speed_change = dt * MAX_SPEED / SPEED_UP_TIME;
        if right {
            self.speed = self.speed + speed_change;
            if self.speed > MAX_SPEED {
                self.speed = MAX_SPEED;
            }
            if self.speed == 0 {
                self.stop();
            }
        } else if left {
            self.speed = self.speed - speed_change;
            if self.speed < -MAX_SPEED {
                self.speed = -MAX_SPEED;
            }
            if self.speed == 0 {
                self.stop();
            }
        } else if self.speed < 0 {
            if self.speed + speed_change >= 0 {
                self.stop();
            } else {
                self.speed = self.speed + speed_change;
            }
        } else if self.speed > 0 {
            if self.speed - speed_change <= 0 {
                self.stop();
            } else {
                self.speed = self.speed - speed_change;
            }
        }
        if !self.can_jump {
            if self.action_timer - dt <= 0 {
                self.action_timer = 0;
                self.can_jump = true;
            } else {
                self.action_timer = self.action_timer - dt;
            }
        }
        if self.speed != 0 {
            proof {
                lemma_run(dt as int, self.speed as int);
            }
            let dx = div_toward_zero((dt as i128) * (self.speed as i128), SECOND as i128);
            self.pos.x = ((self.pos.x as i128) + dx) as i64;
        }
    }

    /// Keeps the player between the walls at `left` and `right`.
    fn update_walls(&mut self, left: i64, right: i64)
        requires
            0 <= left <= COORD_LIMIT,
            0 <= right <= COORD_LIMIT,
            0 <= old(self).size.x <= TILE_LIMIT,
            -(PLAYER_POS_LIMIT + 0x1_0000_0000_0000) <= old(self).pos.x <= PLAYER_POS_LIMIT
                + 0x1_0000_0000_0000,
        ensures
            *final(self) == old(self).walled(left as int, right as int),
            -TILE_LIMIT <= final(self).pos.x <= COORD_LIMIT + TILE_LIMIT,
    {
        let half_width = self.size.x / 2;
        if self.pos.x > right - half_width {
            self.pos.x = right - half_width;
            self.stop();
        }
        if self.pos.x < left + half_width {
            self.pos.x = left + half_width;
            self.stop();
        }
    }

    /// Advances the animation by `dt`.
    fn update_frame(&mut self, dt: i64)
        requires
            0 <= dt <= TICK_LIMIT,
            old(self).frame_ctr < old(self).state.frame_count(),
            0 <= old(self).frame_timer,
            old(self).frame_timer * PLAYER_FPS < SECOND,
        ensures
            *final(self) == old(self).animated(dt as int),
            final(self).frame_ctr < final(self).state.frame_count(),
            0 <= final(self).frame_timer,
            final(self).frame_timer * PLAYER_FPS < SECOND,
    {
        let t = self.frame_timer + dt;
        if t * PLAYER_FPS >= SECOND {
            let n = self.state.frame_len();
            self.frame_ctr = (self.frame_ctr + 1) % n;
            self.frame_timer = 0;
            if self.state == PlayerState::AscendStart && self.frame_ctr == 0 {
                self.set_state(PlayerState::Ascend);
            }
        } else {
            self.frame_timer = t;
        }
    }

    /// One tick: the state machine's step, the running speed, the jump
    /// cool-down, the sideways move against the walls, and the animation.
    #[verifier::rlimit(100)]
    pub fn update(&mut self, args: PlayerUpdateArgs, input: &GameInput, map: &GameMap)
        requires
            old(self).wf(),
            map.wf(),
            0 <= args.dt <= TICK_LIMIT,
            0 <= args.screen_size.x <= COORD_LIMIT,
            0 <= args.screen_size.y <= COORD_LIMIT,
        ensures
            *final(self) == old(self).stepped(
                args.dt as int,
                input.pressed().contains(KEY_SPACE),
                input.pressed().contains(KEY_D),
                input.pressed().contains(KEY_A),
                args.screen_size,
                *map,
            ),
            final(self).wf(),
    {
        let dt = args.dt;
        let jump = input.is_key_pressed(KEY_SPACE);
        let right = input.is_key_pressed(KEY_D);
        let left = input.is_key_pressed(KEY_A);
        let floor = map.floor_under_position(self.pos);
        let ceiling = map.ceiling_over_position(self.pos, args.screen_size.y);
        proof {
            map.lemma_bounds_in_range(self.pos, args.screen_size);
        }
        self.update_motion(dt, jump, right, left, floor, ceiling);
        self.update_run(dt, right, left);
        let left_wall = map.wall_at_left(self.pos);
        let right_wall = map.wall_at_right(self.pos, args.screen_size.x);
        proof {
            map.lemma_bounds_in_range(self.pos, args.screen_size);
        }
        self.update_walls(left_wall, right_wall);
        self.update_frame(dt);
        assert(-MAX_SPEED <= self.speed <= MAX_SPEED);
    }
}

/// Standing on the ground with the jump key held and the jump armed starts
/// a jump, with the rise's full time ahead.
pub proof fn lemma_jump_from_stand(
    p: Player,
    dt: int,
    right: bool,
    left: bool,
    screen: Vector2d,
    map: GameMap,
)
    requires
        p.wf(),
        p.state == PlayerState::Stand,
        p.can_jump,
        p.pos.y <= map.floor_spec(p.pos),
    ensures
        p.motion_step(
            dt,
            true,
            right,
            left,
            map.floor_spec(p.pos),
            map.ceiling_spec(p.pos, screen.y as int),
        ).state == PlayerState::AscendStart,
        p.stepped(dt, true, right, left, screen, map).state == PlayerState::AscendStart,
        p.stepped(dt, true, right, left, screen, map).action_timer == ASCEND_TIME,
{
    let s1 = p.motion_step(
        dt,
        true,
        right,
        left,
        map.floor_spec(p.pos),
        map.ceiling_spec(p.pos, screen.y as int),
    );
    assert(s1.state == PlayerState::AscendStart && s1.frame_ctr == 0 && s1.can_jump
        && s1.action_timer == ASCEND_TIME);
    let s2 = s1.speed_ramped(dt, right, left).cooled(dt).ran(dt);
    assert(s2.state == PlayerState::AscendStart && s2.frame_ctr == 0 && s2.action_timer
        == ASCEND_TIME);
    let s3 = s2.walled(map.wall_left_spec(s2.pos), map.wall_right_spec(s2.pos, screen.x as int));
    assert(s3.state == PlayerState::AscendStart && s3.frame_ctr == 0 && s3.action_timer
        == ASCEND_TIME);
    assert((0 + 1) % 2 == 1) by (nonlinear_arith);
    assert(p.stepped(dt, true, right, left, screen, map) == s3.animated(dt));
}

/// While rising, a tick never carries the player's top above the ceiling
/// over it.
pub proof fn lemma_ascent_below_ceiling(
    p: Player,
    dt: int,
    jump: bool,
    right: bool,
    left: bool,
    screen: Vector2d,
    map: GameMap,
)
    requires
        p.wf(),
        p.state == PlayerState::AscendStart || p.state == PlayerState::Ascend,
        p.action_timer > 0,
        0 <= dt,
        map.wf(),
        0 <= screen.x <= COORD_LIMIT,
        0 <= screen.y <= COORD_LIMIT,
    ensures
        p.stepped(dt, jump, right, left, screen, map).pos.y <= map.ceiling_spec(
            p.pos,
            screen.y as int,
        ) - p.size.y,
{
    map.lemma_bounds_in_range(p.pos, screen);
    let ceiling = map.ceiling_spec(p.pos, screen.y as int);
    let step = min(dt, p.action_timer as int);
    lemma_rise(step);
    let s1 = p.motion_step(dt, jump, right, left, map.floor_spec(p.pos), ceiling);
    assert(s1.pos.y <= ceiling - p.size.y);
    let s2 = s1.speed_ramped(dt, right, left).cooled(dt).ran(dt);
    assert(s2.pos.y == s1.pos.y);
    let s3 = s2.walled(map.wall_left_spec(s2.pos), map.wall_right_spec(s2.pos, screen.x as int));
    assert(s3.pos.y == s1.pos.y);
    assert(p.stepped(dt, jump, right, left, screen, map) == s3.animated(dt));
}

proof fn lemma_speed_step(dt: int)
    requires
        0 <= dt <= TICK_LIMIT,
    ensures
        0 <= dt * MAX_SPEED <= TICK_LIMIT * MAX_SPEED,
        0 <= speed_step(dt) <= 0x2_0000_0000,
{
    assert(0 <= dt * MAX_SPEED <= TICK_LIMIT * MAX_SPEED) by (nonlinear_arith)
        requires
            0 <= dt <= TICK_LIMIT,
    ;
    vstd::arithmetic::div_mod::lemma_div_pos_is_pos(dt * MAX_SPEED, SPEED_UP_TIME as int);
    vstd::arithmetic::div_mod::lemma_div_is_ordered(dt * MAX_SPEED, TICK_LIMIT * MAX_SPEED, SPEED_UP_TIME as int);
}

proof fn lemma_rise(step: int)
    requires
        0 <= step <= ASCEND_TIME,
    ensures
        0 <= step * MAX_ASCEND <= ASCEND_TIME * MAX_ASCEND,
        0 <= step * MAX_ASCEND / (ASCEND_TIME as int) <= MAX_ASCEND,
{
    assert(0 <= step * MAX_ASCEND <= ASCEND_TIME * MAX_ASCEND) by (nonlinear_arith)
        requires
            0 <= step <= ASCEND_TIME,
    ;
    vstd::arithmetic::div_mod::lemma_div_pos_is_pos(step * MAX_ASCEND, ASCEND_TIME as int);
    vstd::arithmetic::div_mod::lemma_div_is_ordered(step * MAX_ASCEND, ASCEND_TIME * MAX_ASCEND, ASCEND_TIME as int);
}

proof fn lemma_fall(dt: int)
    requires
        0 <= dt <= TICK_LIMIT,
    ensures
        0 <= dt * DESCEND_SPEED <= TICK_LIMIT * DESCEND_SPEED,
        0 <= dt * DESCEND_SPEED / (SECOND as int),
{
    assert(0 <= dt * DESCEND_SPEED <= TICK_LIMIT * DESCEND_SPEED) by (nonlinear_arith)
        requires
            0 <= dt <= TICK_LIMIT,
    ;
    vstd::arithmetic::div_mod::lemma_div_pos_is_pos(dt * DESCEND_SPEED, SECOND as int);
}

proof fn lemma_run(dt: int, speed: int)
    requires
        0 <= dt <= TICK_LIMIT,
        -(MAX_SPEED + 0x2_0000_0000) <= speed <= MAX_SPEED + 0x2_0000_0000,
    ensures
        -0x1_0000_0000_0000_0000 <= dt * speed <= 0x1_0000_0000_0000_0000,
        abs(tdiv(dt * speed, SECOND as int)) <= 0x1_0000_0000_0000,
{
    let k = 0x1_0000_0000_0000_0000int;
    assert(-k <= dt * speed <= k) by (nonlinear_arith)
        requires
            0 <= dt <= 0x4000_0000,
            -0x4_0000_0000 <= speed <= 0x4_0000_0000,
            k == 0x1_0000_0000_0000_0000int,
    ;
    lemma_div_below(dt * speed, SECOND as int, k, 0x1_0000_0000_0000);
}

} // verus!

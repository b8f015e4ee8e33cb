//! The level progress controller: the game's states, what a collected fruit,
//! a fall and the menu inputs do to the world, and the tick that ties the
//! physics to them.
//!
//! The controller owns the whole simulation state. Each transition returns
//! the effects that a presentation layer has to apply, in order.

use vstd::prelude::*;
use crate::fruit::{
    fruit_on, fruit_spot, lemma_fruit_rests_on_carrier, may_carry_fruit, place, Position,
};
use crate::generator::{generate, layout, lemma_layout_obeys_rules, obeys_rules};
use crate::physics::{spawned, stepped, Input, Player};
use crate::platform::{all_in_range, all_within_range, Platform};
use crate::units::{FAR_LIMIT, WINDOW_HEIGHT};

verus! {

/// Lives at the start of a game.
pub const START_LIVES: u32 = 3;

/// Level at the start of a game.
pub const START_LEVEL: u32 = 1;

/// Distance between the centres of player and fruit below which the fruit
/// is collected (30 world units).
pub const COLLECT_DISTANCE: i64 = 300_000;

/// What each level adds to the time when a level's seed is made.
pub const LEVEL_SEED_STRIDE: u64 = 1000;

/// What the fruit's seed adds to the platforms' seed after a collected
/// fruit or a restart.
pub const FRUIT_SEED_OFFSET: u64 = 42;

/// What the fruit's seed adds to the platforms' seed when a game starts
/// from the menu.
pub const START_FRUIT_SEED_OFFSET: u64 = 99;

/// Which part of the program runs.
#[derive(Clone, Copy, Debug, PartialEq, Eq, Structural)]
pub enum AppState {
    MainMenu,
    InGame,
    GameOver,
}

/// Lives and level of the running game.
#[derive(Clone, Copy, Debug, PartialEq, Eq, Structural)]
pub struct GameState {
    pub lives: u32,
    pub level: u32,
}

/// The state in which every game begins: three lives, level one.
pub open spec fn initial_game() -> GameState {
    GameState { lives: START_LIVES, level: START_LEVEL }
}

impl Default for GameState {
    fn default() -> (state: GameState)
        ensures
            state == initial_game(),
    {
        GameState { lives: START_LIVES, level: START_LEVEL }
    }
}

/// A sound cue.
#[derive(Clone, Copy, Debug, PartialEq, Eq, Structural)]
pub enum Sound {
    Jump,
    Collect,
    Death,
}

/// What the presentation layer has to do after a transition. The data of
/// what is spawned is in the world.
#[derive(Clone, Copy, Debug, PartialEq, Eq, Structural)]
pub enum Effect {
    /// Remove the fruit, if there is one.
    DespawnFruit,
    /// Remove every platform.
    DespawnPlatforms,
    /// Put the player at the world's player, replacing any earlier one.
    RespawnPlayer,
    /// Create the world's platforms.
    SpawnPlatforms,
    /// Create the world's fruit.
    SpawnFruit,
    /// Show the game-over overlay.
    ShowGameOver,
    /// Remove the game-over overlay.
    HideGameOver,
    /// Play a sound.
    PlaySound(Sound),
}

/// The inputs of one tick.
#[derive(Clone, Copy, Debug, PartialEq, Eq, Structural)]
pub struct Controls {
    /// Movement and jump.
    pub input: Input,
    /// The start input, read in the main menu.
    pub start: bool,
    /// The restart input, read after the game is over.
    pub restart: bool,
    /// The input that leads back to the menu, read after the game is over.
    pub menu: bool,
}

/// The simulation state.
#[derive(Debug)]
pub struct World {
    pub app: AppState,
    pub game: GameState,
    pub player: Player,
    pub platforms: Vec<Platform>,
    pub fruit: Option<Position>,
}

/// The simulation state as the contracts speak of it.
pub ghost struct WorldState {
    pub app: AppState,
    pub game: GameState,
    pub player: Player,
    pub platforms: Seq<Platform>,
    pub fruit: Option<Position>,
}

/// A world after a transition, with the effects of the transition.
pub ghost struct Outcome {
    pub world: WorldState,
    pub effects: Seq<Effect>,
}

impl View for World {
    type V = WorldState;

    open spec fn view(&self) -> WorldState {
        WorldState {
            app: self.app,
            game: self.game,
            player: self.player,
            platforms: self.platforms@,
            fruit: self.fruit,
        }
    }
}

/// The sum of two seeds, wrapping at 64 bits.
pub open spec fn seed_sum(a: int, b: int) -> u64 {
    ((a + b) % 0x1_0000_0000_0000_0000) as u64
}

/// The seed of a level's platforms: the time plus a thousand per level.
pub open spec fn level_seed(now_nanos: u64, level: u32) -> u64 {
    seed_sum(now_nanos as int, level * LEVEL_SEED_STRIDE)
}

/// Whether the player is close enough to the fruit to collect it: the
/// centres are less than `COLLECT_DISTANCE` apart.
pub open spec fn reaches(p: Player, fruit: Position) -> bool {
    (p.x - fruit.x) * (p.x - fruit.x) + (p.y - fruit.y) * (p.y - fruit.y) < COLLECT_DISTANCE
        * COLLECT_DISTANCE
}

/// Whether the player has fallen below the window.
pub open spec fn fallen_off(p: Player) -> bool {
    p.y < -(WINDOW_HEIGHT / 2)
}

/// The effects of a new level: everything of the old one goes, the player
/// is put at the spawn point, platforms appear, and the fruit if there is
/// one.
pub open spec fn new_level_effects(fruit: Option<Position>) -> Seq<Effect> {
    let common = seq![
        Effect::DespawnFruit,
        Effect::DespawnPlatforms,
        Effect::RespawnPlayer,
        Effect::SpawnPlatforms,
    ];
    if fruit is Some {
        common.push(Effect::SpawnFruit)
    } else {
        common
    }
}

/// A world in play with the layout of `seed`, the player at the spawn
/// point, and the fruit placed by `fruit_seed`.
pub open spec fn new_level(game: GameState, seed: u64, fruit_seed: u64) -> WorldState {
    let platforms = layout(seed).platforms;
    WorldState {
        app: AppState::InGame,
        game,
        player: spawned(),
        platforms,
        fruit: fruit_spot(platforms, fruit_seed),
    }
}

/// Start from the menu: a new game begins, seeded by the time.
pub open spec fn started(now_nanos: u64) -> Outcome {
    let world = new_level(
        initial_game(),
        now_nanos,
        seed_sum(now_nanos as int, START_FRUIT_SEED_OFFSET as int),
    );
    Outcome { world, effects: new_level_effects(world.fruit) }
}

/// Restart after the game is over: the overlay goes and a new game begins,
/// seeded by the time.
pub open spec fn restarted(now_nanos: u64) -> Outcome {
    let world = new_level(
        initial_game(),
        now_nanos,
        seed_sum(now_nanos as int, FRUIT_SEED_OFFSET as int),
    );
    Outcome { world, effects: seq![Effect::HideGameOver] + new_level_effects(world.fruit) }
}

/// Back to the menu after the game is over: only the overlay goes.
pub open spec fn returned_to_menu(w: WorldState) -> Outcome {
    Outcome {
        world: WorldState {
            app: AppState::MainMenu,
            game: w.game,
            player: w.player,
            platforms: w.platforms,
            fruit: w.fruit,
        },
        effects: seq![Effect::HideGameOver],
    }
}

/// A collected fruit: the level goes up by one and a new level begins,
/// seeded by the time and the new level.
pub open spec fn collected(w: WorldState, now_nanos: u64) -> Outcome {
    let game = GameState { lives: w.game.lives, level: (w.game.level + 1) as u32 };
    let seed = level_seed(now_nanos, game.level);
    let world = new_level(game, seed, seed_sum(seed as int, FRUIT_SEED_OFFSET as int));
    Outcome {
        world,
        effects: seq![Effect::PlaySound(Sound::Collect)] + new_level_effects(world.fruit),
    }
}

/// Lives left after a fall.
pub open spec fn lives_after_fall(lives: u32) -> u32 {
    if lives > 0 {
        (lives - 1) as u32
    } else {
        0
    }
}

/// A fall below the window: a life is lost. With lives left the player is
/// put at the spawn point and nothing else changes. Without, the game is
/// over: the fruit goes, the platforms stay, and lives and level keep their
/// values until a restart.
pub open spec fn died(w: WorldState) -> Outcome {
    let lives = lives_after_fall(w.game.lives);
    let game = GameState { lives, level: w.game.level };
    if lives > 0 {
        Outcome {
            world: WorldState {
                app: w.app,
                game,
                player: spawned(),
                platforms: w.platforms,
                fruit: w.fruit,
            },
            effects: seq![Effect::PlaySound(Sound::Death), Effect::RespawnPlayer],
        }
    } else {
        Outcome {
            world: WorldState {
                app: AppState::GameOver,
                game,
                player: w.player,
                platforms: w.platforms,
                fruit: None,
            },
            effects: seq![
                Effect::PlaySound(Sound::Death),
                Effect::DespawnFruit,
                Effect::ShowGameOver,
            ],
        }
    }
}

/// What the state of the world decides once the player has moved: a fruit
/// within reach is collected; otherwise a player below the window dies;
/// otherwise nothing happens.
pub open spec fn judged(w: WorldState, now_nanos: u64) -> Outcome {
    if w.fruit is Some && reaches(w.player, w.fruit->Some_0) {
        collected(w, now_nanos)
    } else if fallen_off(w.player) {
        died(w)
    } else {
        Outcome { world: w, effects: Seq::empty() }
    }
}

/// The sound of a jump, where the step begins with one.
pub open spec fn jump_effects(p: Player, input: Input) -> Seq<Effect> {
    if input.jump_just_pressed && p.grounded {
        seq![Effect::PlaySound(Sound::Jump)]
    } else {
        Seq::empty()
    }
}

/// One tick. In the menu only the start input counts, after the game is
/// over only restart and, after it, the way back to the menu. In play the
/// player takes one time step and the world is judged.
pub open spec fn ticked(w: WorldState, controls: Controls, dt_micros: int, now_nanos: u64) -> Outcome {
    match w.app {
        AppState::MainMenu => if controls.start {
            started(now_nanos)
        } else {
            Outcome { world: w, effects: Seq::empty() }
        },
        AppState::GameOver => if controls.restart {
            restarted(now_nanos)
        } else if controls.menu {
            returned_to_menu(w)
        } else {
            Outcome { world: w, effects: Seq::empty() }
        },
        AppState::InGame => {
            let moved = WorldState {
                app: w.app,
                game: w.game,
                player: stepped(w.player, controls.input, dt_micros, w.platforms),
                platforms: w.platforms,
                fruit: w.fruit,
            };
            let after = judged(moved, now_nanos);
            Outcome {
                world: after.world,
                effects: jump_effects(w.player, controls.input) + after.effects,
            }
        },
    }
}

/// The world before the first game: in the main menu, with nothing in it.
pub open spec fn initial_world() -> WorldState {
    WorldState {
        app: AppState::MainMenu,
        game: initial_game(),
        player: spawned(),
        platforms: Seq::empty(),
        fruit: None,
    }
}

/// What holds of the world in every state that ticks lead to from the
/// initial one: in play there is a life left; the platforms, once there are
/// any, form a layout that obeys the rules; and a fruit rests on one of
/// them that may carry it.
pub open spec fn consistent(w: WorldState) -> bool {
    &&& w.app == AppState::InGame ==> w.game.lives >= 1 && w.platforms.len() >= 1
    &&& w.platforms.len() == 0 || obeys_rules(w.platforms)
    &&& w.fruit is Some ==> exists|i: int|
        0 <= i < w.platforms.len() && may_carry_fruit(#[trigger] w.platforms[i]) && w.fruit
            == Some(fruit_on(w.platforms[i]))
}

/// The initial world is consistent.
pub proof fn lemma_initial_world_consistent()
    ensures
        consistent(initial_world()),
{
}

/// A new level with a life left is consistent.
pub proof fn lemma_new_level_consistent(game: GameState, seed: u64, fruit_seed: u64)
    requires
        game.lives >= 1,
    ensures
        consistent(new_level(game, seed, fruit_seed)),
{
    lemma_layout_obeys_rules(seed);
    lemma_fruit_rests_on_carrier(layout(seed).platforms, fruit_seed);
}

/// A tick leads from a consistent world to a consistent world, whatever the
/// inputs, the time step and the clock.
pub proof fn lemma_tick_keeps_consistency(
    w: WorldState,
    controls: Controls,
    dt_micros: int,
    now_nanos: u64,
)
    requires
        consistent(w),
    ensures
        consistent(ticked(w, controls, dt_micros, now_nanos).world),
{
    let after = ticked(w, controls, dt_micros, now_nanos).world;
    match w.app {
        AppState::MainMenu => {
            if controls.start {
                lemma_new_level_consistent(
                    initial_game(),
                    now_nanos,
                    seed_sum(now_nanos as int, START_FRUIT_SEED_OFFSET as int),
                );
            }
        },
        AppState::GameOver => {
            if controls.restart {
                lemma_new_level_consistent(
                    initial_game(),
                    now_nanos,
                    seed_sum(now_nanos as int, FRUIT_SEED_OFFSET as int),
                );
            }
        },
        AppState::InGame => {
            let p = stepped(w.player, controls.input, dt_micros, w.platforms);
            if w.fruit is Some && reaches(p, w.fruit->Some_0) {
                let game = GameState { lives: w.game.lives, level: (w.game.level + 1) as u32 };
                let seed = level_seed(now_nanos, game.level);
                lemma_new_level_consistent(
                    game,
                    seed,
                    seed_sum(seed as int, FRUIT_SEED_OFFSET as int),
                );
            }
        },
    }
}

/// In play a tick never adds a life and never lowers the level: the level
/// goes up by one exactly when the moved player reaches the fruit, and a
/// life is lost exactly when it does not and the moved player is below the
/// window.
pub proof fn lemma_tick_counts(w: WorldState, controls: Controls, dt_micros: int, now_nanos: u64)
    requires
        w.app == AppState::InGame,
        w.game.lives >= 1,
        w.game.level < u32::MAX,
    ensures
        ({
            let after = ticked(w, controls, dt_micros, now_nanos).world;
            let p = stepped(w.player, controls.input, dt_micros, w.platforms);
            let collects = w.fruit is Some && reaches(p, w.fruit->Some_0);
            let falls = !collects && fallen_off(p);
            &&& after.game.level == w.game.level + if collects {
                1int
            } else {
                0int
            }
            &&& after.game.lives == w.game.lives - if falls {
                1int
            } else {
                0int
            }
            &&& after.app == AppState::GameOver <==> falls && w.game.lives == 1
            &&& after.app != AppState::MainMenu
        }),
{
}

/// Computes `seed_sum`.
pub fn add_seeds(a: u64, b: u64) -> (sum: u64)
    ensures
        sum == seed_sum(a as int, b as int),
{
    let wide: u128 = (a as u128 + b as u128) % 0x1_0000_0000_0000_0000u128;
    wide as u64
}

/// Computes `level_seed`.
pub fn make_level_seed(now_nanos: u64, level: u32) -> (seed: u64)
    ensures
        seed == level_seed(now_nanos, level),
{
    let offset: u64 = (level as u64) * LEVEL_SEED_STRIDE;
    add_seeds(now_nanos, offset)
}

impl Position {
    /// Both coordinates are within `FAR_LIMIT`.
    pub open spec fn within_reach(self) -> bool {
        &&& -FAR_LIMIT <= self.x <= FAR_LIMIT
        &&& -FAR_LIMIT <= self.y <= FAR_LIMIT
    }
}

/// The distance between two coordinates, where it is below `bound`.
fn within(a: i64, b: i64, bound: i64) -> (r: Option<i64>)
    requires
        -FAR_LIMIT <= a <= FAR_LIMIT,
        -FAR_LIMIT <= b <= FAR_LIMIT,
        0 <= bound <= FAR_LIMIT,
    ensures
        r is Some <==> -bound < a - b < bound,
        r is Some ==> r->Some_0 >= 0 && (r->Some_0 == a - b || r->Some_0 == b - a),
{
    let d: i64 = if a < b {
        b - a
    } else {
        a - b
    };
    if d < bound {
        Some(d)
    } else {
        None
    }
}

/// Tests whether the player reaches the fruit.
pub fn fruit_reached(player: &Player, fruit: &Position) -> (r: bool)
    requires
        player.within_reach(),
        fruit.within_reach(),
    ensures
        r == reaches(*player, *fruit),
{
    let dx = within(player.x, fruit.x, COLLECT_DISTANCE);
    let dy = within(player.y, fruit.y, COLLECT_DISTANCE);
    let ghost gx = player.x - fruit.x;
    let ghost gy = player.y - fruit.y;
    proof {
        assert(gx * gx >= 0 && gy * gy >= 0) by (nonlinear_arith);
        if gx >= COLLECT_DISTANCE || gx <= -COLLECT_DISTANCE {
            assert(gx * gx >= 300_000 * 300_000) by (nonlinear_arith)
                requires
                    gx >= 300_000 || gx <= -300_000,
            ;
        }
        if gy >= COLLECT_DISTANCE || gy <= -COLLECT_DISTANCE {
            assert(gy * gy >= 300_000 * 300_000) by (nonlinear_arith)
                requires
                    gy >= 300_000 || gy <= -300_000,
            ;
        }
    }
    match (dx, dy) {
        (Some(dx), Some(dy)) => {
            assert(dx * dx == gx * gx) by (nonlinear_arith)
                requires
                    dx == gx || dx == -gx,
            ;
            assert(dy * dy == gy * gy) by (nonlinear_arith)
                requires
                    dy == gy || dy == -gy,
            ;
            assert(dx * dx <= 300_000 * 300_000) by (nonlinear_arith)
                requires
                    0 <= dx < 300_000,
            ;
            assert(dy * dy <= 300_000 * 300_000) by (nonlinear_arith)
                requires
                    0 <= dy < 300_000,
            ;
            dx * dx + dy * dy < COLLECT_DISTANCE * COLLECT_DISTANCE
        },
        _ => false,
    }
}

/// Tests whether the player has fallen below the window.
pub fn has_fallen_off(player: &Player) -> (r: bool)
    ensures
        r == fallen_off(*player),
{
    player.y < -(WINDOW_HEIGHT / 2)
}

impl World {
    /// Platforms and fruit are within the limits of the arithmetic. Every
    /// transition keeps this.
    pub open spec fn sound(&self) -> bool {
        &&& all_in_range(self.platforms@)
        &&& self.fruit is Some ==> self.fruit->Some_0.within_reach()
    }

    /// The world can take a tick: out of play always; in play where it is
    /// sound, the player is within `LIMIT` and the level can still go up.
    pub open spec fn ready(&self) -> bool {
        self.app == AppState::InGame ==> {
            &&& self.sound()
            &&& self.player.in_range()
            &&& self.game.level < u32::MAX
        }
    }

    /// The world before the first game: in the main menu, with nothing in it.
    pub fn new() -> (world: World)
        ensures
            world@ == initial_world(),
            world.ready(),
    {
        World {
            app: AppState::MainMenu,
            game: GameState::default(),
            player: Player::spawn(),
            platforms: Vec::new(),
            fruit: None,
        }
    }

    /// Tests `ready`.
    pub fn is_ready(&self) -> (r: bool)
        ensures
            r == self.ready(),
    {
        if self.app != AppState::InGame {
            return true;
        }
        if !all_within_range(&self.platforms) {
            return false;
        }
        let fruit_ok: bool = match self.fruit {
            Some(f) => -FAR_LIMIT <= f.x && f.x <= FAR_LIMIT && -FAR_LIMIT <= f.y && f.y
                <= FAR_LIMIT,
            None => true,
        };
        fruit_ok && self.player.is_in_range() && self.game.level < u32::MAX
    }

    /// Begins a level: the layout of `seed`, the fruit of `fruit_seed`, the
    /// player at the spawn point.
    fn enter_level(&mut self, game: GameState, seed: u64, fruit_seed: u64) -> (effects: Vec<
        Effect,
    >)
        ensures
            final(self)@ == new_level(game, seed, fruit_seed),
            effects@ == new_level_effects(final(self).fruit),
            final(self).sound(),
            final(self).player.in_range(),
    {
        let level = generate(seed);
        let fruit = place(&level.platforms, fruit_seed);
        self.app = AppState::InGame;
        self.game = game;
        self.player = Player::spawn();
        self.platforms = level.platforms;
        self.fruit = fruit;
        let mut effects: Vec<Effect> = Vec::new();
        effects.push(Effect::DespawnFruit);
        effects.push(Effect::DespawnPlatforms);
        effects.push(Effect::RespawnPlayer);
        effects.push(Effect::SpawnPlatforms);
        if fruit.is_some() {
            effects.push(Effect::SpawnFruit);
        }
        assert(effects@ =~= new_level_effects(fruit));
        effects
    }

    /// Starts a game from the menu.
    pub fn start(&mut self, now_nanos: u64) -> (effects: Vec<Effect>)
        ensures
            final(self)@ == started(now_nanos).world,
            effects@ == started(now_nanos).effects,
            final(self).app == AppState::InGame,
            final(self).game == initial_game(),
            final(self).sound(),
            final(self).player.in_range(),
    {
        let fruit_seed: u64 = add_seeds(now_nanos, START_FRUIT_SEED_OFFSET);
        self.enter_level(GameState::default(), now_nanos, fruit_seed)
    }

    /// Restarts after the game is over.
    pub fn restart(&mut self, now_nanos: u64) -> (effects: Vec<Effect>)
        ensures
            final(self)@ == restarted(now_nanos).world,
            effects@ == restarted(now_nanos).effects,
            final(self).app == AppState::InGame,
            final(self).game == initial_game(),
            final(self).sound(),
            final(self).player.in_range(),
    {
        let fruit_seed: u64 = add_seeds(now_nanos, FRUIT_SEED_OFFSET);
        let mut effects: Vec<Effect> = Vec::new();
        effects.push(Effect::HideGameOver);
        let mut rest = self.enter_level(GameState::default(), now_nanos, fruit_seed);
        let ghost head = effects@;
        let ghost tail = rest@;
        effects.append(&mut rest);
        assert(effects@ =~= head + tail);
        effects
    }

    /// Goes back to the menu after the game is over.
    pub fn return_to_menu(&mut self) -> (effects: Vec<Effect>)
        ensures
            final(self)@ == returned_to_menu(old(self)@).world,
            effects@ == returned_to_menu(old(self)@).effects,
            old(self).sound() ==> final(self).sound(),
    {
        self.app = AppState::MainMenu;
        let mut effects: Vec<Effect> = Vec::new();
        effects.push(Effect::HideGameOver);
        assert(effects@ =~= seq![Effect::HideGameOver]);
        effects
    }

    /// Collects the fruit: the level goes up and a new level begins.
    pub fn collect(&mut self, now_nanos: u64) -> (effects: Vec<Effect>)
        requires
            old(self).game.level < u32::MAX,
        ensures
            final(self)@ == collected(old(self)@, now_nanos).world,
            effects@ == collected(old(self)@, now_nanos).effects,
            final(self).game.level == old(self).game.level + 1,
            final(self).game.lives == old(self).game.lives,
            final(self).player == spawned(),
            final(self).platforms@ == layout(level_seed(now_nanos, final(self).game.level)).platforms,
            final(self).sound(),
            final(self).player.in_range(),
    {
        let game = GameState { lives: self.game.lives, level: self.game.level + 1 };
        let seed: u64 = make_level_seed(now_nanos, game.level);
        let fruit_seed: u64 = add_seeds(seed, FRUIT_SEED_OFFSET);
        let mut effects: Vec<Effect> = Vec::new();
        effects.push(Effect::PlaySound(Sound::Collect));
        let mut rest = self.enter_level(game, seed, fruit_seed);
        let ghost head = effects@;
        let ghost tail = rest@;
        effects.append(&mut rest);
        assert(effects@ =~= head + tail);
        effects
    }

    /// Takes a life after a fall, and ends the game with the last one.
    pub fn die(&mut self) -> (effects: Vec<Effect>)
        ensures
            final(self)@ == died(old(self)@).world,
            effects@ == died(old(self)@).effects,
            final(self).game.lives == lives_after_fall(old(self).game.lives),
            final(self).game.level == old(self).game.level,
            final(self).platforms@ == old(self).platforms@,
            old(self).sound() ==> final(self).sound(),
            final(self).app == AppState::GameOver || final(self).player.in_range(),
    {
        if self.game.lives > 0 {
            self.game.lives = self.game.lives - 1;
        }
        let mut effects: Vec<Effect> = Vec::new();
        effects.push(Effect::PlaySound(Sound::Death));
        if self.game.lives > 0 {
            self.player = Player::spawn();
            effects.push(Effect::RespawnPlayer);
            assert(effects@ =~= seq![Effect::PlaySound(Sound::Death), Effect::RespawnPlayer]);
        } else {
            self.app = AppState::GameOver;
            self.fruit = None;
            effects.push(Effect::DespawnFruit);
            effects.push(Effect::ShowGameOver);
            assert(effects@ =~= seq![
                Effect::PlaySound(Sound::Death),
                Effect::DespawnFruit,
                Effect::ShowGameOver,
            ]);
        }
        effects
    }

    /// Judges the world once the player has moved: collects a fruit within
    /// reach, else lets a player below the window die.
    pub fn judge(&mut self, now_nanos: u64) -> (effects: Vec<Effect>)
        requires
            old(self).sound(),
            old(self).player.within_reach(),
            old(self).game.level < u32::MAX,
        ensures
            final(self)@ == judged(old(self)@, now_nanos).world,
            effects@ == judged(old(self)@, now_nanos).effects,
            final(self).sound(),
            final(self).player.within_reach(),
    {
        let reached: bool = match self.fruit {
            Some(fruit) => fruit_reached(&self.player, &fruit),
            None => false,
        };
        if reached {
            self.collect(now_nanos)
        } else if has_fallen_off(&self.player) {
            self.die()
        } else {
            Vec::new()
        }
    }

    /// Runs one tick.
    pub fn tick(&mut self, controls: &Controls, dt_micros: u32, now_nanos: u64) -> (effects: Vec<
        Effect,
    >)
        requires
            old(self).ready(),
        ensures
            final(self)@ == ticked(old(self)@, *controls, dt_micros as int, now_nanos).world,
            effects@ == ticked(old(self)@, *controls, dt_micros as int, now_nanos).effects,
            old(self).sound() ==> final(self).sound(),
            final(self).app == AppState::InGame ==> final(self).sound(),
            final(self).app == AppState::InGame ==> final(self).player.within_reach(),
    {
        match self.app {
            AppState::MainMenu => {
                if controls.start {
                    self.start(now_nanos)
                } else {
                    Vec::new()
                }
            },
            AppState::GameOver => {
                if controls.restart {
                    self.restart(now_nanos)
                } else if controls.menu {
                    self.return_to_menu()
                } else {
                    Vec::new()
                }
            },
            AppState::InGame => {
                let mut effects: Vec<Effect> = Vec::new();
                if controls.input.jump_just_pressed && self.player.grounded {
                    effects.push(Effect::PlaySound(Sound::Jump));
                }
                assert(effects@ =~= jump_effects(self.player, controls.input));
                self.player = self.player.step(&controls.input, dt_micros, &self.platforms);
                let mut rest = self.judge(now_nanos);
                let ghost head = effects@;
                let ghost tail = rest@;
                effects.append(&mut rest);
                assert(effects@ =~= head + tail);
                effects
            },
        }
    }
}

} // verus!

use game0::arena::{arena_blocks, Block, ARENA_LEFT, ARENA_RIGHT, BLOCK_SIZE};
use game0::cooldown::Cooldown;
use game0::game::{ActorSlot, Game, GameState, World};
use game0::player::{Directions, Player, MOVE_COOLDOWN_NANOS};

const TENTH: u64 = 100_000_000;

fn held(up: bool, down: bool, left: bool, right: bool) -> Directions {
    Directions { up, down, left, right }
}

fn position(g: &Game) -> (i64, i64) {
    let p = g.player().expect("an actor in play");
    (p.x, p.y)
}

fn game_over(g: &mut Game) {
    g.request_state(GameState::GameOver);
    assert!(g.apply_transition());
}

#[test]
fn new_game_is_playing_with_one_actor_and_full_arena() {
    let g = Game::new();
    assert_eq!(g.state, GameState::Playing);
    assert_eq!(g.next_state, None);
    assert_eq!(g.actor_count(), 1);
    assert_eq!(g.block_count(), 841);
    assert_eq!(position(&g), (0, 0));
    assert_eq!(g.score, 0);
    let p = g.player().unwrap();
    assert_eq!(p.move_cooldown, Cooldown { elapsed: 0, duration: 300_000_000 });
}

#[test]
fn idle_ticks_leave_position_unchanged() {
    let mut g = Game::new();
    for _ in 0..20 {
        g.tick(Directions::none(), false, TENTH);
        assert_eq!(position(&g), (0, 0));
    }
    // the cooldown kept running while idle: a press acts at once
    g.tick(held(false, false, false, true), false, 0);
    assert_eq!(position(&g), (1, 0));
}

#[test]
fn no_move_accepted_within_cooldown() {
    let mut g = Game::new();
    let right = held(false, false, false, true);
    g.tick(right, false, MOVE_COOLDOWN_NANOS);
    assert_eq!(position(&g), (1, 0));
    let all = held(true, true, true, true);
    let up = held(true, false, false, false);
    g.tick(all, false, 100_000_000);
    g.tick(up, false, 150_000_000);
    g.tick(right, false, 49_999_999);
    assert_eq!(position(&g), (1, 0));
    g.tick(up, false, 1);
    assert_eq!(position(&g), (1, 1));
}

#[test]
fn up_and_right_move_diagonally_in_one_tick() {
    let mut g = Game::new();
    g.tick(held(true, false, false, true), false, MOVE_COOLDOWN_NANOS);
    assert_eq!(position(&g), (1, 1));
    assert_eq!(g.player().unwrap().move_cooldown.elapsed, 0);
}

#[test]
fn opposite_directions_cancel_but_rearm_cooldown() {
    let mut p = Player::spawn();
    let moved = p.move_player(held(true, true, false, false), MOVE_COOLDOWN_NANOS);
    assert!(moved);
    assert_eq!((p.x, p.y), (0, 0));
    assert_eq!(p.move_cooldown.elapsed, 0);
}

#[test]
fn holding_right_moves_every_third_tenth_of_a_second() {
    let mut g = Game::new();
    let right = held(false, false, false, true);
    let mut seen = Vec::new();
    for _ in 0..6 {
        g.tick(right, false, TENTH);
        seen.push(position(&g));
    }
    assert_eq!(seen, vec![(0, 0), (0, 0), (1, 0), (1, 0), (1, 0), (2, 0)]);
}

#[test]
fn teardown_removes_every_entity() {
    let mut g = Game::new();
    game_over(&mut g);
    assert_eq!(g.state, GameState::GameOver);
    assert_eq!(g.actor_count(), 0);
    assert_eq!(g.block_count(), 0);
    assert!(g.player().is_none());

    let mut w = World::new();
    w.setup();
    assert_eq!(w.blocks.len(), 841);
    w.teardown();
    assert_eq!(w.actor, ActorSlot::NoActor);
    assert!(w.blocks.is_empty());
}

#[test]
fn restart_from_game_over_resets_actor() {
    let mut g = Game::new();
    let left = held(false, false, true, false);
    let down = held(false, true, false, false);
    g.tick(left, false, MOVE_COOLDOWN_NANOS);
    g.tick(down, false, MOVE_COOLDOWN_NANOS);
    assert_eq!(position(&g), (-1, -1));
    game_over(&mut g);

    // idle ticks in game over do nothing
    g.tick(left, false, TENTH);
    assert_eq!(g.state, GameState::GameOver);
    assert_eq!(g.next_state, None);

    // the restart press requests play; the next tick enters it
    g.tick(Directions::none(), true, TENTH);
    assert_eq!(g.state, GameState::GameOver);
    assert_eq!(g.next_state, Some(GameState::Playing));
    g.tick(Directions::none(), false, TENTH);
    assert_eq!(g.state, GameState::Playing);
    assert_eq!(g.next_state, None);
    assert_eq!(g.actor_count(), 1);
    assert_eq!(g.block_count(), 841);
    assert_eq!(position(&g), (0, 0));
    assert_eq!(g.player().unwrap().move_cooldown.elapsed, TENTH);
}

#[test]
fn entering_play_twice_yields_same_entities() {
    let mut g = Game::new();
    g.tick(held(false, false, false, true), false, MOVE_COOLDOWN_NANOS);
    game_over(&mut g);
    g.request_state(GameState::Playing);
    assert!(g.apply_transition());
    let first = (g.player(), g.world.blocks.clone());
    game_over(&mut g);
    g.request_state(GameState::Playing);
    assert!(g.apply_transition());
    assert_eq!(g.player(), first.0);
    assert_eq!(g.world.blocks, first.1);
    assert_eq!(position(&g), (0, 0));

    let mut w = World::new();
    w.setup();
    w.setup();
    assert_eq!(w.blocks.len(), 841);
    assert_eq!(w.actor, ActorSlot::ActiveActor(Player::spawn()));
}

#[test]
fn request_for_current_state_runs_no_hooks() {
    let mut g = Game::new();
    g.tick(held(false, false, false, true), false, MOVE_COOLDOWN_NANOS);
    g.request_state(GameState::Playing);
    assert!(!g.apply_transition());
    assert_eq!(g.next_state, None);
    assert_eq!(position(&g), (1, 0));
}

#[test]
fn arena_tiles_the_square_row_major() {
    let blocks = arena_blocks();
    assert_eq!(blocks.len(), ((ARENA_RIGHT - ARENA_LEFT) * (ARENA_RIGHT - ARENA_LEFT)) as usize);
    assert_eq!(blocks[0], Block { col: -14, row: -14 });
    assert_eq!(blocks[1], Block { col: -13, row: -14 });
    assert_eq!(blocks[29], Block { col: -14, row: -13 });
    assert_eq!(blocks[840], Block { col: 14, row: 14 });
    let mut cells: Vec<(i64, i64)> = blocks.iter().map(|b| (b.col, b.row)).collect();
    cells.sort();
    cells.dedup();
    assert_eq!(cells.len(), 841);
    assert_eq!(blocks[0].position(), (-14 * BLOCK_SIZE, -14 * BLOCK_SIZE));
    assert_eq!(blocks[840].position(), (448, 448));
}

#[test]
fn cooldown_saturates_and_resets() {
    let mut c = Cooldown::once(300);
    c.tick(100);
    assert!(!c.finished());
    assert_eq!(c.elapsed, 100);
    c.tick(u64::MAX);
    assert!(c.finished());
    assert_eq!(c.elapsed, 300);
    c.reset();
    assert_eq!(c, Cooldown { elapsed: 0, duration: 300 });
    c.tick(299);
    assert!(!c.finished());
    c.tick(1);
    assert!(c.finished());
}

#[test]
fn actor_is_not_clamped_to_arena() {
    let mut g = Game::new();
    let right = held(false, false, false, true);
    for _ in 0..40 {
        g.tick(right, false, MOVE_COOLDOWN_NANOS);
    }
    assert_eq!(position(&g), (40, 0));
}

#[test]
fn room_to_move_at_integer_limits() {
    let mut p = Player::spawn();
    assert!(p.room_to_move());
    p.x = i64::MAX;
    assert!(!p.room_to_move());
    p.x = 0;
    p.y = i64::MIN;
    assert!(!p.room_to_move());
    let mut g = Game::new();
    assert!(g.can_tick());
    game_over(&mut g);
    assert!(g.can_tick());
}

#[test]
fn directions_any() {
    assert!(!Directions::none().any_held());
    assert!(held(false, false, true, false).any_held());
}

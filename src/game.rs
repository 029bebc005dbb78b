use vstd::prelude::*;
use crate::arena::{arena_blocks, arena_cell, arena_size, Block};
use crate::player::{ActorView, Directions, Player, MOVE_COOLDOWN_NANOS};

verus! {

/// The two states of the game. Play starts in `Playing`.
#[derive(Clone, Copy, Debug, PartialEq, Eq, Structural)]
pub enum GameState {
    Playing,
    GameOver,
}

/// The actor entity: absent, or present with its state.
#[derive(Clone, Copy, Debug, PartialEq, Eq, Structural)]
pub enum ActorSlot {
    NoActor,
    ActiveActor(Player),
}

/// The full arena, as blocks in row-major order.
pub open spec fn arena_seq() -> Seq<Block> {
    Seq::new(arena_size() as nat, |i: int| arena_cell(i))
}

/// The entities the game owns, mathematically.
pub ghost struct WorldView {
    pub actor: Option<ActorView>,
    pub blocks: Seq<Block>,
}

impl WorldView {
    pub open spec fn actor_count(self) -> nat {
        if self.actor is Some { 1 } else { 0 }
    }

    pub open spec fn block_count(self) -> nat {
        self.blocks.len()
    }

    /// No entities at all.
    pub open spec fn empty() -> WorldView {
        WorldView { actor: None, blocks: Seq::empty() }
    }

    /// The entities of a game just entered: one fresh actor and the full arena.
    pub open spec fn populated() -> WorldView {
        WorldView { actor: Some(Player::fresh()), blocks: arena_seq() }
    }

    /// What leaving any state leaves behind: every entity is removed.
    pub open spec fn exited(self) -> WorldView {
        WorldView::empty()
    }

    /// What entering a state makes of the entities: entering `Playing` builds the
    /// actor and the arena; entering `GameOver` builds nothing.
    pub open spec fn entered(self, s: GameState) -> WorldView {
        match s {
            GameState::Playing => WorldView::populated(),
            GameState::GameOver => self,
        }
    }
}

/// The entities the game owns: at most one actor, and the arena's blocks.
pub struct World {
    pub actor: ActorSlot,
    pub blocks: Vec<Block>,
}

impl View for World {
    type V = WorldView;

    open spec fn view(&self) -> WorldView {
        WorldView {
            actor: match self.actor {
                ActorSlot::NoActor => None,
                ActorSlot::ActiveActor(p) => Some(p@),
            },
            blocks: self.blocks@,
        }
    }
}

impl World {
    /// The actor's timer is well formed.
    pub open spec fn wf(&self) -> bool {
        match self.actor {
            ActorSlot::NoActor => true,
            ActorSlot::ActiveActor(p) => p.wf(),
        }
    }

    /// The actor, if any, can take one more step in every direction.
    pub open spec fn has_room(&self) -> bool {
        match self.actor {
            ActorSlot::NoActor => true,
            ActorSlot::ActiveActor(p) => p.has_room(),
        }
    }

    /// A world with no entities.
    pub fn new() -> (r: World)
        ensures
            r@ == WorldView::empty(),
            r.wf(),
    {
        World { actor: ActorSlot::NoActor, blocks: Vec::new() }
    }

    /// Removes every entity, whatever was there.
    pub fn teardown(&mut self)
        ensures
            final(self)@ == old(self)@.exited(),
            final(self).wf(),
    {
        self.actor = ActorSlot::NoActor;
        self.blocks = Vec::new();
        assert(self.blocks@ =~= Seq::<Block>::empty());
    }

    /// Builds the entities of a game in play, replacing whatever was there: one
    /// actor at the origin with a freshly armed cooldown, and the full arena.
    pub fn setup(&mut self)
        ensures
            final(self)@ == WorldView::populated(),
            final(self).wf(),
            final(self).has_room(),
    {
        self.actor = ActorSlot::ActiveActor(Player::spawn());
        self.blocks = arena_blocks();
        assert(self.blocks@ =~= arena_seq());
    }
}

/// The whole game, mathematically: its state, a pending transition request,
/// and its entities.
pub ghost struct GameView {
    pub state: GameState,
    pub next: Option<GameState>,
    pub world: WorldView,
}

impl GameView {
    /// The entities match the state: in play, one actor with a timer of the
    /// move cooldown and the full arena; after the game, nothing.
    pub open spec fn wf(self) -> bool {
        match self.state {
            GameState::Playing => match self.world.actor {
                Some(a) => a.wf() && a.duration == MOVE_COOLDOWN_NANOS as nat && self.world.blocks
                    == arena_seq(),
                None => false,
            },
            GameState::GameOver => self.world == WorldView::empty(),
        }
    }

    /// Applies a pending request: for a new state, the exit hook of the old one
    /// and then the enter hook of the new one run; a request for the current
    /// state is dropped with no hook run.
    pub open spec fn transitioned(self) -> GameView {
        match self.next {
            Some(s) => if s != self.state {
                GameView { state: s, next: None, world: self.world.exited().entered(s) }
            } else {
                GameView { next: None, ..self }
            },
            None => self,
        }
    }

    /// One update in the current state: in play the actor moves; after the
    /// game a restart press requests play.
    pub open spec fn updated(self, held: Directions, restart: bool, delta: nat) -> GameView {
        match self.state {
            GameState::Playing => match self.world.actor {
                Some(a) => GameView {
                    world: WorldView { actor: Some(a.advance(held, delta)), ..self.world },
                    ..self
                },
                None => self,
            },
            GameState::GameOver => if restart {
                GameView { next: Some(GameState::Playing), ..self }
            } else {
                self
            },
        }
    }

    /// One tick: pending transitions are applied, then the state's update runs.
    pub open spec fn ticked(self, held: Directions, restart: bool, delta: nat) -> GameView {
        self.transitioned().updated(held, restart, delta)
    }
}

/// The game: its current state, the transition requested for the next tick,
/// the entities it owns, and a score that nothing changes yet.
pub struct Game {
    pub state: GameState,
    pub next_state: Option<GameState>,
    pub world: World,
    pub score: i32,
}

impl View for Game {
    type V = GameView;

    open spec fn view(&self) -> GameView {
        GameView { state: self.state, next: self.next_state, world: self.world@ }
    }
}

impl Game {
    pub open spec fn wf(&self) -> bool {
        self@.wf() && self.world.wf()
    }

    /// A game that has just entered play.
    pub fn new() -> (r: Game)
        ensures
            r@ == (GameView {
                state: GameState::Playing,
                next: None,
                world: WorldView::populated(),
            }),
            r.wf(),
            r.world.has_room(),
            r.score == 0,
    {
        let mut world = World::new();
        world.setup();
        Game { state: GameState::Playing, next_state: None, world, score: 0 }
    }

    /// Requests a transition, applied at the start of the next tick.
    pub fn request_state(&mut self, s: GameState)
        ensures
            final(self)@ == (GameView { next: Some(s), ..old(self)@ }),
            final(self).world == old(self).world,
            final(self).score == old(self).score,
    {
        self.next_state = Some(s);
    }

    /// Applies the pending transition request, if any. Returns whether the
    /// state changed.
    pub fn apply_transition(&mut self) -> (changed: bool)
        requires
            old(self).wf(),
        ensures
            final(self)@ == old(self)@.transitioned(),
            changed == (final(self).state != old(self).state),
            final(self).wf(),
            changed ==> final(self).world.has_room(),
            !changed ==> final(self).world == old(self).world,
            final(self).score == old(self).score,
    {
        match self.next_state {
            Some(s) => {
                self.next_state = None;
                if s != self.state {
                    self.world.teardown();
                    self.state = s;
                    if s == GameState::Playing {
                        self.world.setup();
                    }
                    true
                } else {
                    false
                }
            },
            None => false,
        }
    }

    /// After the game, a restart press requests play.
    pub fn gameover_keyboard(&mut self, restart_just_pressed: bool)
        ensures
            final(self)@ == (if restart_just_pressed {
                GameView { next: Some(GameState::Playing), ..old(self)@ }
            } else {
                old(self)@
            }),
            final(self).world == old(self).world,
            final(self).score == old(self).score,
    {
        if restart_just_pressed {
            self.next_state = Some(GameState::Playing);
        }
    }

    /// Runs the movement operation on the actor, if there is one. Returns
    /// whether it moved.
    pub fn move_player(&mut self, held: Directions, delta: u64) -> (moved: bool)
        requires
            old(self).world.wf(),
            old(self).world.has_room(),
        ensures
            final(self).state == old(self).state,
            final(self).next_state == old(self).next_state,
            final(self).world.blocks == old(self).world.blocks,
            final(self).world.wf(),
            final(self).score == old(self).score,
            match old(self).world.actor {
                ActorSlot::ActiveActor(p) => final(self).world@.actor == Some(p@.advance(held, delta as nat))
                    && moved == p@.accepts(held, delta as nat),
                ActorSlot::NoActor => final(self).world.actor == ActorSlot::NoActor && !moved,
            },
    {
        match &mut self.world.actor {
            ActorSlot::ActiveActor(p) => p.move_player(held, delta),
            ActorSlot::NoActor => false,
        }
    }

    /// The update of the current state: in play the actor moves with the held
    /// directions; after the game only a restart press is watched for.
    pub fn update(&mut self, held: Directions, restart_just_pressed: bool, delta: u64)
        requires
            old(self).wf(),
            old(self).world.has_room(),
        ensures
            final(self)@ == old(self)@.updated(held, restart_just_pressed, delta as nat),
            final(self).wf(),
            final(self).score == old(self).score,
    {
        match self.state {
            GameState::Playing => {
                self.move_player(held, delta);
            },
            GameState::GameOver => {
                self.gameover_keyboard(restart_just_pressed);
            },
        }
    }

    /// Whether the actor, if any, can take one more step in every direction.
    pub fn can_tick(&self) -> (r: bool)
        ensures
            r == self.world.has_room(),
    {
        match &self.world.actor {
            ActorSlot::ActiveActor(p) => p.room_to_move(),
            ActorSlot::NoActor => true,
        }
    }

    /// One tick of `delta` nanoseconds: the pending transition is applied, then
    /// the current state's update runs with this tick's input.
    pub fn tick(&mut self, held: Directions, restart_just_pressed: bool, delta: u64)
        requires
            old(self).wf(),
            old(self).world.has_room(),
        ensures
            final(self)@ == old(self)@.ticked(held, restart_just_pressed, delta as nat),
            final(self).wf(),
            final(self).score == old(self).score,
    {
        self.apply_transition();
        self.update(held, restart_just_pressed, delta);
    }
}

impl Game {
    /// Number of actor entities: one in play, none after the game.
    pub fn actor_count(&self) -> (r: usize)
        ensures
            r == self.world@.actor_count(),
    {
        match self.world.actor {
            ActorSlot::ActiveActor(_) => 1,
            ActorSlot::NoActor => 0,
        }
    }

    /// Number of block entities.
    pub fn block_count(&self) -> (r: usize)
        ensures
            r == self.world@.block_count(),
    {
        self.world.blocks.len()
    }

    /// The actor, if there is one.
    pub fn player(&self) -> (r: Option<Player>)
        ensures
            r is Some <==> self.world.actor is ActiveActor,
            r matches Some(p) ==> self.world.actor == ActorSlot::ActiveActor(p),
    {
        match self.world.actor {
            ActorSlot::ActiveActor(p) => Some(p),
            ActorSlot::NoActor => None,
        }
    }
}

/// Entering play yields exactly one actor, at the origin with a freshly armed
/// cooldown, and one block per arena cell, whatever came before: the enter
/// hook of play makes the same entities from any world, and a transition into
/// play from another state ends there.
pub proof fn entering_playing_resets(g: GameView, w: WorldView)
    requires
        g.next == Some(GameState::Playing),
        g.state != GameState::Playing,
    ensures
        w.entered(GameState::Playing) == WorldView::populated(),
        g.transitioned().state == GameState::Playing,
        g.transitioned().world == WorldView::populated(),
        g.transitioned().world.actor_count() == 1,
        g.transitioned().world.actor == Some(Player::fresh()),
        g.transitioned().world.actor.unwrap().x == 0,
        g.transitioned().world.actor.unwrap().y == 0,
        g.transitioned().world.block_count() == arena_size(),
        g.transitioned().wf(),
{
}

/// Leaving any state removes every actor and block, and a transition into the
/// game-over state leaves none behind.
pub proof fn exit_leaves_no_entities(g: GameView, w: WorldView)
    requires
        g.next == Some(GameState::GameOver),
        g.state != GameState::GameOver,
    ensures
        w.exited().actor_count() == 0,
        w.exited().block_count() == 0,
        g.transitioned().state == GameState::GameOver,
        g.transitioned().world.actor_count() == 0,
        g.transitioned().world.block_count() == 0,
        g.transitioned().wf(),
{
}

/// Every tick keeps the entities in line with the state.
pub proof fn tick_keeps_entities_consistent(
    g: GameView,
    held: Directions,
    restart: bool,
    delta: nat,
)
    requires
        g.wf(),
    ensures
        g.ticked(held, restart, delta).wf(),
        g.ticked(held, restart, delta).state == GameState::Playing ==> g.ticked(
            held,
            restart,
            delta,
        ).world.actor_count() == 1 && g.ticked(held, restart, delta).world.block_count()
            == arena_size(),
        g.ticked(held, restart, delta).state == GameState::GameOver ==> g.ticked(
            held,
            restart,
            delta,
        ).world.actor_count() == 0 && g.ticked(held, restart, delta).world.block_count() == 0,
{
}

/// After the game, a restart press requests play, and the transition that
/// follows brings back the actor at the origin, wherever it had been moved.
pub proof fn restart_returns_to_origin(g: GameView, held: Directions, delta: nat)
    requires
        g.wf(),
        g.state == GameState::GameOver,
        g.next is None,
    ensures
        g.ticked(held, true, delta).next == Some(GameState::Playing),
        g.ticked(held, true, delta).transitioned().state == GameState::Playing,
        g.ticked(held, true, delta).transitioned().world.actor == Some(Player::fresh()),
        g.ticked(held, true, delta).transitioned().world.block_count() == arena_size(),
{
}

} // verus!

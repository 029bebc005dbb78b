use vstd::prelude::*;
use crate::cooldown::Cooldown;

verus! {

/// The actor may move again this long after an accepted move: 0.3 s.
pub const MOVE_COOLDOWN_NANOS: u64 = 300_000_000;

/// The four directional inputs held during one tick; any combination may be held.
#[derive(Clone, Copy, Debug, PartialEq, Eq, Structural)]
pub struct Directions {
    pub up: bool,
    pub down: bool,
    pub left: bool,
    pub right: bool,
}

impl Directions {
    pub open spec fn any(self) -> bool {
        self.up || self.down || self.left || self.right
    }

    /// Cells moved along x when a move is accepted.
    pub open spec fn dx(self) -> int {
        (if self.right { 1int } else { 0int }) - (if self.left { 1int } else { 0int })
    }

    /// Cells moved along y when a move is accepted.
    pub open spec fn dy(self) -> int {
        (if self.up { 1int } else { 0int }) - (if self.down { 1int } else { 0int })
    }

    /// No direction held.
    pub fn none() -> (r: Directions)
        ensures
            !r.any(),
    {
        Directions { up: false, down: false, left: false, right: false }
    }

    pub fn any_held(&self) -> (r: bool)
        ensures
            r == self.any(),
    {
        self.up || self.down || self.left || self.right
    }
}

/// What the actor is, mathematically: a grid cell and its cooldown timer.
pub ghost struct ActorView {
    pub x: int,
    pub y: int,
    pub elapsed: nat,
    pub duration: nat,
}

impl ActorView {
    pub open spec fn wf(self) -> bool {
        self.elapsed <= self.duration
    }

    /// The cooldown has elapsed once this tick's time is added.
    pub open spec fn eligible(self, delta: nat) -> bool {
        self.elapsed + delta >= self.duration
    }

    /// A move is accepted: the cooldown has elapsed and a direction is held.
    pub open spec fn accepts(self, held: Directions, delta: nat) -> bool {
        self.eligible(delta) && held.any()
    }

    /// The actor after one tick of `delta` nanoseconds with `held` directions.
    /// The cooldown advances (saturating at its duration); if it has elapsed and
    /// any direction is held, every held direction moves one cell and the
    /// cooldown is re-armed.
    pub open spec fn advance(self, held: Directions, delta: nat) -> ActorView {
        if self.accepts(held, delta) {
            ActorView {
                x: self.x + held.dx(),
                y: self.y + held.dy(),
                elapsed: 0,
                duration: self.duration,
            }
        } else {
            ActorView {
                x: self.x,
                y: self.y,
                elapsed: if self.eligible(delta) { self.duration } else { self.elapsed + delta },
                duration: self.duration,
            }
        }
    }

    /// The actor after a sequence of ticks, each a held set and a time step.
    pub open spec fn run(self, ticks: Seq<(Directions, nat)>) -> ActorView
        decreases ticks.len(),
    {
        if ticks.len() == 0 {
            self
        } else {
            let before = self.run(ticks.drop_last());
            before.advance(ticks.last().0, ticks.last().1)
        }
    }
}

/// Total time of a sequence of ticks.
pub open spec fn total_time(ticks: Seq<(Directions, nat)>) -> nat
    decreases ticks.len(),
{
    if ticks.len() == 0 {
        0
    } else {
        total_time(ticks.drop_last()) + ticks.last().1
    }
}

/// The controllable actor: a grid cell (unbounded, not clamped to the arena)
/// and the cooldown that gates its moves.
#[derive(Clone, Copy, Debug, PartialEq, Eq, Structural)]
pub struct Player {
    pub x: i64,
    pub y: i64,
    pub move_cooldown: Cooldown,
}

impl View for Player {
    type V = ActorView;

    open spec fn view(&self) -> ActorView {
        ActorView {
            x: self.x as int,
            y: self.y as int,
            elapsed: self.move_cooldown.elapsed as nat,
            duration: self.move_cooldown.duration as nat,
        }
    }
}

impl Player {
    pub open spec fn wf(self) -> bool {
        self.move_cooldown.wf()
    }

    /// One more cell in every direction fits the integer type.
    pub open spec fn has_room(self) -> bool {
        i64::MIN < self.x < i64::MAX && i64::MIN < self.y < i64::MAX
    }

    /// The actor as it enters play: at the origin, with a freshly armed cooldown.
    pub open spec fn fresh() -> ActorView {
        ActorView { x: 0, y: 0, elapsed: 0, duration: MOVE_COOLDOWN_NANOS as nat }
    }

    /// An actor at the origin with a freshly armed cooldown.
    pub fn spawn() -> (r: Player)
        ensures
            r@ == Player::fresh(),
            r.wf(),
            r.has_room(),
    {
        Player { x: 0, y: 0, move_cooldown: Cooldown::once(MOVE_COOLDOWN_NANOS) }
    }

    pub fn room_to_move(&self) -> (r: bool)
        ensures
            r == self.has_room(),
    {
        i64::MIN < self.x && self.x < i64::MAX && i64::MIN < self.y && self.y < i64::MAX
    }

    /// One tick of movement: advances the cooldown by `delta` nanoseconds; once it
    /// has elapsed, applies one cell for each held direction and re-arms it if
    /// anything was held. Returns whether the actor moved.
    pub fn move_player(&mut self, held: Directions, delta: u64) -> (moved: bool)
        requires
            old(self).wf(),
            old(self).has_room(),
        ensures
            moved == old(self)@.accepts(held, delta as nat),
            final(self)@ == old(self)@.advance(held, delta as nat),
            final(self).wf(),
    {
        self.move_cooldown.tick(delta);
        let mut moved = false;
        if self.move_cooldown.finished() {
            if held.up {
                self.y = self.y + 1;
                moved = true;
            }
            if held.down {
                self.y = self.y - 1;
                moved = true;
            }
            if held.right {
                self.x = self.x + 1;
                moved = true;
            }
            if held.left {
                self.x = self.x - 1;
                moved = true;
            }
            if moved {
                self.move_cooldown.reset();
            }
        }
        moved
    }
}

/// With no direction held, the actor keeps its cell over any sequence of ticks.
pub proof fn idle_ticks_keep_position(a: ActorView, ticks: Seq<(Directions, nat)>)
    requires
        forall|i: int| 0 <= i < ticks.len() ==> !(#[trigger] ticks[i]).0.any(),
    ensures
        a.run(ticks).x == a.x,
        a.run(ticks).y == a.y,
    decreases ticks.len(),
{
    if ticks.len() > 0 {
        let rest = ticks.drop_last();
        assert forall|i: int| 0 <= i < rest.len() implies !(#[trigger] rest[i]).0.any() by {
            assert(rest[i] == ticks[i]);
        }
        idle_ticks_keep_position(a, rest);
        assert(!ticks[ticks.len() - 1].0.any());
    }
}

/// While less time than its duration has passed since an accepted move, the
/// actor stays put whatever is held: its cooldown has run exactly that long.
pub proof fn gated_after_move(a: ActorView, ticks: Seq<(Directions, nat)>)
    requires
        a.elapsed == 0,
        total_time(ticks) < a.duration,
    ensures
        a.run(ticks).x == a.x,
        a.run(ticks).y == a.y,
        a.run(ticks).elapsed == total_time(ticks),
        a.run(ticks).duration == a.duration,
    decreases ticks.len(),
{
    if ticks.len() > 0 {
        gated_after_move(a, ticks.drop_last());
    }
}

/// Cooldown gate: once a move is accepted, none of the following ticks accepts
/// a move until the time since it reaches the cooldown's duration.
pub proof fn no_move_within_cooldown(
    a: ActorView,
    held: Directions,
    delta: nat,
    ticks: Seq<(Directions, nat)>,
)
    requires
        a.accepts(held, delta),
        total_time(ticks) < a.duration,
    ensures
        forall|k: int|
            0 <= k < ticks.len() ==> !(#[trigger] a.advance(held, delta).run(ticks.take(k))).accepts(
                ticks[k].0,
                ticks[k].1,
            ),
        a.advance(held, delta).run(ticks).x == a.advance(held, delta).x,
        a.advance(held, delta).run(ticks).y == a.advance(held, delta).y,
{
    let b = a.advance(held, delta);
    gated_after_move(b, ticks);
    assert forall|k: int| 0 <= k < ticks.len() implies !(#[trigger] b.run(
        ticks.take(k),
    )).accepts(ticks[k].0, ticks[k].1) by {
        let pre = ticks.take(k + 1);
        assert(pre.drop_last() =~= ticks.take(k));
        assert(pre.last() == ticks[k]);
        prefix_time_bounded(ticks, k + 1);
        gated_after_move(b, ticks.take(k));
    }
}

/// A prefix of a sequence of ticks takes no longer than the whole.
pub proof fn prefix_time_bounded(ticks: Seq<(Directions, nat)>, n: int)
    requires
        0 <= n <= ticks.len(),
    ensures
        total_time(ticks.take(n)) <= total_time(ticks),
    decreases ticks.len(),
{
    if n < ticks.len() {
        assert(ticks.drop_last().take(n) =~= ticks.take(n));
        prefix_time_bounded(ticks.drop_last(), n);
    } else {
        assert(ticks.take(n) =~= ticks);
    }
}

/// Holding up and right together on an eligible tick moves one cell diagonally
/// in that single tick, and re-arms the cooldown.
pub proof fn up_right_moves_diagonally(a: ActorView, delta: nat)
    requires
        a.eligible(delta),
    ensures
        ({
            let b = a.advance(Directions { up: true, down: false, left: false, right: true }, delta);
            b.x == a.x + 1 && b.y == a.y + 1 && b.elapsed == 0
        }),
{
}

} // verus!

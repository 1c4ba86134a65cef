use vstd::prelude::*;

use crate::codec;
use crate::error::FatalError;
use crate::heading::PlayerHeading;
use crate::player::{Player, PlayerStore};
use crate::tick;

verus! {

/// The stored state after `sender` spawns at domain position `(x, y)` at
/// tick `t`: the previous record for that identity, if any, is overwritten
/// by value.
pub open spec fn spawn_transition(
    players: Map<i64, Player>,
    sender: i64,
    x: i64,
    y: i64,
    t: i64,
) -> Map<i64, Player> {
    players.insert(sender, Player { id: sender, x, y, heading: PlayerHeading::NoHeading, tick: t })
}

/// The stored state after `sender` switches to `heading` at tick `t`: the
/// distance travelled under the old heading is committed as the new
/// baseline position before the heading changes.
pub open spec fn input_transition(
    players: Map<i64, Player>,
    sender: i64,
    heading: PlayerHeading,
    t: i64,
) -> Map<i64, Player>
    recommends
        players.contains_key(sender),
{
    let p = players[sender];
    players.insert(
        sender,
        Player {
            id: sender,
            x: p.extrapolated_x(t as int) as i64,
            y: p.extrapolated_y(t as int) as i64,
            heading,
            tick: t,
        },
    )
}

/// The deterministic entry points of the game contract. Calls against one
/// instance execute strictly one at a time in the ledger's confirmed order,
/// each with the deterministic wall-clock reading `now_ms` of its
/// execution; everything here must be bit-for-bit reproducible across
/// replicas.
pub struct GameContract {
    start_time_ms: u64,
    players: PlayerStore,
}

impl View for GameContract {
    type V = Map<i64, Player>;

    closed spec fn view(&self) -> Map<i64, Player> {
        self.players@
    }
}

impl GameContract {
    /// The one-time stored start of game time.
    pub closed spec fn spec_start_time(&self) -> u64 {
        self.start_time_ms
    }

    /// Stored baselines are filed under their own identity.
    pub closed spec fn wf(&self) -> bool {
        self.players.wf()
    }

    /// The tick a call at `now_ms` executes in.
    pub open spec fn tick_at(&self, now_ms: u64) -> int {
        tick::tick_of(now_ms - self.spec_start_time())
    }

    /// Machine limit: game time since initialization fits the signed
    /// storage width.
    pub open spec fn elapsed_fits(&self, now_ms: u64) -> bool {
        self.spec_start_time() <= now_ms ==> now_ms - self.spec_start_time() <= i64::MAX
    }

    /// Machine limit: extrapolating `id`'s stored baseline to the tick of a
    /// call at `now_ms` stays in 64-bit range.
    pub open spec fn extrapolation_ok(&self, id: i64, now_ms: u64) -> bool {
        (self.spec_start_time() <= now_ms && self@.contains_key(id))
            ==> self@[id].extrapolation_fits(self.tick_at(now_ms))
    }

    /// A fresh contract instance with no players, remembering its
    /// initialization time.
    pub fn new(start_time_ms: u64) -> (c: GameContract)
        ensures
            c@ == Map::<i64, Player>::empty(),
            c.spec_start_time() == start_time_ms,
            c.wf(),
    {
        GameContract { start_time_ms, players: PlayerStore::new() }
    }

    /// Pure read: the game tick a call at `now_ms` falls in.
    pub fn get_current_game_tick(&self, now_ms: u64) -> (r: Result<u64, FatalError>)
        ensures
            r is Ok <==> self.spec_start_time() <= now_ms,
            r matches Ok(t) ==> t == self.tick_at(now_ms),
            r matches Err(e) ==> e == FatalError::TimeBeforeStart,
    {
        tick::game_tick(now_ms, self.start_time_ms)
    }

    /// Creates or overwrites the caller's record at the decoded position,
    /// standing still, baselined at the current tick. The wire coordinates
    /// are decoded fail-fast: values outside the representable range are a
    /// defect, not a state to store.
    pub fn spawn_player(&mut self, sender: i64, x: u64, y: u64, now_ms: u64) -> (r: Result<
        (),
        FatalError,
    >)
        requires
            old(self).wf(),
            old(self).elapsed_fits(now_ms),
        ensures
            final(self).wf(),
            final(self).spec_start_time() == old(self).spec_start_time(),
            r is Ok <==> (old(self).spec_start_time() <= now_ms && codec::in_wire_range(x as int)
                && codec::in_wire_range(y as int)),
            r is Ok ==> final(self)@ == spawn_transition(
                old(self)@,
                sender,
                codec::decoded(x as int) as i64,
                codec::decoded(y as int) as i64,
                old(self).tick_at(now_ms) as i64,
            ),
            r is Err ==> final(self)@ == old(self)@,
            r == Err::<(), FatalError>(FatalError::TimeBeforeStart) <==> now_ms < old(
                self,
            ).spec_start_time(),
            r == Err::<(), FatalError>(FatalError::CoordinateOutOfRange) <==> (old(
                self,
            ).spec_start_time() <= now_ms && !(codec::in_wire_range(x as int)
                && codec::in_wire_range(y as int))),
    {
        let t = match tick::game_tick_i64(now_ms, self.start_time_ms) {
            Err(e) => return Err(e),
            Ok(t) => t,
        };
        let dx = match codec::try_decode(x) {
            Err(e) => return Err(e),
            Ok(v) => v,
        };
        let dy = match codec::try_decode(y) {
            Err(e) => return Err(e),
            Ok(v) => v,
        };
        self.players.save(Player::spawn(sender, dx as i64, dy as i64, t));
        Ok(())
    }

    /// Re-baselines the caller's record per the movement model, then stores
    /// the new heading. Monotonic ticks make a baseline later than the
    /// current tick impossible under correct operation, so that case is a
    /// typed fatal error.
    pub fn apply_input(&mut self, sender: i64, heading_code: u64, now_ms: u64) -> (r: Result<
        (),
        FatalError,
    >)
        requires
            old(self).wf(),
            old(self).elapsed_fits(now_ms),
            old(self).extrapolation_ok(sender, now_ms),
        ensures
            final(self).wf(),
            final(self).spec_start_time() == old(self).spec_start_time(),
            r is Ok <==> (old(self).spec_start_time() <= now_ms && heading_code <= 4 && old(
                self,
            )@.contains_key(sender) && old(self)@[sender].tick <= old(self).tick_at(now_ms)),
            r is Ok ==> final(self)@ == input_transition(
                old(self)@,
                sender,
                PlayerHeading::spec_of_code(heading_code as int),
                old(self).tick_at(now_ms) as i64,
            ),
            // Baseline ticks never move backwards across writes.
            r is Ok ==> old(self)@[sender].tick <= final(self)@[sender].tick,
            r is Err ==> final(self)@ == old(self)@,
            r == Err::<(), FatalError>(FatalError::TimeBeforeStart) <==> now_ms < old(
                self,
            ).spec_start_time(),
            r == Err::<(), FatalError>(FatalError::HeadingCodeOutOfRange) <==> (old(
                self,
            ).spec_start_time() <= now_ms && heading_code > 4),
            r == Err::<(), FatalError>(FatalError::UnknownPlayer) <==> (old(
                self,
            ).spec_start_time() <= now_ms && heading_code <= 4 && !old(self)@.contains_key(sender)),
            r == Err::<(), FatalError>(FatalError::TickBeforeBaseline) <==> (old(
                self,
            ).spec_start_time() <= now_ms && heading_code <= 4 && old(self)@.contains_key(sender)
                && old(self).tick_at(now_ms) < old(self)@[sender].tick),
    {
        let t = match tick::game_tick_i64(now_ms, self.start_time_ms) {
            Err(e) => return Err(e),
            Ok(t) => t,
        };
        if heading_code > 4 {
            return Err(FatalError::HeadingCodeOutOfRange);
        }
        let heading = match PlayerHeading::from_i64(heading_code as i64) {
            Err(e) => return Err(e),
            Ok(h) => h,
        };
        let mut p = match self.players.load(sender) {
            None => return Err(FatalError::UnknownPlayer),
            Some(p) => *p,
        };
        if t < p.tick {
            return Err(FatalError::TickBeforeBaseline);
        }
        p.apply_input(heading, t);
        self.players.save(p);
        Ok(())
    }

    /// Pure read: the wire encoding of where `id` stands on the x axis at
    /// the tick of a call at `now_ms`. A position that extrapolation has
    /// carried outside the representable domain cannot be encoded and is a
    /// typed fatal error.
    pub fn get_player_x(&self, id: i64, now_ms: u64) -> (r: Result<u64, FatalError>)
        requires
            self.elapsed_fits(now_ms),
            self.extrapolation_ok(id, now_ms),
        ensures
            r is Ok <==> (self.spec_start_time() <= now_ms && self@.contains_key(id)
                && self@[id].tick <= self.tick_at(now_ms) && codec::in_domain_range(
                self@[id].extrapolated_x(self.tick_at(now_ms)),
            )),
            r matches Ok(w) ==> w == codec::encoded(self@[id].extrapolated_x(self.tick_at(now_ms))),
            r == Err::<u64, FatalError>(FatalError::TimeBeforeStart) <==> now_ms
                < self.spec_start_time(),
            r == Err::<u64, FatalError>(FatalError::UnknownPlayer) <==> (self.spec_start_time()
                <= now_ms && !self@.contains_key(id)),
            r == Err::<u64, FatalError>(FatalError::TickBeforeBaseline) <==> (self.spec_start_time()
                <= now_ms && self@.contains_key(id) && self.tick_at(now_ms) < self@[id].tick),
            r == Err::<u64, FatalError>(FatalError::CoordinateOutOfRange) <==> (
            self.spec_start_time() <= now_ms && self@.contains_key(id) && self@[id].tick
                <= self.tick_at(now_ms) && !codec::in_domain_range(
                self@[id].extrapolated_x(self.tick_at(now_ms)),
            )),
    {
        let t = match tick::game_tick_i64(now_ms, self.start_time_ms) {
            Err(e) => return Err(e),
            Ok(t) => t,
        };
        let p = match self.players.load(id) {
            None => return Err(FatalError::UnknownPlayer),
            Some(p) => *p,
        };
        if t < p.tick {
            return Err(FatalError::TickBeforeBaseline);
        }
        let (px, _py) = p.get_position(t);
        codec::try_encode(px)
    }

    /// Pure read: the wire encoding of where `id` stands on the y axis at
    /// the tick of a call at `now_ms`.
    pub fn get_player_y(&self, id: i64, now_ms: u64) -> (r: Result<u64, FatalError>)
        requires
            self.elapsed_fits(now_ms),
            self.extrapolation_ok(id, now_ms),
        ensures
            r is Ok <==> (self.spec_start_time() <= now_ms && self@.contains_key(id)
                && self@[id].tick <= self.tick_at(now_ms) && codec::in_domain_range(
                self@[id].extrapolated_y(self.tick_at(now_ms)),
            )),
            r matches Ok(w) ==> w == codec::encoded(self@[id].extrapolated_y(self.tick_at(now_ms))),
            r == Err::<u64, FatalError>(FatalError::TimeBeforeStart) <==> now_ms
                < self.spec_start_time(),
            r == Err::<u64, FatalError>(FatalError::UnknownPlayer) <==> (self.spec_start_time()
                <= now_ms && !self@.contains_key(id)),
            r == Err::<u64, FatalError>(FatalError::TickBeforeBaseline) <==> (self.spec_start_time()
                <= now_ms && self@.contains_key(id) && self.tick_at(now_ms) < self@[id].tick),
            r == Err::<u64, FatalError>(FatalError::CoordinateOutOfRange) <==> (
            self.spec_start_time() <= now_ms && self@.contains_key(id) && self@[id].tick
                <= self.tick_at(now_ms) && !codec::in_domain_range(
                self@[id].extrapolated_y(self.tick_at(now_ms)),
            )),
    {
        let t = match tick::game_tick_i64(now_ms, self.start_time_ms) {
            Err(e) => return Err(e),
            Ok(t) => t,
        };
        let p = match self.players.load(id) {
            None => return Err(FatalError::UnknownPlayer),
            Some(p) => *p,
        };
        if t < p.tick {
            return Err(FatalError::TickBeforeBaseline);
        }
        let (_px, py) = p.get_position(t);
        codec::try_encode(py)
    }

    /// Pure read: the stored heading code of `id`.
    pub fn get_player_heading(&self, id: i64) -> (r: Result<u64, FatalError>)
        ensures
            r is Ok <==> self@.contains_key(id),
            r matches Ok(c) ==> c == self@[id].heading.spec_code(),
            r matches Err(e) ==> e == FatalError::UnknownPlayer,
    {
        match self.players.load(id) {
            None => Err(FatalError::UnknownPlayer),
            Some(p) => Ok(p.get_heading().as_i64() as u64),
        }
    }
}

/// Replayed spawns are idempotent at the state layer: a stored record is a
/// value, not a delta, so deriving state from the same confirmed spawn a
/// second time restates the state the first derivation produced.
pub proof fn lemma_spawn_replay_idempotent(
    players: Map<i64, Player>,
    sender: i64,
    x: i64,
    y: i64,
    t: i64,
)
    ensures
        spawn_transition(spawn_transition(players, sender, x, y, t), sender, x, y, t)
            == spawn_transition(players, sender, x, y, t),
{
    let once = spawn_transition(players, sender, x, y, t);
    assert(spawn_transition(once, sender, x, y, t) =~= once);
}

/// Replayed inputs are idempotent in the same way: the second application
/// extrapolates over a zero tick delta from the baseline the first one
/// wrote, so it writes that same baseline again.
pub proof fn lemma_input_replay_idempotent(
    players: Map<i64, Player>,
    sender: i64,
    heading: PlayerHeading,
    t: i64,
)
    ensures
        input_transition(input_transition(players, sender, heading, t), sender, heading, t)
            == input_transition(players, sender, heading, t),
{
    let once = input_transition(players, sender, heading, t);
    assert(input_transition(once, sender, heading, t) =~= once);
}

} // verus!

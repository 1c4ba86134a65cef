use vstd::prelude::*;

use std::collections::HashMap;

use crate::heading::PlayerHeading;

verus! {

broadcast use vstd::std_specs::hash::group_hash_axioms;

/// Where `heading` carries a point starting at `x` after `delta` ticks.
pub open spec fn project_x(x: int, heading: PlayerHeading, delta: int) -> int {
    match heading {
        PlayerHeading::Left => x - delta,
        PlayerHeading::Right => x + delta,
        _ => x,
    }
}

/// Where `heading` carries a point starting at `y` after `delta` ticks.
pub open spec fn project_y(y: int, heading: PlayerHeading, delta: int) -> int {
    match heading {
        PlayerHeading::Up => y + delta,
        PlayerHeading::Down => y - delta,
        _ => y,
    }
}

/// The stored baseline of one player: the last explicitly written position,
/// heading and tick. Later positions are derived by extrapolation, never
/// stored, which keeps per-player state O(1) regardless of motion duration.
#[derive(Debug, Clone, Copy, PartialEq, Eq, Structural)]
pub struct Player {
    pub id: i64,
    pub x: i64,
    pub y: i64,
    pub heading: PlayerHeading,
    pub tick: i64,
}

impl Player {
    /// The x coordinate this baseline puts the player at, at `now_tick`.
    pub open spec fn extrapolated_x(self, now_tick: int) -> int {
        project_x(self.x as int, self.heading, now_tick - self.tick)
    }

    /// The y coordinate this baseline puts the player at, at `now_tick`.
    pub open spec fn extrapolated_y(self, now_tick: int) -> int {
        project_y(self.y as int, self.heading, now_tick - self.tick)
    }

    /// The tick delta and both extrapolated coordinates stay in machine
    /// range, so extrapolation can be computed in 64-bit arithmetic.
    pub open spec fn extrapolation_fits(self, now_tick: int) -> bool {
        &&& now_tick - self.tick <= i64::MAX
        &&& i64::MIN <= self.extrapolated_x(now_tick) <= i64::MAX
        &&& i64::MIN <= self.extrapolated_y(now_tick) <= i64::MAX
    }

    /// A fresh baseline at `(x, y)`: spawned players stand still until
    /// their first input.
    pub fn spawn(id: i64, x: i64, y: i64, tick: i64) -> (p: Player)
        ensures
            p == (Player { id, x, y, heading: PlayerHeading::NoHeading, tick }),
    {
        Player { id, x, y, heading: PlayerHeading::NoHeading, tick }
    }

    /// The position at `now_tick`, derived lazily from the stored baseline.
    /// Querying a tick before the baseline is excluded: ticks are monotonic
    /// by construction, so such a query would mean corrupted state.
    pub fn get_position(&self, now_tick: i64) -> (pos: (i64, i64))
        requires
            self.tick <= now_tick,
            self.extrapolation_fits(now_tick as int),
        ensures
            pos.0 == self.extrapolated_x(now_tick as int),
            pos.1 == self.extrapolated_y(now_tick as int),
    {
        let delta_t: i64 = now_tick - self.tick;
        let mut x = self.x;
        let mut y = self.y;
        match self.heading {
            PlayerHeading::Up => y = y + delta_t,
            PlayerHeading::Down => y = y - delta_t,
            PlayerHeading::Left => x = x - delta_t,
            PlayerHeading::Right => x = x + delta_t,
            PlayerHeading::NoHeading => (),
        }
        (x, y)
    }

    pub fn get_heading(&self) -> (h: PlayerHeading)
        ensures
            h == self.heading,
    {
        self.heading
    }

    pub fn set_heading(&mut self, heading: PlayerHeading)
        ensures
            *final(self) == (Player { heading, ..*old(self) }),
    {
        self.heading = heading;
    }

    fn set_position(&mut self, x: i64, y: i64, tick: i64)
        ensures
            *final(self) == (Player { x, y, tick, ..*old(self) }),
    {
        self.x = x;
        self.y = y;
        self.tick = tick;
    }

    /// Commits all distance travelled under the current heading by writing
    /// the extrapolated position back as the new baseline at `now_tick`,
    /// then switches to `heading`.
    pub fn apply_input(&mut self, heading: PlayerHeading, now_tick: i64)
        requires
            old(self).tick <= now_tick,
            old(self).extrapolation_fits(now_tick as int),
        ensures
            final(self).id == old(self).id,
            final(self).x == old(self).extrapolated_x(now_tick as int),
            final(self).y == old(self).extrapolated_y(now_tick as int),
            final(self).heading == heading,
            final(self).tick == now_tick,
    {
        let (x, y) = self.get_position(now_tick);
        self.set_position(x, y, now_tick);
        self.set_heading(heading);
    }
}

/// After a spawn at `(x, y)` with baseline tick `t1` whose heading is then
/// set to `h`, with no further writes, the position at any tick `t2 >= t1`
/// is the heading-projected displacement over `t2 - t1`.
pub proof fn lemma_baseline_projection(id: i64, x: i64, y: i64, h: PlayerHeading, t1: i64, t2: i64)
    requires
        t1 <= t2,
    ensures
        ({
            let p = Player { id, x, y, heading: h, tick: t1 };
            let delta = t2 - t1;
            &&& h == PlayerHeading::Up ==> p.extrapolated_x(t2 as int) == x
                && p.extrapolated_y(t2 as int) == y + delta
            &&& h == PlayerHeading::Down ==> p.extrapolated_x(t2 as int) == x
                && p.extrapolated_y(t2 as int) == y - delta
            &&& h == PlayerHeading::Left ==> p.extrapolated_x(t2 as int) == x - delta
                && p.extrapolated_y(t2 as int) == y
            &&& h == PlayerHeading::Right ==> p.extrapolated_x(t2 as int) == x + delta
                && p.extrapolated_y(t2 as int) == y
            &&& h == PlayerHeading::NoHeading ==> p.extrapolated_x(t2 as int) == x
                && p.extrapolated_y(t2 as int) == y
        }),
{
}

/// Applying an input re-baselines at the position reached under the old
/// heading, so motion composes: for `q` the baseline that `apply_input`
/// writes at `t2`, the position at any `t3 >= t2` is the old heading's
/// displacement up to `t2` followed by the new heading's displacement from
/// there on.
pub proof fn lemma_apply_input_composes(
    p: Player,
    q: Player,
    h2: PlayerHeading,
    t2: int,
    t3: int,
)
    requires
        p.tick <= t2 <= t3,
        q.x == p.extrapolated_x(t2),
        q.y == p.extrapolated_y(t2),
        q.heading == h2,
        q.tick == t2,
    ensures
        q.extrapolated_x(t3) == project_x(
            project_x(p.x as int, p.heading, t2 - p.tick),
            h2,
            t3 - t2,
        ),
        q.extrapolated_y(t3) == project_y(
            project_y(p.y as int, p.heading, t2 - p.tick),
            h2,
            t3 - t2,
        ),
{
}

/// The explicit per-identity store owned by a contract instance: the
/// ledger's keyed state slots modeled as one map from identity to stored
/// baseline. State is append-only; an identity's record is only ever
/// overwritten, never deleted.
pub struct PlayerStore {
    players: HashMap<i64, Player>,
}

impl View for PlayerStore {
    type V = Map<i64, Player>;

    closed spec fn view(&self) -> Map<i64, Player> {
        self.players@
    }
}

impl PlayerStore {
    /// Every stored baseline is filed under its own identity.
    pub open spec fn wf(&self) -> bool {
        forall|k: i64| self@.contains_key(k) ==> (#[trigger] self@[k]).id == k
    }

    pub fn new() -> (s: PlayerStore)
        ensures
            s@ == Map::<i64, Player>::empty(),
            s.wf(),
    {
        PlayerStore { players: HashMap::new() }
    }

    /// The stored baseline for `id`, if that identity ever spawned.
    pub fn load(&self, id: i64) -> (r: Option<&Player>)
        ensures
            r is Some <==> self@.contains_key(id),
            r matches Some(p) ==> *p == self@[id],
    {
        self.players.get(&id)
    }

    /// Writes `p` as the stored baseline for its identity. The write is
    /// value-based: saving the same baseline twice leaves the same store as
    /// saving it once.
    pub fn save(&mut self, p: Player)
        ensures
            final(self)@ == old(self)@.insert(p.id, p),
            old(self).wf() ==> final(self).wf(),
    {
        self.players.insert(p.id, p);
    }
}

} // verus!

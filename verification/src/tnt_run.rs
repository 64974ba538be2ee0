//! TNT Run: the sand floors crumble under the players' feet; whoever falls
//! below the lowest floor is out, and the last player standing wins.

use vstd::prelude::*;
use crate::arena::{
    BlockKind, BlockPlacement, BlockPos, BlockSet, cell, fill_layer, in_cell, layer,
    lemma_concat_contains, lemma_layer_contains,
};
use crate::lobby::{
    JoinOutcome, PlayerSet, RoundResult, StartOutcome, StatusReport, alive_after_leave,
    describes_round, eliminate, enqueue, enqueued, join_answer, lemma_remove_value_len, muster,
    queue_after_leave, reports_players, starting_roster, withdraw,
};
use crate::plugin::{PluginInfo, describes, example_plugin_info};

verus! {

/// Lifecycle of a TNT Run round.
#[derive(Debug, Clone, Copy, PartialEq, Eq, Structural)]
pub enum GameState {
    Waiting,
    Active,
    Ended,
}

/// The arena: its horizontal bounds and the heights of its running floors,
/// top to bottom. Each floor is sand over a layer of TNT.
#[derive(Clone, Debug)]
pub struct ArenaConfig {
    pub min_x: i32,
    pub max_x: i32,
    pub min_z: i32,
    pub max_z: i32,
    pub floor_y_levels: Vec<i32>,
}

impl Default for ArenaConfig {
    fn default() -> (c: Self)
        ensures
            c.min_x == -15,
            c.max_x == 15,
            c.min_z == -15,
            c.max_z == 15,
            c.floor_y_levels@ == seq![100i32, 85i32, 70i32],
    {
        let mut floor_y_levels: Vec<i32> = Vec::new();
        floor_y_levels.push(100);
        floor_y_levels.push(85);
        floor_y_levels.push(70);
        proof {
            assert(floor_y_levels@ =~= seq![100i32, 85i32, 70i32]);
        }
        ArenaConfig { min_x: -15, max_x: 15, min_z: -15, max_z: 15, floor_y_levels }
    }
}

/// The column of blocks at (x, z) lies within the arena's bounds.
pub open spec fn inside_xz(c: ArenaConfig, x: int, z: int) -> bool {
    c.min_x <= x <= c.max_x && c.min_z <= z <= c.max_z
}

/// Every floor has room for its TNT layer below it.
pub open spec fn floors_fit(levels: Seq<i32>) -> bool {
    forall|i: int| 0 <= i < levels.len() ==> levels[i] > i32::MIN
}

/// The blocks set to rebuild the floors `levels` over the arena's box: for
/// each floor in order, sand on the floor and TNT below it, row by row.
pub open spec fn floors_layout(c: ArenaConfig, levels: Seq<i32>) -> Seq<BlockPlacement>
    decreases levels.len(),
{
    if levels.len() == 0 {
        Seq::empty()
    } else {
        floors_layout(c, levels.drop_last()) + layer(
            c.min_x as int,
            c.max_x + 1,
            c.min_z as int,
            c.max_z as int,
            levels.last() as int,
            BlockKind::Sand,
            Some(BlockKind::Tnt),
        )
    }
}

impl ArenaConfig {
    /// Whether the column at block coordinates (x, z) lies within the arena.
    /// The caller rounds a player's position down to block coordinates.
    pub fn is_inside_xz(&self, x: i32, z: i32) -> (b: bool)
        ensures
            b == inside_xz(*self, x as int, z as int),
    {
        x >= self.min_x && x <= self.max_x && z >= self.min_z && z <= self.max_z
    }

    /// Whether `y` is the height of one of the running floors.
    pub fn is_floor_level(&self, y: i32) -> (b: bool)
        ensures
            b == self.floor_y_levels@.contains(y),
    {
        let mut i: usize = 0;
        while i < self.floor_y_levels.len()
            invariant
                i <= self.floor_y_levels@.len(),
                forall|j: int| 0 <= j < i ==> self.floor_y_levels@[j] != y,
            decreases self.floor_y_levels@.len() - i,
        {
            if self.floor_y_levels[i] == y {
                return true;
            }
            i += 1;
        }
        false
    }

    /// Whether every floor has room for its TNT layer below it.
    pub fn has_room_below_floors(&self) -> (b: bool)
        ensures
            b == floors_fit(self.floor_y_levels@),
    {
        let mut i: usize = 0;
        while i < self.floor_y_levels.len()
            invariant
                i <= self.floor_y_levels@.len(),
                forall|j: int| 0 <= j < i ==> self.floor_y_levels@[j] > i32::MIN,
            decreases self.floor_y_levels@.len() - i,
        {
            if self.floor_y_levels[i] == i32::MIN {
                return false;
            }
            i += 1;
        }
        true
    }

    /// The blocks to set to rebuild every floor.
    pub fn floor_placements(&self) -> (v: Vec<BlockPlacement>)
        requires
            floors_fit(self.floor_y_levels@),
        ensures
            v@ == floors_layout(*self, self.floor_y_levels@),
    {
        let mut v: Vec<BlockPlacement> = Vec::new();
        let mut i: usize = 0;
        while i < self.floor_y_levels.len()
            invariant
                i <= self.floor_y_levels@.len(),
                floors_fit(self.floor_y_levels@),
                v@ == floors_layout(*self, self.floor_y_levels@.take(i as int)),
            decreases self.floor_y_levels@.len() - i,
        {
            let y = self.floor_y_levels[i];
            let ghost before = v@;
            fill_layer(
                &mut v,
                self.min_x,
                self.max_x,
                self.min_z,
                self.max_z,
                y,
                BlockKind::Sand,
                Some(BlockKind::Tnt),
            );
            proof {
                let levels = self.floor_y_levels@;
                assert(levels.take(i + 1).drop_last() =~= levels.take(i as int));
                assert(levels.take(i + 1).last() == y);
            }
            i += 1;
        }
        proof {
            assert(self.floor_y_levels@.take(i as int) =~= self.floor_y_levels@);
        }
        v
    }
}

/// The blocks set when the floor block at (x, y, z) has crumbled: it and the
/// TNT below it turn to air.
pub open spec fn decayed(x: int, y: int, z: int) -> Seq<BlockPlacement> {
    cell(x, y, z, BlockKind::Air, Some(BlockKind::Air))
}

/// The blocks to set once the floor block at (x, y, z) has crumbled.
pub fn decay_placements(x: i32, y: i32, z: i32) -> (v: Vec<BlockPlacement>)
    requires
        y > i32::MIN,
    ensures
        v@ == decayed(x as int, y as int, z as int),
{
    let mut v: Vec<BlockPlacement> = Vec::new();
    v.push(BlockPlacement { x, y, z, block: BlockKind::Air });
    v.push(BlockPlacement { x, y: y - 1, z, block: BlockKind::Air });
    proof {
        assert(v@ =~= decayed(x as int, y as int, z as int));
    }
    v
}

/// Standing on the block `feet` starts it crumbling: it is a floor block of
/// the arena that is not crumbling already.
pub open spec fn starts_decay(c: ArenaConfig, decaying: Seq<BlockPos>, feet: BlockPos) -> bool {
    &&& inside_xz(c, feet.0 as int, feet.2 as int)
    &&& c.floor_y_levels@.contains(feet.1)
    &&& !decaying.contains(feet)
}

/// What a player's movement led to in TNT Run.
#[derive(Debug)]
pub enum TntMoveOutcome {
    /// Nothing changed.
    Unaffected,
    /// The player was eliminated; the round then stands as given.
    Eliminated(RoundResult),
    /// The floor block under the player's feet starts crumbling.
    Decay(BlockPos),
}

/// The state of the TNT Run game: its phase, its arena, the players waiting
/// for a round, the players still in the current round, and the floor blocks
/// that are crumbling.
pub struct GameSession {
    pub state: GameState,
    pub config: ArenaConfig,
    pub queued_players: PlayerSet,
    pub alive_players: PlayerSet,
    pub recently_decaying: BlockSet,
}

impl GameSession {
    /// Nobody is in a round while waiting, and an ended round has at most one
    /// player left: its winner.
    pub open spec fn phase_consistent(&self) -> bool {
        &&& self.state == GameState::Waiting ==> self.alive_players@.len() == 0
        &&& self.state == GameState::Ended ==> self.alive_players@.len() <= 1
    }

    /// Only floor blocks of the arena crumble.
    pub open spec fn decay_on_floors(&self) -> bool {
        forall|i: int|
            0 <= i < self.recently_decaying@.len() ==> {
                let b = #[trigger] self.recently_decaying@[i];
                inside_xz(self.config, b.0 as int, b.2 as int)
                    && self.config.floor_y_levels@.contains(b.1)
            }
    }

    /// Both invariants of the game.
    pub open spec fn consistent(&self) -> bool {
        self.phase_consistent() && self.decay_on_floors()
    }

    /// A fresh game on the arena `config`, waiting, with nobody queued.
    pub fn new(config: ArenaConfig) -> (s: Self)
        ensures
            s.state == GameState::Waiting,
            s.config == config,
            s.queued_players@ == Seq::<Seq<char>>::empty(),
            s.alive_players@ == Seq::<Seq<char>>::empty(),
            s.recently_decaying@ == Seq::<BlockPos>::empty(),
            s.consistent(),
    {
        GameSession {
            state: GameState::Waiting,
            config,
            queued_players: PlayerSet::new(),
            alive_players: PlayerSet::new(),
            recently_decaying: BlockSet::new(),
        }
    }

    /// `player` asks to join the queue; refused while a round runs.
    pub fn join(&mut self, player: String) -> (r: JoinOutcome)
        ensures
            final(self).state == old(self).state,
            final(self).config == old(self).config,
            final(self).alive_players@ == old(self).alive_players@,
            final(self).recently_decaying@ == old(self).recently_decaying@,
            old(self).state == GameState::Active ==> r == JoinOutcome::GameInProgress
                && final(self).queued_players@ == old(self).queued_players@,
            old(self).state != GameState::Active ==> r == join_answer(
                old(self).queued_players@,
                player@,
            ) && final(self).queued_players@ == enqueued(old(self).queued_players@, player@),
            old(self).consistent() ==> final(self).consistent(),
    {
        if self.state == GameState::Active {
            JoinOutcome::GameInProgress
        } else {
            enqueue(&mut self.queued_players, player)
        }
    }

    /// `player` leaves the game: the queue and the running round.
    /// Returns whether the player was in either.
    pub fn leave(&mut self, player: &String) -> (left: bool)
        ensures
            left == (old(self).queued_players@.contains(player@)
                || old(self).alive_players@.contains(player@)),
            final(self).queued_players@ == queue_after_leave(old(self).queued_players@, player@),
            final(self).alive_players@ == alive_after_leave(old(self).alive_players@, player@),
            final(self).state == old(self).state,
            final(self).config == old(self).config,
            final(self).recently_decaying@ == old(self).recently_decaying@,
            old(self).consistent() ==> final(self).consistent(),
    {
        proof {
            lemma_remove_value_len(self.alive_players@, player@);
        }
        withdraw(&mut self.queued_players, &mut self.alive_players, player)
    }

    /// `starter` starts a round with everyone queued (or alone, if nobody
    /// is queued), with no floor block crumbling; refused while a round runs.
    pub fn start(&mut self, starter: String) -> (r: StartOutcome)
        ensures
            final(self).config == old(self).config,
            old(self).state == GameState::Active ==> r is AlreadyRunning && *final(self) == *old(
                self,
            ),
            old(self).state != GameState::Active ==> {
                &&& final(self).state == GameState::Active
                &&& final(self).queued_players@ == starting_roster(
                    old(self).queued_players@,
                    starter@,
                )
                &&& final(self).alive_players@ == final(self).queued_players@
                &&& final(self).recently_decaying@ == Seq::<BlockPos>::empty()
                &&& r matches StartOutcome::Started(players) && reports_players(
                    players,
                    final(self).alive_players@,
                )
            },
            old(self).consistent() ==> final(self).consistent(),
    {
        if self.state == GameState::Active {
            return StartOutcome::AlreadyRunning;
        }
        let players = muster(&mut self.queued_players, &mut self.alive_players, starter);
        self.state = GameState::Active;
        self.recently_decaying.clear();
        StartOutcome::Started(players)
    }

    /// What the status command reports.
    pub fn status(&self) -> (r: StatusReport)
        ensures
            self.state == GameState::Waiting ==> (r == (StatusReport::Waiting {
                queued: self.queued_players@.len() as usize,
            })),
            self.state == GameState::Active ==> (r matches StatusReport::Active { alive }
                && reports_players(alive, self.alive_players@)),
            self.state == GameState::Ended ==> r is Ended,
    {
        match self.state {
            GameState::Waiting => StatusReport::Waiting { queued: self.queued_players.len() },
            GameState::Active => StatusReport::Active { alive: self.alive_players.names() },
            GameState::Ended => StatusReport::Ended,
        }
    }

    /// Back to waiting: the round is emptied and nothing is crumbling; the
    /// queue and arena are kept.
    pub fn reset(&mut self)
        ensures
            final(self).state == GameState::Waiting,
            final(self).alive_players@ == Seq::<Seq<char>>::empty(),
            final(self).recently_decaying@ == Seq::<BlockPos>::empty(),
            final(self).queued_players@ == old(self).queued_players@,
            final(self).config == old(self).config,
            final(self).consistent(),
    {
        self.state = GameState::Waiting;
        self.alive_players.clear();
        self.recently_decaying.clear();
    }

    /// `player` moved. `below_elimination` tells whether the move ends below
    /// the elimination height, and `feet` is the block under the player's
    /// feet. A player of the running round who falls is out, and the round
    /// ends when at most one player is left; otherwise, a floor block of
    /// the arena that the player stands on starts crumbling, unless it
    /// already is.
    pub fn on_player_move(&mut self, player: &String, below_elimination: bool, feet: BlockPos) -> (r:
        TntMoveOutcome)
        ensures
            final(self).config == old(self).config,
            final(self).queued_players@ == old(self).queued_players@,
            !(old(self).state == GameState::Active && old(self).alive_players@.contains(player@))
                ==> r is Unaffected && *final(self) == *old(self),
            (old(self).state == GameState::Active && old(self).alive_players@.contains(player@)
                && below_elimination) ==> {
                &&& final(self).alive_players@ == old(self).alive_players@.remove_value(player@)
                &&& final(self).recently_decaying@ == old(self).recently_decaying@
                &&& r matches TntMoveOutcome::Eliminated(round) && describes_round(
                    round,
                    final(self).alive_players@,
                )
                &&& final(self).state == (if final(self).alive_players@.len() <= 1 {
                    GameState::Ended
                } else {
                    GameState::Active
                })
            },
            (old(self).state == GameState::Active && old(self).alive_players@.contains(player@)
                && !below_elimination) ==> {
                &&& final(self).state == old(self).state
                &&& final(self).alive_players@ == old(self).alive_players@
                &&& if starts_decay(old(self).config, old(self).recently_decaying@, feet) {
                    &&& r == TntMoveOutcome::Decay(feet)
                    &&& final(self).recently_decaying@ == old(self).recently_decaying@.push(feet)
                } else {
                    &&& r is Unaffected
                    &&& final(self).recently_decaying@ == old(self).recently_decaying@
                }
            },
            old(self).consistent() ==> final(self).consistent(),
    {
        if self.state != GameState::Active || !self.alive_players.contains(player) {
            return TntMoveOutcome::Unaffected;
        }
        if below_elimination {
            let round = eliminate(&mut self.alive_players, player);
            if self.alive_players.len() <= 1 {
                self.state = GameState::Ended;
            }
            return TntMoveOutcome::Eliminated(round);
        }
        if self.config.is_inside_xz(feet.0, feet.2) && self.config.is_floor_level(feet.1) {
            if self.recently_decaying.insert(feet) {
                return TntMoveOutcome::Decay(feet);
            }
        }
        TntMoveOutcome::Unaffected
    }

    /// The block at `pos` has finished crumbling; it may crumble again.
    pub fn finish_decay(&mut self, pos: BlockPos) -> (was_decaying: bool)
        ensures
            was_decaying == old(self).recently_decaying@.contains(pos),
            final(self).recently_decaying@ == old(self).recently_decaying@.remove_value(pos),
            final(self).state == old(self).state,
            final(self).config == old(self).config,
            final(self).queued_players@ == old(self).queued_players@,
            final(self).alive_players@ == old(self).alive_players@,
            old(self).consistent() ==> final(self).consistent(),
    {
        proof {
            let s = self.recently_decaying@;
            s.index_of_first_ensures(pos);
            if s.contains(pos) {
                let i = s.index_of_first(pos)->0;
                assert forall|k: int| 0 <= k < s.remove(i).len() implies #[trigger] s.remove(i)[k]
                    == s[if k < i { k } else { k + 1 }] by {}
            }
        }
        self.recently_decaying.remove(pos)
    }
}

/// Rebuilding the arena sets exactly the floors: each block set is the sand
/// of a floor, or the TNT right below it, within the arena's bounds; and each
/// such block is set.
pub proof fn law_rebuild_covers_floors(c: ArenaConfig, levels: Seq<i32>, p: BlockPlacement)
    requires
        floors_fit(levels),
    ensures
        floors_layout(c, levels).contains(p) <==> (inside_xz(c, p.x as int, p.z as int) && exists|
            i: int,
        |
            0 <= i < levels.len() && in_cell(
                p,
                p.x as int,
                #[trigger] levels[i] as int,
                p.z as int,
                BlockKind::Sand,
                Some(BlockKind::Tnt),
            )),
    decreases levels.len(),
{
    if levels.len() > 0 {
        let rest = levels.drop_last();
        let y = levels.last();
        assert(floors_fit(rest)) by {
            assert forall|i: int| 0 <= i < rest.len() implies rest[i] > i32::MIN by {
                assert(rest[i] == levels[i]);
            }
        }
        law_rebuild_covers_floors(c, rest, p);
        let top = layer(
            c.min_x as int,
            c.max_x + 1,
            c.min_z as int,
            c.max_z as int,
            y as int,
            BlockKind::Sand,
            Some(BlockKind::Tnt),
        );
        lemma_concat_contains(floors_layout(c, rest), top, p);
        lemma_layer_contains(
            c.min_x as int,
            c.max_x + 1,
            c.min_z as int,
            c.max_z as int,
            y as int,
            BlockKind::Sand,
            Some(BlockKind::Tnt),
            p,
        );
        let n = levels.len() - 1;
        assert(levels[n] == y);
        if inside_xz(c, p.x as int, p.z as int) && exists|i: int|
            0 <= i < levels.len() && in_cell(
                p,
                p.x as int,
                #[trigger] levels[i] as int,
                p.z as int,
                BlockKind::Sand,
                Some(BlockKind::Tnt),
            ) {
            let i = choose|i: int|
                0 <= i < levels.len() && in_cell(
                    p,
                    p.x as int,
                    #[trigger] levels[i] as int,
                    p.z as int,
                    BlockKind::Sand,
                    Some(BlockKind::Tnt),
                );
            if i < n {
                assert(rest[i] == levels[i]);
            }
        }
        if floors_layout(c, rest).contains(p) {
            let i = choose|i: int|
                0 <= i < rest.len() && in_cell(
                    p,
                    p.x as int,
                    #[trigger] rest[i] as int,
                    p.z as int,
                    BlockKind::Sand,
                    Some(BlockKind::Tnt),
                );
            assert(levels[i] == rest[i]);
        }
    }
}

/// A block that is decaying does not start decaying again; once its decay
/// has finished, standing on it starts it again.
pub proof fn law_decay_once_at_a_time(c: ArenaConfig, decaying: Seq<BlockPos>, feet: BlockPos)
    requires
        decaying.no_duplicates(),
        starts_decay(c, decaying, feet),
    ensures
        !starts_decay(c, decaying.push(feet), feet),
        starts_decay(c, decaying.push(feet).remove_value(feet), feet),
{
    let d = decaying.push(feet);
    assert(d[decaying.len() as int] == feet);
    d.index_of_first_ensures(feet);
    let i = d.index_of_first(feet)->0;
    assert(i == decaying.len()) by {
        if i < decaying.len() {
            assert(decaying[i] == feet);
        }
    }
    assert(d.remove(i) =~= decaying);
}

/// A running player's step starts the decay of the block under the feet
/// exactly when that block lies within the arena's x and z bounds, its height
/// is one of the floor heights (any of them, the lowest included), and it is
/// not decaying already.
pub proof fn law_decay_on_every_floor(c: ArenaConfig, decaying: Seq<BlockPos>, feet: BlockPos)
    ensures
        starts_decay(c, decaying, feet) <==> (c.min_x <= feet.0 <= c.max_x && c.min_z <= feet.2
            <= c.max_z && (exists|i: int|
            0 <= i < c.floor_y_levels@.len() && #[trigger] c.floor_y_levels@[i] == feet.1)
            && (forall|j: int| 0 <= j < decaying.len() ==> #[trigger] decaying[j] != feet)),
        forall|i: int|
            0 <= i < c.floor_y_levels@.len() && c.min_x <= feet.0 <= c.max_x && c.min_z <= feet.2
                <= c.max_z && !decaying.contains((feet.0, #[trigger] c.floor_y_levels@[i], feet.2))
                ==> starts_decay(c, decaying, (feet.0, c.floor_y_levels@[i], feet.2)),
{
    assert forall|i: int|
        0 <= i < c.floor_y_levels@.len() && c.min_x <= feet.0 <= c.max_x && c.min_z <= feet.2
            <= c.max_z && !decaying.contains((feet.0, #[trigger] c.floor_y_levels@[i], feet.2))
            implies starts_decay(c, decaying, (feet.0, c.floor_y_levels@[i], feet.2)) by {
        assert(c.floor_y_levels@.contains(c.floor_y_levels@[i]));
    }
}

/// A decayed block and the TNT under it turn to air, and nothing else changes:
/// exactly two blocks are set, the block itself and the one right below it.
pub proof fn law_decay_clears_block_and_tnt(x: int, y: int, z: int)
    requires
        i32::MIN < y <= i32::MAX,
        i32::MIN <= x <= i32::MAX,
        i32::MIN <= z <= i32::MAX,
    ensures
        decayed(x, y, z).len() == 2,
        decayed(x, y, z)[0].x == x && decayed(x, y, z)[0].y == y && decayed(x, y, z)[0].z == z,
        decayed(x, y, z)[1].x == x && decayed(x, y, z)[1].y == y - 1 && decayed(x, y, z)[1].z == z,
        decayed(x, y, z)[0].block == BlockKind::Air && decayed(x, y, z)[1].block == BlockKind::Air,
{
}

/// The arena's columns are those of its x and z bounds, inclusive.
pub proof fn law_arena_columns(c: ArenaConfig, x: int, z: int)
    ensures
        inside_xz(c, x, z) <==> (c.min_x <= x <= c.max_x && c.min_z <= z <= c.max_z),
{
}

/// The invariants say that nobody is in a round while the game waits, that at
/// most one player is left once a round has ended, and that every decaying
/// block lies within the arena's columns at one of the floor heights.
pub proof fn law_consistency_meaning(s: GameSession)
    ensures
        s.consistent() <==> ((s.state == GameState::Waiting ==> s.alive_players@.len() == 0) && (
        s.state == GameState::Ended ==> s.alive_players@.len() <= 1) && forall|i: int|
            0 <= i < s.recently_decaying@.len() ==> s.config.min_x <= (
            #[trigger] s.recently_decaying@[i]).0 <= s.config.max_x && s.config.min_z
                <= s.recently_decaying@[i].2 <= s.config.max_z && exists|j: int|
                0 <= j < s.config.floor_y_levels@.len() && #[trigger] s.config.floor_y_levels@[j]
                    == s.recently_decaying@[i].1),
{
}

/// The TNT Run plugin.
pub struct TntRunPlugin;

impl TntRunPlugin {
    /// The plugin instance.
    pub fn new() -> Self {
        TntRunPlugin
    }

    /// What the plugin tells the server about itself, at `version`.
    pub fn metadata(&self, version: String) -> (info: PluginInfo)
        ensures
            describes(
                info,
                "tnt-run"@,
                version@,
                "A complete TNT Run minigame for Pumpkin Minecraft server."@,
                Seq::empty(),
            ),
    {
        example_plugin_info(
            "tnt-run",
            version,
            "A complete TNT Run minigame for Pumpkin Minecraft server.",
            Vec::new(),
        )
    }
}

} // verus!

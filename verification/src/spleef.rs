//! Spleef: players break the snow floor under each other; whoever falls
//! below the arena is out, and the last player standing wins. Blocks outside
//! the arena's bounds, and the floor outside a round, are protected.

use vstd::prelude::*;
use crate::arena::{BlockKind, BlockPlacement, BreakFlags, fill_layer, layer, lemma_layer_contains};
use crate::lobby::{
    JoinOutcome, MoveOutcome, PlayerSet, StartOutcome, StatusReport, alive_after_leave, lemma_remove_value_len,
    describes_round, eliminate, enqueue, enqueued, join_answer, muster, queue_after_leave,
    reports_players, starting_roster, withdraw,
};
use crate::plugin::{PluginInfo, describes, example_plugin_info};

verus! {

/// Lifecycle of a Spleef round.
#[derive(Debug, Clone, Copy, PartialEq, Eq, Structural)]
pub enum GameState {
    Waiting,
    Active,
    Ended,
}

/// Spleef arena boundaries and the height of the snow floor.
#[derive(Clone, Copy, Debug, PartialEq, Eq, Structural)]
pub struct SpleefConfig {
    pub min_x: i32,
    pub max_x: i32,
    pub min_z: i32,
    pub max_z: i32,
    pub floor_y: i32,
}

impl Default for SpleefConfig {
    fn default() -> (c: Self)
        ensures
            c.min_x == -12,
            c.max_x == 12,
            c.min_z == -12,
            c.max_z == 12,
            c.floor_y == 100,
    {
        SpleefConfig { min_x: -12, max_x: 12, min_z: -12, max_z: 12, floor_y: 100 }
    }
}

/// The column at (x, z) lies within the arena's bounds.
pub open spec fn inside_bounds(c: SpleefConfig, x: int, z: int) -> bool {
    c.min_x <= x <= c.max_x && c.min_z <= z <= c.max_z
}

/// The block at (x, y, z) is part of the snow floor.
pub open spec fn inside_floor(c: SpleefConfig, x: int, y: int, z: int) -> bool {
    y == c.floor_y && c.min_x <= x <= c.max_x && c.min_z <= z <= c.max_z
}

/// The blocks set when the arena is rebuilt: snow over the whole floor, row
/// by row.
pub open spec fn floor_layout(c: SpleefConfig) -> Seq<BlockPlacement> {
    layer(
        c.min_x as int,
        c.max_x + 1,
        c.min_z as int,
        c.max_z as int,
        c.floor_y as int,
        BlockKind::SnowBlock,
        None,
    )
}

impl SpleefConfig {
    /// Whether the block at (x, y, z) is part of the snow floor.
    pub fn is_inside_floor(&self, x: i32, y: i32, z: i32) -> (b: bool)
        ensures
            b == inside_floor(*self, x as int, y as int, z as int),
    {
        y == self.floor_y && x >= self.min_x && x <= self.max_x && z >= self.min_z && z
            <= self.max_z
    }

    /// Whether the column at (x, z) lies within the arena's bounds.
    pub fn is_inside_bounds(&self, x: i32, z: i32) -> (b: bool)
        ensures
            b == inside_bounds(*self, x as int, z as int),
    {
        x >= self.min_x && x <= self.max_x && z >= self.min_z && z <= self.max_z
    }

    /// The blocks to set to rebuild the snow floor.
    pub fn floor_placements(&self) -> (v: Vec<BlockPlacement>)
        ensures
            v@ == floor_layout(*self),
    {
        let mut v: Vec<BlockPlacement> = Vec::new();
        fill_layer(
            &mut v,
            self.min_x,
            self.max_x,
            self.min_z,
            self.max_z,
            self.floor_y,
            BlockKind::SnowBlock,
            None,
        );
        proof {
            assert(v@ =~= floor_layout(*self));
        }
        v
    }
}

/// The state of the Spleef game: its phase, its arena, the players waiting
/// for a round, and the players still in the current round.
pub struct SpleefSession {
    pub state: GameState,
    pub config: SpleefConfig,
    pub queued_players: PlayerSet,
    pub alive_players: PlayerSet,
}

impl SpleefSession {
    /// Nobody is in a round while waiting, and an ended round has at most one
    /// player left: its winner.
    pub open spec fn phase_consistent(&self) -> bool {
        &&& self.state == GameState::Waiting ==> self.alive_players@.len() == 0
        &&& self.state == GameState::Ended ==> self.alive_players@.len() <= 1
    }

    /// A fresh game on the arena `config`, waiting, with nobody queued.
    pub fn new(config: SpleefConfig) -> (s: Self)
        ensures
            s.state == GameState::Waiting,
            s.config == config,
            s.queued_players@ == Seq::<Seq<char>>::empty(),
            s.alive_players@ == Seq::<Seq<char>>::empty(),
            s.phase_consistent(),
    {
        SpleefSession {
            state: GameState::Waiting,
            config,
            queued_players: PlayerSet::new(),
            alive_players: PlayerSet::new(),
        }
    }

    /// `player` asks to join the queue; refused while a round runs.
    pub fn join(&mut self, player: String) -> (r: JoinOutcome)
        ensures
            final(self).state == old(self).state,
            final(self).config == old(self).config,
            final(self).alive_players@ == old(self).alive_players@,
            old(self).state == GameState::Active ==> r == JoinOutcome::GameInProgress
                && final(self).queued_players@ == old(self).queued_players@,
            old(self).state != GameState::Active ==> r == join_answer(
                old(self).queued_players@,
                player@,
            ) && final(self).queued_players@ == enqueued(old(self).queued_players@, player@),
            old(self).phase_consistent() ==> final(self).phase_consistent(),
    {
        if self.state == GameState::Active {
            JoinOutcome::GameInProgress
        } else {
            enqueue(&mut self.queued_players, player)
        }
    }

    /// `player` leaves the game: the queue and the running round.
    /// Returns whether the player was in either.
    pub fn leave(&mut self, player: &String) -> (left: bool)
        ensures
            left == (old(self).queued_players@.contains(player@)
                || old(self).alive_players@.contains(player@)),
            final(self).queued_players@ == queue_after_leave(old(self).queued_players@, player@),
            final(self).alive_players@ == alive_after_leave(old(self).alive_players@, player@),
            final(self).state == old(self).state,
            final(self).config == old(self).config,
            old(self).phase_consistent() ==> final(self).phase_consistent(),
    {
        proof {
            lemma_remove_value_len(self.alive_players@, player@);
        }
        withdraw(&mut self.queued_players, &mut self.alive_players, player)
    }

    /// `starter` starts a round with everyone queued (or alone, if nobody
    /// is queued); refused while a round runs.
    pub fn start(&mut self, starter: String) -> (r: StartOutcome)
        ensures
            final(self).config == old(self).config,
            old(self).state == GameState::Active ==> r is AlreadyRunning && *final(self) == *old(
                self,
            ),
            old(self).state != GameState::Active ==> {
                &&& final(self).state == GameState::Active
                &&& final(self).queued_players@ == starting_roster(
                    old(self).queued_players@,
                    starter@,
                )
                &&& final(self).alive_players@ == final(self).queued_players@
                &&& r matches StartOutcome::Started(players) && reports_players(
                    players,
                    final(self).alive_players@,
                )
            },
            old(self).phase_consistent() ==> final(self).phase_consistent(),
    {
        if self.state == GameState::Active {
            return StartOutcome::AlreadyRunning;
        }
        let players = muster(&mut self.queued_players, &mut self.alive_players, starter);
        self.state = GameState::Active;
        StartOutcome::Started(players)
    }

    /// What the status command reports.
    pub fn status(&self) -> (r: StatusReport)
        ensures
            self.state == GameState::Waiting ==> (r == (StatusReport::Waiting {
                queued: self.queued_players@.len() as usize,
            })),
            self.state == GameState::Active ==> (r matches StatusReport::Active { alive }
                && reports_players(alive, self.alive_players@)),
            self.state == GameState::Ended ==> r is Ended,
    {
        match self.state {
            GameState::Waiting => StatusReport::Waiting { queued: self.queued_players.len() },
            GameState::Active => StatusReport::Active { alive: self.alive_players.names() },
            GameState::Ended => StatusReport::Ended,
        }
    }

    /// Back to waiting: the round is emptied, the queue and arena kept.
    pub fn reset(&mut self)
        ensures
            final(self).state == GameState::Waiting,
            final(self).alive_players@ == Seq::<Seq<char>>::empty(),
            final(self).queued_players@ == old(self).queued_players@,
            final(self).config == old(self).config,
            final(self).phase_consistent(),
    {
        self.state = GameState::Waiting;
        self.alive_players.clear();
    }

    /// Decides a block break at (x, y, z) by `breaker` (if a player broke
    /// it), given the event's flags so far. Outside the arena's bounds every
    /// break is cancelled. The floor may be broken only by a player of the
    /// running round, and then drops nothing; anyone else's break of the
    /// floor is cancelled. Other blocks within the bounds are left alone.
    pub fn on_block_break(
        &self,
        x: i32,
        y: i32,
        z: i32,
        breaker: Option<&String>,
        flags: BreakFlags,
    ) -> (r: BreakFlags)
        ensures
            !inside_bounds(self.config, x as int, z as int) ==> r == (BreakFlags {
                cancelled: true,
                should_drop: flags.should_drop,
            }),
            inside_floor(self.config, x as int, y as int, z as int) ==> {
                if self.state == GameState::Active && (breaker matches Some(b)
                    && self.alive_players@.contains(b@)) {
                    r == (BreakFlags { cancelled: false, should_drop: false })
                } else {
                    r == (BreakFlags { cancelled: true, should_drop: flags.should_drop })
                }
            },
            inside_bounds(self.config, x as int, z as int) && y != self.config.floor_y ==> r
                == flags,
    {
        if !self.config.is_inside_bounds(x, z) {
            return BreakFlags { cancelled: true, should_drop: flags.should_drop };
        }
        if self.config.is_inside_floor(x, y, z) {
            if self.state == GameState::Active {
                if let Some(b) = breaker {
                    if self.alive_players.contains(b) {
                        return BreakFlags { cancelled: false, should_drop: false };
                    }
                }
            }
            return BreakFlags { cancelled: true, should_drop: flags.should_drop };
        }
        flags
    }

    /// `player` moved; `below_elimination` tells whether the move ends below
    /// the elimination height. A player of the running round who falls
    /// below it is out; the round ends when at most one player is left.
    pub fn on_player_move(&mut self, player: &String, below_elimination: bool) -> (r:
        MoveOutcome)
        ensures
            final(self).config == old(self).config,
            final(self).queued_players@ == old(self).queued_players@,
            !(old(self).state == GameState::Active && old(self).alive_players@.contains(player@)
                && below_elimination) ==> r is Unaffected && *final(self) == *old(self),
            (old(self).state == GameState::Active && old(self).alive_players@.contains(player@)
                && below_elimination) ==> {
                &&& final(self).alive_players@ == old(self).alive_players@.remove_value(player@)
                &&& r matches MoveOutcome::Eliminated(round) && describes_round(
                    round,
                    final(self).alive_players@,
                )
                &&& final(self).state == (if final(self).alive_players@.len() <= 1 {
                    GameState::Ended
                } else {
                    GameState::Active
                })
            },
            old(self).phase_consistent() ==> final(self).phase_consistent(),
    {
        if self.state != GameState::Active || !self.alive_players.contains(player) {
            return MoveOutcome::Unaffected;
        }
        if !below_elimination {
            return MoveOutcome::Unaffected;
        }
        let round = eliminate(&mut self.alive_players, player);
        if self.alive_players.len() <= 1 {
            self.state = GameState::Ended;
        }
        MoveOutcome::Eliminated(round)
    }
}

/// Rebuilding the arena sets snow exactly on the floor: each block set is a
/// snow block of the floor, and each block of the floor is set.
pub proof fn law_rebuild_covers_floor(c: SpleefConfig, p: BlockPlacement)
    ensures
        floor_layout(c).contains(p) <==> (inside_floor(c, p.x as int, p.y as int, p.z as int)
            && p.block == BlockKind::SnowBlock),
{
    lemma_layer_contains(
        c.min_x as int,
        c.max_x + 1,
        c.min_z as int,
        c.max_z as int,
        c.floor_y as int,
        BlockKind::SnowBlock,
        None,
        p,
    );
}

/// The snow floor is the layer at the floor's height of the arena's box, and
/// that box is what bounds the arena: a floor block is within the bounds.
pub proof fn law_floor_is_box(c: SpleefConfig, x: int, y: int, z: int)
    ensures
        inside_bounds(c, x, z) <==> (c.min_x <= x <= c.max_x && c.min_z <= z <= c.max_z),
        inside_floor(c, x, y, z) <==> (y == c.floor_y && c.min_x <= x <= c.max_x && c.min_z <= z
            <= c.max_z),
        inside_floor(c, x, y, z) ==> inside_bounds(c, x, z),
{
}

/// The phase invariant says that nobody is in a round while the game waits,
/// and that at most one player is left once a round has ended.
pub proof fn law_phase_meaning(s: SpleefSession)
    ensures
        s.phase_consistent() <==> ((s.state == GameState::Waiting ==> s.alive_players@.len() == 0)
            && (s.state == GameState::Ended ==> s.alive_players@.len() <= 1)),
{
}

/// The Spleef plugin.
pub struct SpleefPlugin;

impl SpleefPlugin {
    /// The plugin instance.
    pub fn new() -> Self {
        SpleefPlugin
    }

    /// What the plugin tells the server about itself, at `version`.
    pub fn metadata(&self, version: String) -> (info: PluginInfo)
        ensures
            describes(
                info,
                "spleef"@,
                version@,
                "A complete Spleef minigame for Pumpkin Minecraft server."@,
                Seq::empty(),
            ),
    {
        example_plugin_info(
            "spleef",
            version,
            "A complete Spleef minigame for Pumpkin Minecraft server.",
            Vec::new(),
        )
    }
}

} // verus!

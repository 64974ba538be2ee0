//! Sumo: players push each other off a small ring; whoever falls below it
//! is out, and the last player on the ring wins. The ring cannot be broken.

use vstd::prelude::*;
use crate::arena::{BlockKind, BlockPlacement, BreakFlags, fill_layer, layer, lemma_layer_contains};
use crate::lobby::{
    JoinOutcome, MoveOutcome, PlayerSet, StartOutcome, StatusReport, alive_after_leave, lemma_remove_value_len,
    describes_round, eliminate, enqueue, enqueued, join_answer, muster, queue_after_leave,
    reports_players, starting_roster, withdraw,
};
use crate::plugin::{PluginInfo, describes, example_plugin_info};

verus! {

/// Lifecycle of a Sumo round.
#[derive(Debug, Clone, Copy, PartialEq, Eq, Structural)]
pub enum GameState {
    Waiting,
    Active,
    Ended,
}

/// Sumo ring boundaries and the height of its platform.
#[derive(Clone, Copy, Debug, PartialEq, Eq, Structural)]
pub struct SumoConfig {
    pub min_x: i32,
    pub max_x: i32,
    pub min_z: i32,
    pub max_z: i32,
    pub platform_y: i32,
}

impl Default for SumoConfig {
    fn default() -> (c: Self)
        ensures
            c.min_x == -6,
            c.max_x == 6,
            c.min_z == -6,
            c.max_z == 6,
            c.platform_y == 100,
    {
        SumoConfig { min_x: -6, max_x: 6, min_z: -6, max_z: 6, platform_y: 100 }
    }
}

/// The block at (x, y, z) is part of the ring's platform.
pub open spec fn inside_platform(c: SumoConfig, x: int, y: int, z: int) -> bool {
    y == c.platform_y && c.min_x <= x <= c.max_x && c.min_z <= z <= c.max_z
}

/// The blocks set when the ring is rebuilt: smooth stone over the whole
/// platform, row by row.
pub open spec fn platform_layout(c: SumoConfig) -> Seq<BlockPlacement> {
    layer(
        c.min_x as int,
        c.max_x + 1,
        c.min_z as int,
        c.max_z as int,
        c.platform_y as int,
        BlockKind::SmoothStone,
        None,
    )
}

impl SumoConfig {
    /// Whether the block at (x, y, z) is part of the ring's platform.
    pub fn is_inside_platform(&self, x: i32, y: i32, z: i32) -> (b: bool)
        ensures
            b == inside_platform(*self, x as int, y as int, z as int),
    {
        y == self.platform_y && x >= self.min_x && x <= self.max_x && z >= self.min_z && z
            <= self.max_z
    }

    /// The blocks to set to rebuild the platform.
    pub fn platform_placements(&self) -> (v: Vec<BlockPlacement>)
        ensures
            v@ == platform_layout(*self),
    {
        let mut v: Vec<BlockPlacement> = Vec::new();
        fill_layer(
            &mut v,
            self.min_x,
            self.max_x,
            self.min_z,
            self.max_z,
            self.platform_y,
            BlockKind::SmoothStone,
            None,
        );
        proof {
            assert(v@ =~= platform_layout(*self));
        }
        v
    }
}

/// The state of the Sumo game: its phase, its ring, the players waiting
/// for a round, and the players still in the current round.
pub struct SumoSession {
    pub state: GameState,
    pub config: SumoConfig,
    pub queued_players: PlayerSet,
    pub alive_players: PlayerSet,
}

impl SumoSession {
    /// Nobody is in a round while waiting, and an ended round has at most one
    /// player left: its winner.
    pub open spec fn phase_consistent(&self) -> bool {
        &&& self.state == GameState::Waiting ==> self.alive_players@.len() == 0
        &&& self.state == GameState::Ended ==> self.alive_players@.len() <= 1
    }

    /// A fresh game on the ring `config`, waiting, with nobody queued.
    pub fn new(config: SumoConfig) -> (s: Self)
        ensures
            s.state == GameState::Waiting,
            s.config == config,
            s.queued_players@ == Seq::<Seq<char>>::empty(),
            s.alive_players@ == Seq::<Seq<char>>::empty(),
            s.phase_consistent(),
    {
        SumoSession {
            state: GameState::Waiting,
            config,
            queued_players: PlayerSet::new(),
            alive_players: PlayerSet::new(),
        }
    }

    /// `player` asks to join the queue; refused while a round runs.
    pub fn join(&mut self, player: String) -> (r: JoinOutcome)
        ensures
            final(self).state == old(self).state,
            final(self).config == old(self).config,
            final(self).alive_players@ == old(self).alive_players@,
            old(self).state == GameState::Active ==> r == JoinOutcome::GameInProgress
                && final(self).queued_players@ == old(self).queued_players@,
            old(self).state != GameState::Active ==> r == join_answer(
                old(self).queued_players@,
                player@,
            ) && final(self).queued_players@ == enqueued(old(self).queued_players@, player@),
            old(self).phase_consistent() ==> final(self).phase_consistent(),
    {
        if self.state == GameState::Active {
            JoinOutcome::GameInProgress
        } else {
            enqueue(&mut self.queued_players, player)
        }
    }

    /// `player` leaves the game: the queue and the running round.
    /// Returns whether the player was in either.
    pub fn leave(&mut self, player: &String) -> (left: bool)
        ensures
            left == (old(self).queued_players@.contains(player@)
                || old(self).alive_players@.contains(player@)),
            final(self).queued_players@ == queue_after_leave(old(self).queued_players@, player@),
            final(self).alive_players@ == alive_after_leave(old(self).alive_players@, player@),
            final(self).state == old(self).state,
            final(self).config == old(self).config,
            old(self).phase_consistent() ==> final(self).phase_consistent(),
    {
        proof {
            lemma_remove_value_len(self.alive_players@, player@);
        }
        withdraw(&mut self.queued_players, &mut self.alive_players, player)
    }

    /// `starter` starts a round with everyone queued (or alone, if nobody
    /// is queued); refused while a round runs.
    pub fn start(&mut self, starter: String) -> (r: StartOutcome)
        ensures
            final(self).config == old(self).config,
            old(self).state == GameState::Active ==> r is AlreadyRunning && *final(self) == *old(
                self,
            ),
            old(self).state != GameState::Active ==> {
                &&& final(self).state == GameState::Active
                &&& final(self).queued_players@ == starting_roster(
                    old(self).queued_players@,
                    starter@,
                )
                &&& final(self).alive_players@ == final(self).queued_players@
                &&& r matches StartOutcome::Started(players) && reports_players(
                    players,
                    final(self).alive_players@,
                )
            },
            old(self).phase_consistent() ==> final(self).phase_consistent(),
    {
        if self.state == GameState::Active {
            return StartOutcome::AlreadyRunning;
        }
        let players = muster(&mut self.queued_players, &mut self.alive_players, starter);
        self.state = GameState::Active;
        StartOutcome::Started(players)
    }

    /// What the status command reports.
    pub fn status(&self) -> (r: StatusReport)
        ensures
            self.state == GameState::Waiting ==> (r == (StatusReport::Waiting {
                queued: self.queued_players@.len() as usize,
            })),
            self.state == GameState::Active ==> (r matches StatusReport::Active { alive }
                && reports_players(alive, self.alive_players@)),
            self.state == GameState::Ended ==> r is Ended,
    {
        match self.state {
            GameState::Waiting => StatusReport::Waiting { queued: self.queued_players.len() },
            GameState::Active => StatusReport::Active { alive: self.alive_players.names() },
            GameState::Ended => StatusReport::Ended,
        }
    }

    /// Back to waiting: the round is emptied, the queue and ring kept.
    pub fn reset(&mut self)
        ensures
            final(self).state == GameState::Waiting,
            final(self).alive_players@ == Seq::<Seq<char>>::empty(),
            final(self).queued_players@ == old(self).queued_players@,
            final(self).config == old(self).config,
            final(self).phase_consistent(),
    {
        self.state = GameState::Waiting;
        self.alive_players.clear();
    }

    /// Decides a block break at (x, y, z), given the event's flags so far:
    /// the ring's platform can never be broken; other blocks are left alone.
    pub fn on_block_break(&self, x: i32, y: i32, z: i32, flags: BreakFlags) -> (r: BreakFlags)
        ensures
            inside_platform(self.config, x as int, y as int, z as int) ==> r == (BreakFlags {
                cancelled: true,
                should_drop: flags.should_drop,
            }),
            !inside_platform(self.config, x as int, y as int, z as int) ==> r == flags,
    {
        if self.config.is_inside_platform(x, y, z) {
            BreakFlags { cancelled: true, should_drop: flags.should_drop }
        } else {
            flags
        }
    }

    /// `player` moved; `below_elimination` tells whether the move ends below
    /// the elimination height. A player of the running round who falls
    /// below it is out; the round ends when at most one player is left.
    pub fn on_player_move(&mut self, player: &String, below_elimination: bool) -> (r:
        MoveOutcome)
        ensures
            final(self).config == old(self).config,
            final(self).queued_players@ == old(self).queued_players@,
            !(old(self).state == GameState::Active && old(self).alive_players@.contains(player@)
                && below_elimination) ==> r is Unaffected && *final(self) == *old(self),
            (old(self).state == GameState::Active && old(self).alive_players@.contains(player@)
                && below_elimination) ==> {
                &&& final(self).alive_players@ == old(self).alive_players@.remove_value(player@)
                &&& r matches MoveOutcome::Eliminated(round) && describes_round(
                    round,
                    final(self).alive_players@,
                )
                &&& final(self).state == (if final(self).alive_players@.len() <= 1 {
                    GameState::Ended
                } else {
                    GameState::Active
                })
            },
            old(self).phase_consistent() ==> final(self).phase_consistent(),
    {
        if self.state != GameState::Active || !self.alive_players.contains(player) {
            return MoveOutcome::Unaffected;
        }
        if !below_elimination {
            return MoveOutcome::Unaffected;
        }
        let round = eliminate(&mut self.alive_players, player);
        if self.alive_players.len() <= 1 {
            self.state = GameState::Ended;
        }
        MoveOutcome::Eliminated(round)
    }
}

/// Where a fighter is placed when a round starts.
#[derive(Clone, Copy, Debug, PartialEq, Eq, Structural)]
pub enum SpawnSlot {
    /// The first spawn point.
    First,
    /// The second spawn point, facing the first.
    Second,
}

/// The spawn point of the fighter at `index` in the round's roster:
/// fighters alternate between the two points, the first fighter at the first.
pub fn spawn_slot(index: usize) -> (s: SpawnSlot)
    ensures
        s == (if index % 2 == 0 { SpawnSlot::First } else { SpawnSlot::Second }),
{
    if index % 2 == 0 {
        SpawnSlot::First
    } else {
        SpawnSlot::Second
    }
}

/// Rebuilding the ring sets smooth stone exactly on the platform: each block
/// set is a stone block of the platform, and each block of the platform is set.
pub proof fn law_rebuild_covers_platform(c: SumoConfig, p: BlockPlacement)
    ensures
        platform_layout(c).contains(p) <==> (inside_platform(c, p.x as int, p.y as int, p.z as int)
            && p.block == BlockKind::SmoothStone),
{
    lemma_layer_contains(
        c.min_x as int,
        c.max_x + 1,
        c.min_z as int,
        c.max_z as int,
        c.platform_y as int,
        BlockKind::SmoothStone,
        None,
        p,
    );
}

/// The ring's platform is the layer at the platform's height of the ring's box.
pub proof fn law_platform_is_box(c: SumoConfig, x: int, y: int, z: int)
    ensures
        inside_platform(c, x, y, z) <==> (y == c.platform_y && c.min_x <= x <= c.max_x && c.min_z
            <= z <= c.max_z),
{
}

/// The phase invariant says that nobody is in a round while the game waits,
/// and that at most one player is left once a round has ended.
pub proof fn law_phase_meaning(s: SumoSession)
    ensures
        s.phase_consistent() <==> ((s.state == GameState::Waiting ==> s.alive_players@.len() == 0)
            && (s.state == GameState::Ended ==> s.alive_players@.len() <= 1)),
{
}

/// The Sumo plugin.
pub struct SumoPlugin;

impl SumoPlugin {
    /// The plugin instance.
    pub fn new() -> Self {
        SumoPlugin
    }

    /// What the plugin tells the server about itself, at `version`.
    pub fn metadata(&self, version: String) -> (info: PluginInfo)
        ensures
            describes(
                info,
                "sumo"@,
                version@,
                "A complete Sumo PvP minigame for Pumpkin Minecraft server."@,
                Seq::empty(),
            ),
    {
        example_plugin_info(
            "sumo",
            version,
            "A complete Sumo PvP minigame for Pumpkin Minecraft server.",
            Vec::new(),
        )
    }
}

} // verus!

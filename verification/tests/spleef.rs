use pumpkin_plugins::arena::{BlockKind, BreakFlags};
use pumpkin_plugins::lobby::{JoinOutcome, MoveOutcome, RoundResult, StartOutcome, StatusReport};
use pumpkin_plugins::spleef::{GameState, SpleefConfig, SpleefPlugin, SpleefSession};

fn s(name: &str) -> String {
    name.to_string()
}

fn session() -> SpleefSession {
    SpleefSession::new(SpleefConfig::default())
}

fn started(r: StartOutcome) -> Vec<String> {
    match r {
        StartOutcome::Started(players) => players,
        StartOutcome::AlreadyRunning => panic!("expected a started round"),
    }
}

#[test]
fn spleef_default_config() {
    let c = SpleefConfig::default();
    assert_eq!((c.min_x, c.max_x, c.min_z, c.max_z, c.floor_y), (-12, 12, -12, 12, 100));
}

#[test]
fn spleef_inside_floor_edges() {
    let c = SpleefConfig::default();
    assert!(c.is_inside_floor(0, 100, 0));
    assert!(c.is_inside_floor(-12, 100, 12));
    assert!(c.is_inside_floor(12, 100, -12));
    assert!(!c.is_inside_floor(13, 100, 0));
    assert!(!c.is_inside_floor(0, 100, -13));
    assert!(!c.is_inside_floor(0, 99, 0));
    assert!(!c.is_inside_floor(0, 101, 0));
}

#[test]
fn spleef_new_session_waits_empty() {
    let g = session();
    assert_eq!(g.state, GameState::Waiting);
    assert!(g.queued_players.is_empty());
    assert!(g.alive_players.is_empty());
}

#[test]
fn spleef_join_counts_and_refuses_duplicates() {
    let mut g = session();
    assert_eq!(g.join(s("alice")), JoinOutcome::Joined { queued: 1 });
    assert_eq!(g.join(s("bob")), JoinOutcome::Joined { queued: 2 });
    assert_eq!(g.join(s("alice")), JoinOutcome::AlreadyQueued);
    assert_eq!(g.queued_players.names(), vec![s("alice"), s("bob")]);
}

#[test]
fn spleef_join_refused_during_round() {
    let mut g = session();
    g.join(s("alice"));
    started(g.start(s("alice")));
    assert_eq!(g.join(s("carol")), JoinOutcome::GameInProgress);
    assert!(!g.queued_players.contains(&s("carol")));
}

#[test]
fn spleef_join_allowed_after_round_ended() {
    let mut g = session();
    g.join(s("alice"));
    g.start(s("alice"));
    g.on_player_move(&s("alice"), true);
    assert_eq!(g.state, GameState::Ended);
    assert_eq!(g.join(s("bob")), JoinOutcome::Joined { queued: 2 });
}

#[test]
fn spleef_leave_undoes_join() {
    let mut g = session();
    g.join(s("alice"));
    let before = g.queued_players.names();
    g.join(s("bob"));
    assert!(g.leave(&s("bob")));
    assert_eq!(g.queued_players.names(), before);
    assert!(g.alive_players.is_empty());
}

#[test]
fn spleef_leave_unknown_player() {
    let mut g = session();
    g.join(s("alice"));
    assert!(!g.leave(&s("zed")));
    assert_eq!(g.queued_players.len(), 1);
}

#[test]
fn spleef_leave_during_round_leaves_game() {
    let mut g = session();
    g.join(s("alice"));
    g.join(s("bob"));
    g.start(s("alice"));
    assert!(g.leave(&s("bob")));
    assert!(!g.queued_players.contains(&s("bob")));
    assert!(!g.alive_players.contains(&s("bob")));
    assert_eq!(g.alive_players.names(), vec![s("alice")]);
    assert!(!g.leave(&s("bob")));
}

#[test]
fn spleef_start_alone_when_queue_empty() {
    let mut g = session();
    let players = started(g.start(s("op")));
    assert_eq!(players, vec![s("op")]);
    assert_eq!(g.state, GameState::Active);
    assert_eq!(g.queued_players.names(), vec![s("op")]);
}

#[test]
fn spleef_start_with_queue_ignores_starter() {
    let mut g = session();
    g.join(s("alice"));
    g.join(s("bob"));
    let players = started(g.start(s("op")));
    assert_eq!(players, vec![s("alice"), s("bob")]);
    assert!(!g.alive_players.contains(&s("op")));
}

#[test]
fn spleef_start_refused_while_running() {
    let mut g = session();
    g.join(s("alice"));
    g.start(s("alice"));
    assert!(matches!(g.start(s("bob")), StartOutcome::AlreadyRunning));
    assert_eq!(g.alive_players.names(), vec![s("alice")]);
}

#[test]
fn spleef_status_in_each_state() {
    let mut g = session();
    g.join(s("alice"));
    g.join(s("bob"));
    assert!(matches!(g.status(), StatusReport::Waiting { queued: 2 }));
    g.start(s("alice"));
    match g.status() {
        StatusReport::Active { alive } => assert_eq!(alive, vec![s("alice"), s("bob")]),
        other => panic!("unexpected {:?}", other),
    }
    g.on_player_move(&s("alice"), true);
    assert!(matches!(g.status(), StatusReport::Ended));
}

#[test]
fn spleef_reset_keeps_queue() {
    let mut g = session();
    g.join(s("alice"));
    g.join(s("bob"));
    g.start(s("alice"));
    g.reset();
    assert_eq!(g.state, GameState::Waiting);
    assert!(g.alive_players.is_empty());
    assert_eq!(g.queued_players.names(), vec![s("alice"), s("bob")]);
}

#[test]
fn spleef_break_outside_bounds_cancelled() {
    let g = session();
    let flags = BreakFlags { cancelled: false, should_drop: true };
    let cancelled = BreakFlags { cancelled: true, should_drop: true };
    assert_eq!(g.on_block_break(20, 100, 0, Some(&s("a")), flags), cancelled);
    assert_eq!(g.on_block_break(0, 100, -13, None, flags), cancelled);
    assert_eq!(g.on_block_break(13, 50, 13, None, flags), cancelled);
}

#[test]
fn spleef_break_within_bounds_off_floor_untouched() {
    let g = session();
    let flags = BreakFlags { cancelled: false, should_drop: true };
    assert_eq!(g.on_block_break(0, 99, 0, None, flags), flags);
    assert_eq!(g.on_block_break(12, 101, -12, Some(&s("a")), flags), flags);
    let cancelled = BreakFlags { cancelled: true, should_drop: false };
    assert_eq!(g.on_block_break(0, 50, 0, None, cancelled), cancelled);
}

#[test]
fn spleef_break_floor_before_round_cancelled() {
    let mut g = session();
    g.join(s("alice"));
    let flags = BreakFlags { cancelled: false, should_drop: true };
    assert_eq!(
        g.on_block_break(0, 100, 0, Some(&s("alice")), flags),
        BreakFlags { cancelled: true, should_drop: true }
    );
}

#[test]
fn spleef_break_floor_by_alive_player_allowed_without_drop() {
    let mut g = session();
    g.join(s("alice"));
    g.start(s("alice"));
    let flags = BreakFlags { cancelled: true, should_drop: true };
    assert_eq!(
        g.on_block_break(3, 100, -4, Some(&s("alice")), flags),
        BreakFlags { cancelled: false, should_drop: false }
    );
}

#[test]
fn spleef_break_floor_by_spectator_or_nobody_cancelled() {
    let mut g = session();
    g.join(s("alice"));
    g.start(s("alice"));
    let flags = BreakFlags { cancelled: false, should_drop: false };
    assert_eq!(
        g.on_block_break(3, 100, -4, Some(&s("eve")), flags),
        BreakFlags { cancelled: true, should_drop: false }
    );
    assert_eq!(
        g.on_block_break(3, 100, -4, None, flags),
        BreakFlags { cancelled: true, should_drop: false }
    );
}

#[test]
fn spleef_move_above_threshold_unaffected() {
    let mut g = session();
    g.join(s("alice"));
    g.join(s("bob"));
    g.start(s("alice"));
    assert!(matches!(g.on_player_move(&s("alice"), false), MoveOutcome::Unaffected));
    assert_eq!(g.alive_players.len(), 2);
}

#[test]
fn spleef_move_ignored_outside_round() {
    let mut g = session();
    g.join(s("alice"));
    assert!(matches!(g.on_player_move(&s("alice"), true), MoveOutcome::Unaffected));
    g.start(s("alice"));
    assert!(matches!(g.on_player_move(&s("eve"), true), MoveOutcome::Unaffected));
    assert_eq!(g.state, GameState::Active);
}

#[test]
fn spleef_elimination_down_to_winner() {
    let mut g = session();
    for n in ["a", "b", "c"] {
        g.join(s(n));
    }
    g.start(s("a"));
    assert!(matches!(
        g.on_player_move(&s("b"), true),
        MoveOutcome::Eliminated(RoundResult::Continues)
    ));
    assert_eq!(g.state, GameState::Active);
    match g.on_player_move(&s("a"), true) {
        MoveOutcome::Eliminated(RoundResult::Winner(w)) => assert_eq!(w, "c"),
        other => panic!("unexpected {:?}", other),
    }
    assert_eq!(g.state, GameState::Ended);
    assert_eq!(g.alive_players.names(), vec![s("c")]);
}

#[test]
fn spleef_elimination_of_last_player() {
    let mut g = session();
    g.start(s("solo"));
    assert!(matches!(
        g.on_player_move(&s("solo"), true),
        MoveOutcome::Eliminated(RoundResult::NoPlayersLeft)
    ));
    assert_eq!(g.state, GameState::Ended);
    assert!(g.alive_players.is_empty());
}

#[test]
fn spleef_rebuild_covers_floor() {
    let c = SpleefConfig::default();
    let blocks = c.floor_placements();
    assert_eq!(blocks.len(), 25 * 25);
    for b in &blocks {
        assert_eq!(b.block, BlockKind::SnowBlock);
        assert!(c.is_inside_floor(b.x, b.y, b.z));
    }
    let mut seen = std::collections::HashSet::new();
    for b in &blocks {
        assert!(seen.insert((b.x, b.y, b.z)));
    }
    assert_eq!((blocks[0].x, blocks[0].z), (-12, -12));
    assert_eq!((blocks[1].x, blocks[1].z), (-12, -11));
    assert_eq!((blocks[624].x, blocks[624].z), (12, 12));
}

#[test]
fn spleef_rebuild_of_empty_box() {
    let c = SpleefConfig { min_x: 1, max_x: 0, min_z: 0, max_z: 3, floor_y: 5 };
    assert!(c.floor_placements().is_empty());
}

#[test]
fn spleef_plugin_metadata() {
    let info = SpleefPlugin::new().metadata(s("1.2.3"));
    assert_eq!(info.name, "spleef");
    assert_eq!(info.version, "1.2.3");
    assert_eq!(info.authors, vec![s("Pumpkin Developer")]);
    assert_eq!(info.description, "A complete Spleef minigame for Pumpkin Minecraft server.");
    assert!(info.dependencies.is_empty());
    assert!(info.permissions.is_empty());
}

use pumpkin_plugins::arena::{BlockKind, BlockPlacement};
use pumpkin_plugins::lobby::{JoinOutcome, RoundResult, StartOutcome, StatusReport};
use pumpkin_plugins::tnt_run::{
    decay_placements, ArenaConfig, GameSession, GameState, TntMoveOutcome, TntRunPlugin,
};

fn s(name: &str) -> String {
    name.to_string()
}

fn running(players: &[&str]) -> GameSession {
    let mut g = GameSession::new(ArenaConfig::default());
    for p in players {
        g.join(s(p));
    }
    assert!(matches!(g.start(s(players[0])), StartOutcome::Started(_)));
    g
}

#[test]
fn tnt_default_config() {
    let c = ArenaConfig::default();
    assert_eq!((c.min_x, c.max_x, c.min_z, c.max_z), (-15, 15, -15, 15));
    assert_eq!(c.floor_y_levels, vec![100, 85, 70]);
}

#[test]
fn tnt_inside_xz_and_levels() {
    let c = ArenaConfig::default();
    assert!(c.is_inside_xz(15, -15));
    assert!(!c.is_inside_xz(16, 0));
    assert!(!c.is_inside_xz(0, -16));
    assert!(c.is_floor_level(85));
    assert!(!c.is_floor_level(84));
}

#[test]
fn tnt_rebuild_covers_floors() {
    let c = ArenaConfig::default();
    let blocks = c.floor_placements();
    assert_eq!(blocks.len(), 3 * 31 * 31 * 2);
    assert_eq!(blocks[0], BlockPlacement { x: -15, y: 100, z: -15, block: BlockKind::Sand });
    assert_eq!(blocks[1], BlockPlacement { x: -15, y: 99, z: -15, block: BlockKind::Tnt });
    let last = blocks[blocks.len() - 1];
    assert_eq!(last, BlockPlacement { x: 15, y: 69, z: 15, block: BlockKind::Tnt });
    for b in &blocks {
        assert!(c.is_inside_xz(b.x, b.z));
        match b.block {
            BlockKind::Sand => assert!(c.floor_y_levels.contains(&b.y)),
            BlockKind::Tnt => assert!(c.floor_y_levels.contains(&(b.y + 1))),
            other => panic!("unexpected block {:?}", other),
        }
    }
}

#[test]
fn tnt_rebuild_without_floors() {
    let c = ArenaConfig { min_x: 0, max_x: 3, min_z: 0, max_z: 3, floor_y_levels: vec![] };
    assert!(c.floor_placements().is_empty());
}

#[test]
fn tnt_decay_placements() {
    let v = decay_placements(4, 85, -2);
    assert_eq!(
        v,
        vec![
            BlockPlacement { x: 4, y: 85, z: -2, block: BlockKind::Air },
            BlockPlacement { x: 4, y: 84, z: -2, block: BlockKind::Air },
        ]
    );
}

#[test]
fn tnt_block_decays_once_at_a_time() {
    let mut g = running(&["a", "b"]);
    let feet = (3, 100, 4);
    assert!(matches!(g.on_player_move(&s("a"), false, feet), TntMoveOutcome::Decay((3, 100, 4))));
    assert!(matches!(g.on_player_move(&s("b"), false, feet), TntMoveOutcome::Unaffected));
    assert!(g.finish_decay(feet));
    assert!(!g.finish_decay(feet));
    assert!(matches!(g.on_player_move(&s("b"), false, feet), TntMoveOutcome::Decay(_)));
}

#[test]
fn tnt_no_decay_off_the_floors() {
    let mut g = running(&["a"]);
    assert!(matches!(g.on_player_move(&s("a"), false, (3, 99, 4)), TntMoveOutcome::Unaffected));
    assert!(matches!(g.on_player_move(&s("a"), false, (16, 100, 4)), TntMoveOutcome::Unaffected));
    assert!(matches!(g.on_player_move(&s("a"), false, (0, 100, -16)), TntMoveOutcome::Unaffected));
    assert_eq!(g.recently_decaying.len(), 0);
}

#[test]
fn tnt_no_decay_for_spectators_or_outside_round() {
    let mut g = GameSession::new(ArenaConfig::default());
    g.join(s("a"));
    assert!(matches!(g.on_player_move(&s("a"), false, (0, 100, 0)), TntMoveOutcome::Unaffected));
    g.start(s("a"));
    assert!(matches!(g.on_player_move(&s("zed"), false, (0, 100, 0)), TntMoveOutcome::Unaffected));
    assert_eq!(g.recently_decaying.len(), 0);
}

#[test]
fn tnt_elimination_and_win() {
    let mut g = running(&["a", "b", "c"]);
    assert!(matches!(
        g.on_player_move(&s("a"), true, (0, 50, 0)),
        TntMoveOutcome::Eliminated(RoundResult::Continues)
    ));
    match g.on_player_move(&s("c"), true, (0, 50, 0)) {
        TntMoveOutcome::Eliminated(RoundResult::Winner(w)) => assert_eq!(w, "b"),
        other => panic!("unexpected {:?}", other),
    }
    assert_eq!(g.state, GameState::Ended);
    assert!(matches!(g.on_player_move(&s("b"), true, (0, 50, 0)), TntMoveOutcome::Unaffected));
}

#[test]
fn tnt_falling_player_does_not_decay_blocks() {
    let mut g = running(&["a", "b"]);
    assert!(matches!(g.on_player_move(&s("a"), true, (0, 100, 0)), TntMoveOutcome::Eliminated(_)));
    assert_eq!(g.recently_decaying.len(), 0);
}

#[test]
fn tnt_start_and_reset_clear_decay() {
    let mut g = running(&["a", "b"]);
    g.on_player_move(&s("a"), false, (1, 85, 1));
    assert_eq!(g.recently_decaying.len(), 1);
    g.reset();
    assert_eq!(g.recently_decaying.len(), 0);
    assert_eq!(g.state, GameState::Waiting);
    assert!(matches!(g.status(), StatusReport::Waiting { queued: 2 }));
    g.start(s("a"));
    g.on_player_move(&s("a"), false, (1, 85, 1));
    g.on_player_move(&s("b"), true, (1, 10, 1));
    assert_eq!(g.state, GameState::Ended);
    g.start(s("a"));
    assert_eq!(g.recently_decaying.len(), 0);
    assert_eq!(g.join(s("c")), JoinOutcome::GameInProgress);
}

#[test]
fn tnt_plugin_metadata() {
    let info = TntRunPlugin::new().metadata(s("0.1.0"));
    assert_eq!(info.name, "tnt-run");
    assert_eq!(info.description, "A complete TNT Run minigame for Pumpkin Minecraft server.");
    assert_eq!(info.authors, vec![s("Pumpkin Developer")]);
}

#[test]
fn tnt_room_below_floors() {
    assert!(ArenaConfig::default().has_room_below_floors());
    let c = ArenaConfig { min_x: 0, max_x: 0, min_z: 0, max_z: 0, floor_y_levels: vec![5, i32::MIN] };
    assert!(!c.has_room_below_floors());
}

#[test]
fn tnt_leave_during_round_leaves_game() {
    let mut g = running(&["a", "b"]);
    assert!(g.leave(&s("b")));
    assert!(!g.queued_players.contains(&s("b")));
    assert!(!g.alive_players.contains(&s("b")));
    assert!(matches!(g.on_player_move(&s("b"), false, (0, 100, 0)), TntMoveOutcome::Unaffected));
}

use pumpkin_plugins::arena::{BlockKind, BreakFlags};
use pumpkin_plugins::custom_command::{broadcast_text, greeting, CustomCommandPlugin};
use pumpkin_plugins::event_listener::{
    contains_text, is_protected_block, on_block_break, welcome_message, EventListenerPlugin,
};
use pumpkin_plugins::hello_world::HelloWorldPlugin;
use pumpkin_plugins::lobby::PlayerSet;
use pumpkin_plugins::plugin::Permission;

#[test]
fn greeting_names_sender() {
    assert_eq!(greeting("Steve"), "Hello, Steve! Welcome to Pumpkin!");
}

#[test]
fn broadcast_with_and_without_message() {
    assert_eq!(
        broadcast_text("Alex", Some("server restart soon".to_string())),
        "[Broadcast by Alex] server restart soon"
    );
    assert_eq!(broadcast_text("Alex", None), "[Broadcast by Alex] Hello everyone!");
}

#[test]
fn welcome_names_player() {
    assert_eq!(welcome_message("Notch"), "Welcome to the server, Notch!");
}

#[test]
fn protected_blocks() {
    assert!(is_protected_block("minecraft:bedrock"));
    assert!(is_protected_block("minecraft:barrier"));
    assert!(is_protected_block("xbarrierx"));
    assert!(!is_protected_block("minecraft:stone"));
    assert!(!is_protected_block("bedroc"));
    assert!(!is_protected_block(""));
}

#[test]
fn substring_search_edges() {
    assert!(contains_text("abc", ""));
    assert!(contains_text("", ""));
    assert!(!contains_text("", "a"));
    assert!(contains_text("abc", "abc"));
    assert!(contains_text("aab", "ab"));
    assert!(!contains_text("ab", "abc"));
    assert!(contains_text("héllo wörld", "ö"));
}

#[test]
fn block_ids() {
    assert_eq!(BlockKind::SnowBlock.id(), "minecraft:snow_block");
    assert_eq!(BlockKind::SmoothStone.id(), "minecraft:smooth_stone");
    assert_eq!(BlockKind::Sand.id(), "minecraft:sand");
    assert_eq!(BlockKind::Tnt.id(), "minecraft:tnt");
    assert_eq!(BlockKind::Air.id(), "minecraft:air");
}

#[test]
fn hello_world_metadata_asks_for_data_folder() {
    let info = HelloWorldPlugin::new().metadata("0.1.0".to_string());
    assert_eq!(info.name, "hello-world");
    assert_eq!(info.version, "0.1.0");
    assert_eq!(info.description, "A minimal Hello World plugin for Pumpkin Minecraft server.");
    assert_eq!(info.authors, vec!["Pumpkin Developer".to_string()]);
    assert!(info.dependencies.is_empty());
    assert_eq!(info.permissions, vec![Permission::FsReadData]);
}

#[test]
fn custom_command_and_event_listener_metadata() {
    let info = CustomCommandPlugin::new().metadata("2.0.0".to_string());
    assert_eq!(info.name, "custom-command");
    assert_eq!(info.description, "A custom command example for the Pumpkin Minecraft server.");
    assert!(info.permissions.is_empty());
    let info = EventListenerPlugin::new().metadata("2.0.0".to_string());
    assert_eq!(info.name, "event-listener");
    assert_eq!(info.description, "An event listener example for the Pumpkin Minecraft server.");
}

#[test]
fn player_set_keeps_order_and_uniqueness() {
    let mut set = PlayerSet::new();
    assert!(set.insert("b".to_string()));
    assert!(set.insert("a".to_string()));
    assert!(!set.insert("b".to_string()));
    assert_eq!(set.names(), vec!["b".to_string(), "a".to_string()]);
    assert_eq!(set.first(), Some("b".to_string()));
    assert!(set.remove(&"b".to_string()));
    assert!(!set.remove(&"b".to_string()));
    assert_eq!(set.len(), 1);
    let copy = set.duplicate();
    set.clear();
    assert!(set.is_empty());
    assert_eq!(copy.names(), vec!["a".to_string()]);
}

#[test]
fn protected_block_breaks_cancelled() {
    let open = BreakFlags { cancelled: false, should_drop: true };
    assert_eq!(
        on_block_break("minecraft:bedrock", open),
        BreakFlags { cancelled: true, should_drop: true }
    );
    assert_eq!(on_block_break("minecraft:dirt", open), open);
    let already = BreakFlags { cancelled: true, should_drop: false };
    assert_eq!(on_block_break("minecraft:dirt", already), already);
}

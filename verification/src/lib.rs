//! Game logic of the Pumpkin example plugins: the minigame sessions
//! (Spleef, Sumo, TNT Run), their arenas, and the small decisions of the
//! basic example plugins, each with a machine-checked contract.

pub mod arena;
pub mod custom_command;
pub mod event_listener;
pub mod hello_world;
pub mod lobby;
pub mod plugin;
pub mod spleef;
pub mod sumo;
pub mod tnt_run;

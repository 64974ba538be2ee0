//! The smallest plugin: it only describes itself (and greets the log when
//! loaded).

use vstd::prelude::*;
use crate::plugin::{Permission, PluginInfo, describes, example_plugin_info};

verus! {

/// The Hello World plugin.
pub struct HelloWorldPlugin;

impl HelloWorldPlugin {
    /// The plugin instance.
    pub fn new() -> Self {
        HelloWorldPlugin
    }

    /// What the plugin tells the server about itself, at `version`: it asks
    /// to read its private data folder.
    pub fn metadata(&self, version: String) -> (info: PluginInfo)
        ensures
            describes(
                info,
                "hello-world"@,
                version@,
                "A minimal Hello World plugin for Pumpkin Minecraft server."@,
                seq![Permission::FsReadData],
            ),
    {
        let mut permissions: Vec<Permission> = Vec::new();
        permissions.push(Permission::FsReadData);
        proof {
            assert(permissions@ =~= seq![Permission::FsReadData]);
        }
        example_plugin_info(
            "hello-world",
            version,
            "A minimal Hello World plugin for Pumpkin Minecraft server.",
            permissions,
        )
    }
}

} // verus!

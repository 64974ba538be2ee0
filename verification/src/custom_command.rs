//! The `/greet` command: a greeting for the sender, and a broadcast on the
//! sender's behalf.

use vstd::prelude::*;
use vstd::string::StringExecFns;
use crate::plugin::{PluginInfo, describes, example_plugin_info};

verus! {

/// The greeting that `/greet` sends back to `sender`.
pub fn greeting(sender: &str) -> (text: String)
    ensures
        text@ == "Hello, "@ + sender@ + "! Welcome to Pumpkin!"@,
{
    let mut text = String::from_str("Hello, ");
    text.append(sender);
    text.append("! Welcome to Pumpkin!");
    text
}

/// The message broadcast when none is given.
pub open spec fn default_broadcast() -> Seq<char> {
    "Hello everyone!"@
}

/// Without a message, the broadcast says "Hello everyone!".
pub proof fn law_default_broadcast()
    ensures
        default_broadcast() == "Hello everyone!"@,
{
}

/// The text that `/greet broadcast <message>` sends to every player on behalf
/// of `sender`; without a message, a default greeting is broadcast.
pub fn broadcast_text(sender: &str, message: Option<String>) -> (text: String)
    ensures
        text@ == "[Broadcast by "@ + sender@ + "] "@ + match message {
            Some(m) => m@,
            None => default_broadcast(),
        },
{
    let mut text = String::from_str("[Broadcast by ");
    text.append(sender);
    text.append("] ");
    match message {
        Some(m) => text.append(m.as_str()),
        None => text.append("Hello everyone!"),
    }
    text
}

/// The custom command plugin.
pub struct CustomCommandPlugin;

impl CustomCommandPlugin {
    /// The plugin instance.
    pub fn new() -> Self {
        CustomCommandPlugin
    }

    /// What the plugin tells the server about itself, at `version`.
    pub fn metadata(&self, version: String) -> (info: PluginInfo)
        ensures
            describes(
                info,
                "custom-command"@,
                version@,
                "A custom command example for the Pumpkin Minecraft server."@,
                Seq::empty(),
            ),
    {
        example_plugin_info(
            "custom-command",
            version,
            "A custom command example for the Pumpkin Minecraft server.",
            Vec::new(),
        )
    }
}

} // verus!

//! What each plugin tells the server about itself.

use vstd::prelude::*;
use vstd::string::StringExecFns;
use crate::lobby::names_of;

verus! {

/// Host features that a plugin may ask to use.
#[derive(Clone, Copy, Debug, PartialEq, Eq, Structural)]
pub enum Permission {
    /// Reading the plugin's private data folder.
    FsReadData,
}

/// The description a plugin hands to the server when it is loaded.
#[derive(Debug)]
pub struct PluginInfo {
    pub name: String,
    pub version: String,
    pub authors: Vec<String>,
    pub description: String,
    pub dependencies: Vec<String>,
    pub permissions: Vec<Permission>,
}

/// `info` names the plugin `name` at `version`, by the Pumpkin developers, with
/// `description`, no dependencies, and the permissions `permissions`.
pub open spec fn describes(
    info: PluginInfo,
    name: Seq<char>,
    version: Seq<char>,
    description: Seq<char>,
    permissions: Seq<Permission>,
) -> bool {
    &&& info.name@ == name
    &&& info.version@ == version
    &&& names_of(info.authors@) == seq!["Pumpkin Developer"@]
    &&& info.description@ == description
    &&& info.dependencies@.len() == 0
    &&& info.permissions@ == permissions
}

/// A description names the plugin, its version and its description as given,
/// lists the Pumpkin developers as its only author, has no dependencies, and
/// asks for exactly the given permissions.
pub proof fn law_description_fields(
    info: PluginInfo,
    name: Seq<char>,
    version: Seq<char>,
    description: Seq<char>,
    permissions: Seq<Permission>,
)
    requires
        describes(info, name, version, description, permissions),
    ensures
        info.name@ == name,
        info.version@ == version,
        info.description@ == description,
        info.authors@.len() == 1 && info.authors@[0]@ == "Pumpkin Developer"@,
        info.dependencies@.len() == 0,
        info.permissions@ == permissions,
{
    assert(names_of(info.authors@).len() == info.authors@.len());
    assert(seq!["Pumpkin Developer"@].len() == 1);
    assert(names_of(info.authors@)[0] == info.authors@[0]@);
}

/// Builds the description of an example plugin.
pub fn example_plugin_info(
    name: &str,
    version: String,
    description: &str,
    permissions: Vec<Permission>,
) -> (info: PluginInfo)
    ensures
        describes(info, name@, version@, description@, permissions@),
{
    let mut authors: Vec<String> = Vec::new();
    authors.push(String::from_str("Pumpkin Developer"));
    proof {
        assert(names_of(authors@) =~= seq!["Pumpkin Developer"@]);
    }
    PluginInfo {
        name: String::from_str(name),
        version,
        authors,
        description: String::from_str(description),
        dependencies: Vec::new(),
        permissions,
    }
}

} // verus!

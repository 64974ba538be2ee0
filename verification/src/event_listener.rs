//! Event listeners: a welcome for joining players, and protection of bedrock
//! and barrier blocks against breaking.

use vstd::prelude::*;
use vstd::string::{StrSliceExecFns, StringExecFns};
use crate::arena::BreakFlags;
use crate::plugin::{PluginInfo, describes, example_plugin_info};

verus! {

/// `text` occurs in `s` as a run of consecutive characters.
pub open spec fn has_substring(s: Seq<char>, text: Seq<char>) -> bool {
    exists|i: int| 0 <= i <= s.len() - text.len() && #[trigger] s.subrange(i, i + text.len()) == text
}

/// The characters of `s`.
fn chars_of(s: &str) -> (v: Vec<char>)
    ensures
        v@ == s@,
{
    let n = s.unicode_len();
    let mut v: Vec<char> = Vec::new();
    let mut i: usize = 0;
    while i < n
        invariant
            n == s@.len(),
            i <= n,
            v@ == s@.subrange(0, i as int),
        decreases n - i,
    {
        v.push(s.get_char(i));
        i += 1;
        proof {
            assert(v@ =~= s@.subrange(0, i as int));
        }
    }
    proof {
        assert(s@.subrange(0, n as int) =~= s@);
    }
    v
}

/// Whether `pattern` occurs in `s` at `start`.
fn occurs_at(s: &Vec<char>, pattern: &Vec<char>, start: usize) -> (b: bool)
    requires
        start + pattern@.len() <= s@.len(),
    ensures
        b == (s@.subrange(start as int, start + pattern@.len()) == pattern@),
{
    let n = s.len();
    let mut j: usize = 0;
    while j < pattern.len()
        invariant
            n == s@.len(),
            start + pattern@.len() <= s@.len(),
            j <= pattern@.len(),
            forall|k: int| 0 <= k < j ==> s@[start + k] == pattern@[k],
        decreases pattern@.len() - j,
    {
        if s[start + j] != pattern[j] {
            proof {
                assert(s@.subrange(start as int, start + pattern@.len())[j as int] != pattern@[j as int]);
            }
            return false;
        }
        j += 1;
    }
    proof {
        assert(s@.subrange(start as int, start + pattern@.len()) =~= pattern@);
    }
    true
}

/// Whether `pattern` occurs anywhere in `s`.
pub fn contains_text(s: &str, pattern: &str) -> (b: bool)
    ensures
        b == has_substring(s@, pattern@),
{
    let hay = chars_of(s);
    let pat = chars_of(pattern);
    if pat.len() > hay.len() {
        return false;
    }
    let last = hay.len() - pat.len();
    let mut i: usize = 0;
    loop
        invariant
            hay@ == s@,
            pat@ == pattern@,
            last == hay@.len() - pat@.len(),
            i <= last,
            forall|k: int| 0 <= k < i ==> #[trigger] s@.subrange(k, k + pattern@.len()) != pattern@,
        decreases last - i,
    {
        if occurs_at(&hay, &pat, i) {
            return true;
        }
        if i == last {
            return false;
        }
        i += 1;
    }
}

/// Blocks whose names mention bedrock or barrier may not be broken.
pub open spec fn protected_block(name: Seq<char>) -> bool {
    has_substring(name, "bedrock"@) || has_substring(name, "barrier"@)
}

/// Whether breaking the block named `block` is refused.
pub fn is_protected_block(block: &str) -> (b: bool)
    ensures
        b == protected_block(block@),
{
    contains_text(block, "bedrock") || contains_text(block, "barrier")
}

/// Decides the break of the block named `block`, given the event's flags so
/// far: breaking a protected block is cancelled; other breaks are left alone.
pub fn on_block_break(block: &str, flags: BreakFlags) -> (r: BreakFlags)
    ensures
        r.cancelled == (flags.cancelled || protected_block(block@)),
        r.should_drop == flags.should_drop,
{
    if is_protected_block(block) {
        BreakFlags { cancelled: true, should_drop: flags.should_drop }
    } else {
        flags
    }
}

/// Exactly the names that contain "bedrock" or "barrier" as a run of
/// consecutive characters are protected: any name built around one of those
/// words is protected, and a protected name has one of them at some place.
pub proof fn law_protected_names(prefix: Seq<char>, suffix: Seq<char>, name: Seq<char>)
    ensures
        protected_block(prefix + seq!['b', 'e', 'd', 'r', 'o', 'c', 'k'] + suffix),
        protected_block(prefix + seq!['b', 'a', 'r', 'r', 'i', 'e', 'r'] + suffix),
        protected_block(name) <==> exists|i: int|
            0 <= i && i + 7 <= name.len() && (#[trigger] name.subrange(i, i + 7) == seq![
                'b',
                'e',
                'd',
                'r',
                'o',
                'c',
                'k',
            ] || name.subrange(i, i + 7) == seq!['b', 'a', 'r', 'r', 'i', 'e', 'r']),
{
    reveal_strlit("bedrock");
    reveal_strlit("barrier");
    let bedrock = seq!['b', 'e', 'd', 'r', 'o', 'c', 'k'];
    let barrier = seq!['b', 'a', 'r', 'r', 'i', 'e', 'r'];
    assert("bedrock"@ =~= bedrock);
    assert("barrier"@ =~= barrier);
    let n1 = prefix + bedrock + suffix;
    let i = prefix.len() as int;
    assert(n1.subrange(i, i + 7) =~= bedrock);
    let n2 = prefix + barrier + suffix;
    assert(n2.subrange(i, i + 7) =~= barrier);
}

/// The private message that welcomes `name` to the server.
pub fn welcome_message(name: &str) -> (text: String)
    ensures
        text@ == "Welcome to the server, "@ + name@ + "!"@,
{
    let mut text = String::from_str("Welcome to the server, ");
    text.append(name);
    text.append("!");
    text
}

/// The event listener plugin.
pub struct EventListenerPlugin;

impl EventListenerPlugin {
    /// The plugin instance.
    pub fn new() -> Self {
        EventListenerPlugin
    }

    /// What the plugin tells the server about itself, at `version`.
    pub fn metadata(&self, version: String) -> (info: PluginInfo)
        ensures
            describes(
                info,
                "event-listener"@,
                version@,
                "An event listener example for the Pumpkin Minecraft server."@,
                Seq::empty(),
            ),
    {
        example_plugin_info(
            "event-listener",
            version,
            "An event listener example for the Pumpkin Minecraft server.",
            Vec::new(),
        )
    }
}

} // verus!

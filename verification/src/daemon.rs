//! Names of the `PipeWire` nodes the daemon creates, and reading the
//! default sink or source that `pactl` reports.

use vstd::prelude::*;

use crate::messages::MixType;
use crate::text::{chars_of, string_from_chars, trim, trim_chars};

verus! {

/// The volume filter node of a channel in a mix:
/// `ut-ch-<channel>-stream-vol` or `ut-ch-<channel>-monitor-vol`.
pub open spec fn spec_volume_filter_name(channel: Seq<char>, mix: MixType) -> Seq<char> {
    "ut-ch-"@ + channel + match mix {
        MixType::Stream => "-stream-vol"@,
        MixType::Monitor => "-monitor-vol"@,
    }
}

/// The mix node of a mix.
pub open spec fn spec_mix_node_name(mix: MixType) -> Seq<char> {
    match mix {
        MixType::Stream => "ut-stream-mix"@,
        MixType::Monitor => "ut-monitor-mix"@,
    }
}

/// The name of the volume filter node of a channel in a mix.
pub fn volume_filter_name(channel: &str, mix: MixType) -> (r: String)
    ensures
        r@ == spec_volume_filter_name(channel@, mix),
{
    let suffix = match mix {
        MixType::Stream => "-stream-vol",
        MixType::Monitor => "-monitor-vol",
    };
    String::from_str("ut-ch-").concat(channel).concat(suffix)
}

/// The name of the mix node of a mix.
pub fn mix_node_name(mix: MixType) -> (r: &'static str)
    ensures
        r@ == spec_mix_node_name(mix),
{
    match mix {
        MixType::Stream => "ut-stream-mix",
        MixType::Monitor => "ut-monitor-mix",
    }
}

/// The node name that `pactl get-default-sink` (or `-source`) printed:
/// the output trimmed, or `None` when nothing is left.
pub fn default_node_from_pactl(output: &str) -> (r: Option<String>)
    ensures
        match r {
            Some(s) => s@ == trim(output@) && s@.len() > 0,
            None => trim(output@).len() == 0,
        },
{
    let t = trim_chars(&chars_of(output));
    if t.len() == 0 {
        None
    } else {
        Some(string_from_chars(&t))
    }
}

} // verus!

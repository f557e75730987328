//! The daemon's main loop as a state machine: from the model of the
//! daemon state and one input (a `PipeWire` graph event, a command from
//! an IPC request, or the outcome of outside work) to the next model and
//! the actions to perform.
//!
//! Levels are values of the type `L`, carried through unchanged.

use vstd::prelude::*;

use crate::messages::MixType;
use crate::routing::{
    any_rule_matches, any_rule_matches_app, app_route_rule, find_channel_for_app, opt_chars,
    remove_app_route, set_app_route,
    routes_after_profile_load, rules_without, spec_channel_for_app, RouteRule,
};
use crate::server::Command;

verus! {

/// The daemon's run state.
#[derive(Debug)]
pub enum DaemonState {
    Running,
    Reconciling,
    DeviceDisconnected,
    Error(String),
}

/// The levels of one channel in both mixes.
#[derive(Debug)]
pub struct ChannelLevels<L> {
    pub name: String,
    pub stream_volume: L,
    pub stream_muted: bool,
    pub monitor_volume: L,
    pub monitor_muted: bool,
}

/// The master levels of both mixes.
#[derive(Debug, Clone, Copy)]
pub struct MixerLevels<L> {
    pub stream_master_volume: L,
    pub stream_master_muted: bool,
    pub monitor_master_volume: L,
    pub monitor_master_muted: bool,
}

/// An application currently playing, and where it is routed.
#[derive(Debug)]
pub struct ActiveApp {
    pub app_id: u32,
    pub app_name: String,
    pub binary_name: Option<String>,
    pub pid: Option<u32>,
    pub channel: String,
    /// A saved rule matched the application.
    pub is_persistent: bool,
}

/// An audio client of the graph, as listed for re-routing.
#[derive(Debug)]
pub struct AudioClient {
    pub id: u32,
    pub name: String,
    pub application_name: Option<String>,
    pub binary_name: Option<String>,
}

/// What a profile stores: channel levels, routing rules and master
/// levels.
#[derive(Debug)]
pub struct ProfileLevels<L> {
    pub channels: Vec<ChannelLevels<L>>,
    pub routes: Vec<RouteRule>,
    pub mixer: MixerLevels<L>,
}

/// The daemon state the loop decides on.
#[derive(Debug)]
pub struct DaemonModel<L> {
    pub state: DaemonState,
    pub device_connected: bool,
    pub device_serial: Option<String>,
    pub channels: Vec<ChannelLevels<L>>,
    pub routes: Vec<RouteRule>,
    pub active_apps: Vec<ActiveApp>,
    pub mixer: MixerLevels<L>,
    pub active_profile: String,
    /// The output device the monitor mix is linked to.
    pub monitor_output: String,
}

/// One input to the loop.
#[derive(Debug)]
pub enum DaemonInput<L> {
    /// `PipeWire` (re)connected.
    PipeWireConnected,
    /// The `PipeWire` connection was lost.
    PipeWireDisconnected,
    /// A Wave:3 appeared; `headphones_linked` tells whether the monitor
    /// mix is already linked to its headphones.
    Wave3Detected { serial: String, headphones_linked: bool },
    /// The Wave:3 went away.
    Wave3Removed,
    /// An audio client appeared in the graph.
    ClientAppeared { id: u32, name: String, binary_name: Option<String>, pid: Option<u32> },
    /// An audio client left the graph.
    ClientDisappeared { id: u32 },
    /// The command an IPC request asked for.
    Command(Command<L>),
    /// The profile that a `LoadProfile` action read, when it exists.
    ProfileLoaded { name: String, profile: ProfileLevels<L> },
    /// The audio clients listed by a `ListAudioClients` action.
    ClientsListed { app_pattern: String, channel: String, clients: Vec<AudioClient> },
    /// A `RerouteApp` action succeeded.
    AppRerouted { app_id: u32, channel: String },
    /// A `LinkMonitor` action for a new output device succeeded.
    MonitorLinked { device_name: String },
    /// A `LinkMonitor` action for a new output device failed.
    MonitorLinkFailed { device_name: String },
    /// A shutdown signal arrived.
    ShutdownSignal,
}

/// Work for the caller to perform.
#[derive(Debug)]
pub enum DaemonAction<L> {
    /// Set the volume of a channel's filter node in a mix.
    ApplyChannelVolume { channel: String, mix: MixType, volume: L },
    /// Set the mute of a channel's filter node in a mix.
    ApplyChannelMute { channel: String, mix: MixType, muted: bool },
    /// Set the volume of a mix node.
    ApplyMasterVolume { mix: MixType, volume: L },
    /// Set the mute of a mix node.
    ApplyMasterMute { mix: MixType, muted: bool },
    /// Link the monitor mix to the Wave:3 headphones.
    LinkMonitorToHeadphones,
    /// Unlink the monitor mix from an output device.
    UnlinkMonitor { device_name: String },
    /// Link the monitor mix to a new output device, reporting the
    /// outcome with `MonitorLinked` or `MonitorLinkFailed`.
    LinkMonitor { device_name: String },
    /// Link the monitor mix back to the output device it had.
    RelinkMonitor { device_name: String },
    /// Route a new application to a channel.
    RouteApp { app_id: u32, channel: String },
    /// Route a running application to a channel, reporting success
    /// with `AppRerouted`.
    RerouteApp { app_id: u32, channel: String },
    /// List the graph's audio clients, reporting them with
    /// `ClientsListed`.
    ListAudioClients { app_pattern: String, channel: String },
    /// Store a routing rule.
    SaveRoute(RouteRule),
    /// Delete the stored rules of a pattern.
    DeleteRoute { pattern: String },
    /// Store a profile.
    SaveProfile { name: String, is_default: bool, profile: ProfileLevels<L> },
    /// Read a profile, reporting it with `ProfileLoaded` when it exists.
    LoadProfile { name: String },
    /// Delete a profile (the store refuses the default one).
    DeleteProfile { name: String },
    /// Set the gain of the first device's mic.
    SetMicGain { gain: L },
    /// Set the mute of the first device's mic.
    SetMicMute { muted: bool },
    /// Set the headphone volume of the first device.
    SetHeadphoneVolume { volume: L },
    /// Announce that a device connected.
    EmitDeviceConnected { serial: String },
    /// Announce that the device disconnected.
    EmitDeviceDisconnected,
    /// Announce a new application and its channel.
    EmitAppDiscovered {
        app_id: u32,
        name: String,
        binary: Option<String>,
        pid: Option<u32>,
        channel: String,
    },
    /// Announce that an application left.
    EmitAppRemoved { app_id: u32 },
    /// Announce a channel volume change.
    EmitChannelVolumeChanged { channel: String, mix: MixType, volume: L },
    /// Announce a channel mute change.
    EmitChannelMuteChanged { channel: String, mix: MixType, muted: bool },
    /// Stop the loop.
    Stop,
}

// ---------------------------------------------------------------------
// Channel lookups and level updates
// ---------------------------------------------------------------------

/// `i` is the first position of a channel named `name`.
pub open spec fn first_channel<L>(chs: Seq<ChannelLevels<L>>, name: Seq<char>, i: int) -> bool {
    &&& 0 <= i < chs.len()
    &&& chs[i].name@ == name
    &&& forall|j: int| 0 <= j < i ==> #[trigger] chs[j].name@ != name
}

/// The first position of a channel named `name`, or -1.
pub open spec fn channel_index<L>(chs: Seq<ChannelLevels<L>>, name: Seq<char>) -> int {
    if exists|i: int| first_channel(chs, name, i) {
        choose|i: int| first_channel(chs, name, i)
    } else {
        -1
    }
}

proof fn lemma_channel_index<L>(chs: Seq<ChannelLevels<L>>, name: Seq<char>, i: int)
    requires
        first_channel(chs, name, i),
    ensures
        channel_index(chs, name) == i,
{
    let k = choose|k: int| first_channel(chs, name, k);
    if k < i {
        assert(chs[k].name@ == name);
    } else if i < k {
        assert(chs[i].name@ == name);
    }
}

proof fn lemma_no_channel_index<L>(chs: Seq<ChannelLevels<L>>, name: Seq<char>)
    requires
        forall|j: int| 0 <= j < chs.len() ==> #[trigger] chs[j].name@ != name,
    ensures
        channel_index(chs, name) == -1,
{
    if exists|i: int| first_channel(chs, name, i) {
        let k = choose|i: int| first_channel(chs, name, i);
        assert(chs[k].name@ == name);
    }
}

/// The channel with its volume in one mix set.
pub open spec fn with_volume<L>(c: ChannelLevels<L>, mix: MixType, volume: L) -> ChannelLevels<L> {
    match mix {
        MixType::Stream => ChannelLevels {
            name: c.name,
            stream_volume: volume,
            stream_muted: c.stream_muted,
            monitor_volume: c.monitor_volume,
            monitor_muted: c.monitor_muted,
        },
        MixType::Monitor => ChannelLevels {
            name: c.name,
            stream_volume: c.stream_volume,
            stream_muted: c.stream_muted,
            monitor_volume: volume,
            monitor_muted: c.monitor_muted,
        },
    }
}

/// The channel with its mute in one mix set.
pub open spec fn with_mute<L>(c: ChannelLevels<L>, mix: MixType, muted: bool) -> ChannelLevels<L> {
    match mix {
        MixType::Stream => ChannelLevels {
            name: c.name,
            stream_volume: c.stream_volume,
            stream_muted: muted,
            monitor_volume: c.monitor_volume,
            monitor_muted: c.monitor_muted,
        },
        MixType::Monitor => ChannelLevels {
            name: c.name,
            stream_volume: c.stream_volume,
            stream_muted: c.stream_muted,
            monitor_volume: c.monitor_volume,
            monitor_muted: muted,
        },
    }
}

/// The channel with all its levels taken from a profile's entry.
pub open spec fn with_levels_of<L>(c: ChannelLevels<L>, p: ChannelLevels<L>) -> ChannelLevels<L> {
    ChannelLevels {
        name: c.name,
        stream_volume: p.stream_volume,
        stream_muted: p.stream_muted,
        monitor_volume: p.monitor_volume,
        monitor_muted: p.monitor_muted,
    }
}

/// The mixer with the master volume of one mix set.
pub open spec fn mixer_with_volume<L>(m: MixerLevels<L>, mix: MixType, volume: L) -> MixerLevels<L> {
    match mix {
        MixType::Stream => MixerLevels { stream_master_volume: volume, ..m },
        MixType::Monitor => MixerLevels { monitor_master_volume: volume, ..m },
    }
}

/// The mixer with the master mute of one mix set.
pub open spec fn mixer_with_mute<L>(m: MixerLevels<L>, mix: MixType, muted: bool) -> MixerLevels<L> {
    match mix {
        MixType::Stream => MixerLevels { stream_master_muted: muted, ..m },
        MixType::Monitor => MixerLevels { monitor_master_muted: muted, ..m },
    }
}

/// One profile entry applied: the first channel of its name takes its
/// levels; without such a channel nothing changes.
pub open spec fn apply_entry<L>(chs: Seq<ChannelLevels<L>>, p: ChannelLevels<L>) -> Seq<ChannelLevels<L>> {
    let i = channel_index(chs, p.name@);
    if i >= 0 {
        chs.update(i, with_levels_of(chs[i], p))
    } else {
        chs
    }
}

/// The node updates for one applied profile entry: volume and mute of
/// the stream mix, then of the monitor mix.
pub open spec fn entry_actions<L>(chs: Seq<ChannelLevels<L>>, p: ChannelLevels<L>) -> Seq<
    DaemonAction<L>,
> {
    let i = channel_index(chs, p.name@);
    if i >= 0 {
        seq![
            DaemonAction::ApplyChannelVolume {
                channel: chs[i].name,
                mix: MixType::Stream,
                volume: p.stream_volume,
            },
            DaemonAction::ApplyChannelMute {
                channel: chs[i].name,
                mix: MixType::Stream,
                muted: p.stream_muted,
            },
            DaemonAction::ApplyChannelVolume {
                channel: chs[i].name,
                mix: MixType::Monitor,
                volume: p.monitor_volume,
            },
            DaemonAction::ApplyChannelMute {
                channel: chs[i].name,
                mix: MixType::Monitor,
                muted: p.monitor_muted,
            },
        ]
    } else {
        Seq::empty()
    }
}

/// The profile's entries applied in order.
pub open spec fn apply_profile<L>(chs: Seq<ChannelLevels<L>>, ps: Seq<ChannelLevels<L>>) -> Seq<
    ChannelLevels<L>,
>
    decreases ps.len(),
{
    if ps.len() == 0 {
        chs
    } else {
        apply_entry(apply_profile(chs, ps.drop_last()), ps.last())
    }
}

/// The node updates of the profile's entries, in order.
pub open spec fn profile_actions<L>(chs: Seq<ChannelLevels<L>>, ps: Seq<ChannelLevels<L>>) -> Seq<
    DaemonAction<L>,
>
    decreases ps.len(),
{
    if ps.len() == 0 {
        Seq::empty()
    } else {
        profile_actions(chs, ps.drop_last()) + entry_actions(
            apply_profile(chs, ps.drop_last()),
            ps.last(),
        )
    }
}

/// The mix node updates for a mixer: volume and mute of the stream mix,
/// then of the monitor mix.
pub open spec fn master_actions<L>(m: MixerLevels<L>) -> Seq<DaemonAction<L>> {
    seq![
        DaemonAction::ApplyMasterVolume { mix: MixType::Stream, volume: m.stream_master_volume },
        DaemonAction::ApplyMasterMute { mix: MixType::Stream, muted: m.stream_master_muted },
        DaemonAction::ApplyMasterVolume { mix: MixType::Monitor, volume: m.monitor_master_volume },
        DaemonAction::ApplyMasterMute { mix: MixType::Monitor, muted: m.monitor_master_muted },
    ]
}

// ---------------------------------------------------------------------
// Applications
// ---------------------------------------------------------------------

/// The client answers to the pattern by its application name, its
/// binary's name or its node name.
pub open spec fn client_named(c: AudioClient, pattern: Seq<char>) -> bool {
    (c.application_name matches Some(n) && n@ == pattern) || (c.binary_name matches Some(b) && b@
        == pattern) || c.name@ == pattern
}

/// The re-routings for the clients that answer to the pattern, in
/// order.
pub open spec fn reroutes<L>(clients: Seq<AudioClient>, pattern: Seq<char>, channel: String) -> Seq<
    DaemonAction<L>,
>
    decreases clients.len(),
{
    if clients.len() == 0 {
        Seq::empty()
    } else {
        reroutes(clients.drop_last(), pattern, channel) + if client_named(clients.last(), pattern) {
            seq![DaemonAction::RerouteApp { app_id: clients.last().id, channel }]
        } else {
            Seq::empty()
        }
    }
}

/// The tracked applications other than those with this id, in order.
pub open spec fn apps_without(apps: Seq<ActiveApp>, id: u32) -> Seq<ActiveApp> {
    apps.filter(|a: ActiveApp| a.app_id != id)
}

/// `i` is the first tracked application with this id.
pub open spec fn first_app(apps: Seq<ActiveApp>, id: u32, i: int) -> bool {
    &&& 0 <= i < apps.len()
    &&& apps[i].app_id == id
    &&& forall|j: int| 0 <= j < i ==> #[trigger] apps[j].app_id != id
}

/// The tracked applications after one of them was re-routed: the first
/// with that id goes to the channel and counts as persistent.
pub open spec fn apps_rerouted(old_apps: Seq<ActiveApp>, new_apps: Seq<ActiveApp>, id: u32, channel: String) -> bool {
    if exists|i: int| first_app(old_apps, id, i) {
        exists|i: int|
            first_app(old_apps, id, i) && new_apps == old_apps.update(
                i,
                ActiveApp { channel, is_persistent: true, ..old_apps[i] },
            )
    } else {
        new_apps == old_apps
    }
}

// ---------------------------------------------------------------------
// The transition
// ---------------------------------------------------------------------

/// Everything but the run state is unchanged.
pub open spec fn same_but_state<L>(a: DaemonModel<L>, b: DaemonModel<L>) -> bool {
    &&& a.device_connected == b.device_connected
    &&& a.device_serial == b.device_serial
    &&& a.channels == b.channels
    &&& a.routes == b.routes
    &&& a.active_apps == b.active_apps
    &&& a.mixer == b.mixer
    &&& a.active_profile == b.active_profile
    &&& a.monitor_output == b.monitor_output
}

/// Nothing changes but, possibly, the fields the caller then states.
pub open spec fn unchanged<L>(a: DaemonModel<L>, b: DaemonModel<L>) -> bool {
    a.state == b.state && same_but_state(a, b)
}

/// Only the channels changed.
pub open spec fn only_channels<L>(a: DaemonModel<L>, b: DaemonModel<L>) -> bool {
    &&& a.state == b.state
    &&& a.device_connected == b.device_connected
    &&& a.device_serial == b.device_serial
    &&& a.routes == b.routes
    &&& a.active_apps == b.active_apps
    &&& a.mixer == b.mixer
    &&& a.active_profile == b.active_profile
    &&& a.monitor_output == b.monitor_output
}

/// Only the named fields (channels, routes, mixer, active profile) may
/// have changed.
pub open spec fn only_levels<L>(a: DaemonModel<L>, b: DaemonModel<L>) -> bool {
    &&& a.state == b.state
    &&& a.device_connected == b.device_connected
    &&& a.device_serial == b.device_serial
    &&& a.active_apps == b.active_apps
    &&& a.monitor_output == b.monitor_output
}

/// How a command from an IPC request is carried out.
pub open spec fn command_done<L>(m: DaemonModel<L>, c: Command<L>, n: DaemonModel<L>, acts: Seq<DaemonAction<L>>) -> bool {
    match c {
        Command::SetChannelVolume { channel, mix, volume } => {
            let i = channel_index(m.channels@, channel@);
            &&& only_channels(m, n)
            &&& if i >= 0 {
                &&& n.channels@ == m.channels@.update(i, with_volume(m.channels@[i], mix, volume))
                &&& acts == seq![
                    DaemonAction::ApplyChannelVolume { channel, mix, volume },
                    DaemonAction::EmitChannelVolumeChanged { channel, mix, volume },
                ]
            } else {
                n.channels == m.channels && acts.len() == 0
            }
        },
        Command::SetChannelMute { channel, mix, muted } => {
            let i = channel_index(m.channels@, channel@);
            &&& only_channels(m, n)
            &&& if i >= 0 {
                &&& n.channels@ == m.channels@.update(i, with_mute(m.channels@[i], mix, muted))
                &&& acts == seq![
                    DaemonAction::<L>::ApplyChannelMute { channel, mix, muted },
                    DaemonAction::<L>::EmitChannelMuteChanged { channel, mix, muted },
                ]
            } else {
                n.channels == m.channels && acts.len() == 0
            }
        },
        Command::SetMasterVolume { mix, volume } => {
            &&& only_levels(m, n)
            &&& n.channels == m.channels && n.routes == m.routes
            &&& n.active_profile == m.active_profile
            &&& n.mixer == mixer_with_volume(m.mixer, mix, volume)
            &&& acts == seq![DaemonAction::ApplyMasterVolume { mix, volume }]
        },
        Command::SetMasterMute { mix, muted } => {
            &&& only_levels(m, n)
            &&& n.channels == m.channels && n.routes == m.routes
            &&& n.active_profile == m.active_profile
            &&& n.mixer == mixer_with_mute(m.mixer, mix, muted)
            &&& acts == seq![DaemonAction::<L>::ApplyMasterMute { mix, muted }]
        },
        Command::SetAppRoute { app_pattern, channel } => {
            &&& only_levels(m, n)
            &&& n.channels == m.channels && n.mixer == m.mixer
            &&& n.active_profile == m.active_profile
            &&& n.routes@.len() == rules_without(m.routes@, app_pattern@).len() + 1
            &&& n.routes@.drop_last() == rules_without(m.routes@, app_pattern@)
            &&& app_route_rule(n.routes@.last(), app_pattern@, channel@)
            &&& acts.len() == 2
            &&& acts[0] matches DaemonAction::SaveRoute(rule) && app_route_rule(
                rule,
                app_pattern@,
                channel@,
            )
            &&& acts[1] == DaemonAction::<L>::ListAudioClients { app_pattern, channel }
        },
        Command::RemoveAppRoute { app_pattern } => {
            &&& only_levels(m, n)
            &&& n.channels == m.channels && n.mixer == m.mixer
            &&& n.active_profile == m.active_profile
            &&& n.routes@ == rules_without(m.routes@, app_pattern@)
            &&& acts == seq![DaemonAction::<L>::DeleteRoute { pattern: app_pattern }]
        },
        Command::SaveProfile { name } => {
            &&& unchanged(m, n)
            &&& acts.len() == 1
            &&& acts[0] matches DaemonAction::SaveProfile { name: pname, is_default, profile }
            &&& pname == name
            &&& is_default == (name@ == "Default"@)
            &&& profile.channels@ == m.channels@
            &&& profile.routes@ == m.routes@
            &&& profile.mixer == m.mixer
        },
        Command::LoadProfile { name } => unchanged(m, n) && acts == seq![
            DaemonAction::<L>::LoadProfile { name },
        ],
        Command::DeleteProfile { name } => unchanged(m, n) && acts == seq![
            DaemonAction::<L>::DeleteProfile { name },
        ],
        Command::SetMicGain { gain } => unchanged(m, n) && acts == seq![
            DaemonAction::SetMicGain { gain },
        ],
        Command::SetMicMute { muted } => unchanged(m, n) && acts == seq![
            DaemonAction::<L>::SetMicMute { muted },
        ],
        Command::SetHeadphoneVolume { volume } => unchanged(m, n) && acts == seq![
            DaemonAction::SetHeadphoneVolume { volume },
        ],
        Command::SetMonitorOutput { device_name } => unchanged(m, n) && acts == seq![
            DaemonAction::<L>::UnlinkMonitor { device_name: m.monitor_output },
            DaemonAction::LinkMonitor { device_name },
        ],
        Command::Reconcile => same_but_state(m, n) && n.state == DaemonState::Running && acts.len()
            == 0,
        Command::Shutdown => unchanged(m, n) && acts == seq![DaemonAction::<L>::Stop],
        // The effect chain is kept by the effects service, not by
        // this loop.
        Command::SetEffectBypass { .. } => unchanged(m, n) && acts.len() == 0,
        Command::SetEffectParam { .. } => unchanged(m, n) && acts.len() == 0,
        Command::LoadEffectPreset { .. } => unchanged(m, n) && acts.len() == 0,
        Command::ResetEffectChain => unchanged(m, n) && acts.len() == 0,
    }
}

/// One step of the loop: from model `m` and an input to model `n` and
/// the actions `acts`.
pub open spec fn stepped<L>(m: DaemonModel<L>, input: DaemonInput<L>, n: DaemonModel<L>, acts: Seq<DaemonAction<L>>) -> bool {
    match input {
        DaemonInput::PipeWireConnected => same_but_state(m, n) && n.state == DaemonState::Reconciling
            && acts.len() == 0,
        DaemonInput::PipeWireDisconnected => {
            &&& same_but_state(m, n)
            &&& n.state matches DaemonState::Error(msg) && msg@ == "PipeWire disconnected"@
            &&& acts.len() == 0
        },
        DaemonInput::Wave3Detected { serial, headphones_linked } => {
            &&& n.state == DaemonState::Running
            &&& n.device_connected
            &&& n.device_serial == Some(serial)
            &&& n.channels == m.channels && n.routes == m.routes && n.active_apps == m.active_apps
            &&& n.mixer == m.mixer && n.active_profile == m.active_profile
            &&& n.monitor_output == m.monitor_output
            &&& acts == if headphones_linked {
                seq![DaemonAction::<L>::EmitDeviceConnected { serial }]
            } else {
                seq![
                    DaemonAction::<L>::EmitDeviceConnected { serial },
                    DaemonAction::<L>::LinkMonitorToHeadphones,
                ]
            }
        },
        DaemonInput::Wave3Removed => {
            &&& n.state == DaemonState::DeviceDisconnected
            &&& !n.device_connected
            &&& n.device_serial is None
            &&& n.channels == m.channels && n.routes == m.routes && n.active_apps == m.active_apps
            &&& n.mixer == m.mixer && n.active_profile == m.active_profile
            &&& n.monitor_output == m.monitor_output
            &&& acts == seq![DaemonAction::<L>::EmitDeviceDisconnected]
        },
        DaemonInput::ClientAppeared { id, name, binary_name, pid } => {
            let app = n.active_apps@.last();
            &&& n.state == m.state && n.device_connected == m.device_connected
            &&& n.device_serial == m.device_serial
            &&& n.channels == m.channels && n.routes == m.routes && n.mixer == m.mixer
            &&& n.active_profile == m.active_profile && n.monitor_output == m.monitor_output
            &&& n.active_apps@.len() == m.active_apps@.len() + 1
            &&& n.active_apps@.drop_last() == m.active_apps@
            &&& app.app_id == id && app.app_name == name && app.binary_name == binary_name
            &&& app.pid == pid
            &&& app.channel@ == spec_channel_for_app(m.routes@, name@, opt_chars(binary_name))
            &&& app.is_persistent == any_rule_matches(m.routes@, name@, opt_chars(binary_name))
            &&& acts == seq![
                DaemonAction::<L>::RouteApp { app_id: id, channel: app.channel },
                DaemonAction::<L>::EmitAppDiscovered {
                    app_id: id,
                    name,
                    binary: binary_name,
                    pid,
                    channel: app.channel,
                },
            ]
        },
        DaemonInput::ClientDisappeared { id } => {
            &&& n.state == m.state && n.device_connected == m.device_connected
            &&& n.device_serial == m.device_serial
            &&& n.channels == m.channels && n.routes == m.routes && n.mixer == m.mixer
            &&& n.active_profile == m.active_profile && n.monitor_output == m.monitor_output
            &&& n.active_apps@ == apps_without(m.active_apps@, id)
            &&& acts == seq![DaemonAction::<L>::EmitAppRemoved { app_id: id }]
        },
        DaemonInput::Command(c) => command_done(m, c, n, acts),
        DaemonInput::ProfileLoaded { name, profile } => {
            &&& only_levels(m, n)
            &&& n.channels@ == apply_profile(m.channels@, profile.channels@)
            &&& n.routes@ == if profile.routes@.len() == 0 {
                m.routes@
            } else {
                profile.routes@
            }
            &&& n.mixer == profile.mixer
            &&& n.active_profile == name
            &&& acts == profile_actions(m.channels@, profile.channels@) + master_actions(
                profile.mixer,
            )
        },
        DaemonInput::ClientsListed { app_pattern, channel, clients } => unchanged(m, n) && acts
            == reroutes::<L>(clients@, app_pattern@, channel),
        DaemonInput::AppRerouted { app_id, channel } => {
            &&& n.state == m.state && n.device_connected == m.device_connected
            &&& n.device_serial == m.device_serial
            &&& n.channels == m.channels && n.routes == m.routes && n.mixer == m.mixer
            &&& n.active_profile == m.active_profile && n.monitor_output == m.monitor_output
            &&& apps_rerouted(m.active_apps@, n.active_apps@, app_id, channel)
            &&& acts.len() == 0
        },
        DaemonInput::MonitorLinked { device_name } => {
            &&& n.state == m.state && n.device_connected == m.device_connected
            &&& n.device_serial == m.device_serial
            &&& n.channels == m.channels && n.routes == m.routes && n.mixer == m.mixer
            &&& n.active_apps == m.active_apps && n.active_profile == m.active_profile
            &&& n.monitor_output == device_name
            &&& acts.len() == 0
        },
        DaemonInput::MonitorLinkFailed { device_name } => unchanged(m, n) && acts == seq![
            DaemonAction::<L>::RelinkMonitor { device_name: m.monitor_output },
        ],
        DaemonInput::ShutdownSignal => unchanged(m, n) && acts == seq![DaemonAction::<L>::Stop],
    }
}

// ---------------------------------------------------------------------
// Executable steps
// ---------------------------------------------------------------------

/// A copy of a routing rule.
pub fn copy_rule(r: &RouteRule) -> (c: RouteRule)
    ensures
        c == *r,
{
    RouteRule {
        pattern: r.pattern.clone(),
        pattern_type: r.pattern_type,
        channel: r.channel.clone(),
        priority: r.priority,
    }
}

/// A copy of a list of routing rules.
pub fn copy_rules(v: &Vec<RouteRule>) -> (c: Vec<RouteRule>)
    ensures
        c@ == v@,
{
    let mut c: Vec<RouteRule> = Vec::new();
    let mut i: usize = 0;
    while i < v.len()
        invariant
            i <= v.len(),
            c@ == v@.take(i as int),
        decreases v.len() - i,
    {
        c.push(copy_rule(&v[i]));
        assert(c@ =~= v@.take(i + 1));
        i = i + 1;
    }
    assert(c@ =~= v@);
    c
}

/// A copy of a channel's levels.
pub fn copy_channel<L: Copy>(ch: &ChannelLevels<L>) -> (c: ChannelLevels<L>)
    ensures
        c == *ch,
{
    ChannelLevels {
        name: ch.name.clone(),
        stream_volume: ch.stream_volume,
        stream_muted: ch.stream_muted,
        monitor_volume: ch.monitor_volume,
        monitor_muted: ch.monitor_muted,
    }
}

/// A copy of a list of channel levels.
pub fn copy_channels<L: Copy>(v: &Vec<ChannelLevels<L>>) -> (c: Vec<ChannelLevels<L>>)
    ensures
        c@ == v@,
{
    let mut c: Vec<ChannelLevels<L>> = Vec::new();
    let mut i: usize = 0;
    while i < v.len()
        invariant
            i <= v.len(),
            c@ == v@.take(i as int),
        decreases v.len() - i,
    {
        c.push(copy_channel(&v[i]));
        assert(c@ =~= v@.take(i + 1));
        i = i + 1;
    }
    assert(c@ =~= v@);
    c
}

fn copy_opt(s: &Option<String>) -> (c: Option<String>)
    ensures
        c == *s,
{
    match s {
        Some(x) => Some(x.clone()),
        None => None,
    }
}

/// The first position of a channel of this name.
fn channel_position<L>(chs: &Vec<ChannelLevels<L>>, name: &str) -> (r: Option<usize>)
    ensures
        match r {
            Some(i) => first_channel(chs@, name@, i as int) && channel_index(chs@, name@) == i,
            None => channel_index(chs@, name@) == -1,
        },
{
    let key = String::from_str(name);
    let mut i: usize = 0;
    while i < chs.len()
        invariant
            i <= chs.len(),
            key@ == name@,
            forall|j: int| 0 <= j < i ==> #[trigger] chs@[j].name@ != name@,
        decreases chs.len() - i,
    {
        if chs[i].name == key {
            proof {
                lemma_channel_index(chs@, name@, i as int);
            }
            return Some(i);
        }
        i = i + 1;
    }
    proof {
        lemma_no_channel_index(chs@, name@);
    }
    None
}

/// Applies a profile's channel entries in order, adding their node
/// updates to `acts`.
fn apply_profile_channels<L: Copy>(
    chs: &mut Vec<ChannelLevels<L>>,
    ps: &Vec<ChannelLevels<L>>,
    acts: &mut Vec<DaemonAction<L>>,
)
    ensures
        final(chs)@ == apply_profile(old(chs)@, ps@),
        final(acts)@ == old(acts)@ + profile_actions(old(chs)@, ps@),
{
    let ghost chs0 = chs@;
    let ghost acts0 = acts@;
    let mut k: usize = 0;
    assert(ps@.take(0) =~= Seq::<ChannelLevels<L>>::empty());
    assert(acts@ =~= acts0 + profile_actions(chs0, ps@.take(0)));
    while k < ps.len()
        invariant
            k <= ps.len(),
            chs@ == apply_profile(chs0, ps@.take(k as int)),
            acts@ == acts0 + profile_actions(chs0, ps@.take(k as int)),
        decreases ps.len() - k,
    {
        let ghost before = chs@;
        let ghost acts_before = acts@;
        let p = &ps[k];
        assert(ps@.take(k + 1).drop_last() =~= ps@.take(k as int));
        assert(ps@.take(k + 1).last() == ps@[k as int]);
        match channel_position(chs, p.name.as_str()) {
            Some(i) => {
                let name = chs[i].name.clone();
                chs.set(
                    i,
                    ChannelLevels {
                        name: name.clone(),
                        stream_volume: p.stream_volume,
                        stream_muted: p.stream_muted,
                        monitor_volume: p.monitor_volume,
                        monitor_muted: p.monitor_muted,
                    },
                );
                acts.push(
                    DaemonAction::ApplyChannelVolume {
                        channel: name.clone(),
                        mix: MixType::Stream,
                        volume: p.stream_volume,
                    },
                );
                acts.push(
                    DaemonAction::ApplyChannelMute {
                        channel: name.clone(),
                        mix: MixType::Stream,
                        muted: p.stream_muted,
                    },
                );
                acts.push(
                    DaemonAction::ApplyChannelVolume {
                        channel: name.clone(),
                        mix: MixType::Monitor,
                        volume: p.monitor_volume,
                    },
                );
                acts.push(
                    DaemonAction::ApplyChannelMute {
                        channel: name,
                        mix: MixType::Monitor,
                        muted: p.monitor_muted,
                    },
                );
                assert(chs@ =~= apply_entry(before, ps@[k as int]));
                assert(acts@ =~= acts_before + entry_actions(before, ps@[k as int]));
            },
            None => {
                assert(chs@ =~= apply_entry(before, ps@[k as int]));
                assert(acts@ =~= acts_before + entry_actions(before, ps@[k as int]));
            },
        }
        assert(acts@ =~= acts0 + profile_actions(chs0, ps@.take(k + 1)));
        k = k + 1;
    }
    assert(ps@.take(ps@.len() as int) =~= ps@);
}

/// The client answers to the pattern.
fn is_client_named(c: &AudioClient, pattern: &String) -> (b: bool)
    ensures
        b == client_named(*c, pattern@),
{
    let by_app = match &c.application_name {
        Some(n) => *n == *pattern,
        None => false,
    };
    let by_binary = match &c.binary_name {
        Some(n) => *n == *pattern,
        None => false,
    };
    by_app || by_binary || c.name == *pattern
}

/// The re-routings for the listed clients that answer to the pattern.
fn reroute_actions<L>(clients: &Vec<AudioClient>, pattern: &String, channel: &String) -> (r: Vec<
    DaemonAction<L>,
>)
    ensures
        r@ == reroutes::<L>(clients@, pattern@, *channel),
{
    let mut r: Vec<DaemonAction<L>> = Vec::new();
    let mut k: usize = 0;
    assert(clients@.take(0) =~= Seq::<AudioClient>::empty());
    while k < clients.len()
        invariant
            k <= clients.len(),
            r@ == reroutes::<L>(clients@.take(k as int), pattern@, *channel),
        decreases clients.len() - k,
    {
        let ghost before = r@;
        assert(clients@.take(k + 1).drop_last() =~= clients@.take(k as int));
        assert(clients@.take(k + 1).last() == clients@[k as int]);
        if is_client_named(&clients[k], pattern) {
            r.push(DaemonAction::RerouteApp { app_id: clients[k].id, channel: channel.clone() });
        }
        assert(r@ =~= reroutes::<L>(clients@.take(k + 1), pattern@, *channel));
        k = k + 1;
    }
    assert(clients@.take(clients@.len() as int) =~= clients@);
    r
}

/// Stops tracking the applications with this id.
fn remove_apps(apps: &mut Vec<ActiveApp>, id: u32)
    ensures
        final(apps)@ == apps_without(old(apps)@, id),
{
    let mut rest: Vec<ActiveApp> = Vec::new();
    std::mem::swap(apps, &mut rest);
    let ghost olds = rest@;
    assert(olds.take(0) =~= Seq::<ActiveApp>::empty());
    let mut kept: Vec<ActiveApp> = Vec::new();
    let ghost mut i: int = 0;
    while rest.len() > 0
        invariant
            0 <= i <= olds.len(),
            rest@ == olds.skip(i),
            kept@ == apps_without(olds.take(i), id),
        decreases rest.len(),
    {
        let app = rest.remove(0);
        let keep = app.app_id != id;
        proof {
            reveal_with_fuel(Seq::<_>::filter, 1);
            assert(olds.take(i + 1).drop_last() =~= olds.take(i));
            assert(olds.take(i + 1).last() == olds[i]);
            assert(rest@ =~= olds.skip(i + 1));
        }
        if keep {
            kept.push(app);
        }
        proof {
            i = i + 1;
        }
    }
    assert(olds.take(olds.len() as int) =~= olds);
    *apps = kept;
}

/// The first tracked application with this id.
fn app_position(apps: &Vec<ActiveApp>, id: u32) -> (r: Option<usize>)
    ensures
        match r {
            Some(i) => first_app(apps@, id, i as int),
            None => !exists|i: int| first_app(apps@, id, i),
        },
{
    let mut i: usize = 0;
    while i < apps.len()
        invariant
            i <= apps.len(),
            forall|j: int| 0 <= j < i ==> #[trigger] apps@[j].app_id != id,
        decreases apps.len() - i,
    {
        if apps[i].app_id == id {
            return Some(i);
        }
        i = i + 1;
    }
    proof {
        if exists|k: int| first_app(apps@, id, k) {
            let k = choose|k: int| first_app(apps@, id, k);
            assert(apps@[k].app_id == id);
        }
    }
    None
}

/// Carries out a command from an IPC request.
fn apply_command<L: Copy>(model: &mut DaemonModel<L>, c: Command<L>) -> (acts: Vec<DaemonAction<L>>)
    ensures
        command_done(*old(model), c, *final(model), acts@),
{
    let mut acts: Vec<DaemonAction<L>> = Vec::new();
    match c {
        Command::SetChannelVolume { channel, mix, volume } => {
            match channel_position(&model.channels, channel.as_str()) {
                Some(i) => {
                    let mut ch = copy_channel(&model.channels[i]);
                    match mix {
                        MixType::Stream => ch.stream_volume = volume,
                        MixType::Monitor => ch.monitor_volume = volume,
                    }
                    model.channels.set(i, ch);
                    let ghost expected = seq![
                        DaemonAction::ApplyChannelVolume { channel, mix, volume },
                        DaemonAction::EmitChannelVolumeChanged { channel, mix, volume },
                    ];
                    acts.push(
                        DaemonAction::ApplyChannelVolume { channel: channel.clone(), mix, volume },
                    );
                    acts.push(DaemonAction::EmitChannelVolumeChanged { channel, mix, volume });
                    assert(acts@ =~= expected);
                },
                None => {},
            }
        },
        Command::SetChannelMute { channel, mix, muted } => {
            match channel_position(&model.channels, channel.as_str()) {
                Some(i) => {
                    let mut ch = copy_channel(&model.channels[i]);
                    match mix {
                        MixType::Stream => ch.stream_muted = muted,
                        MixType::Monitor => ch.monitor_muted = muted,
                    }
                    model.channels.set(i, ch);
                    let ghost expected = seq![
                        DaemonAction::ApplyChannelMute { channel, mix, muted },
                        DaemonAction::EmitChannelMuteChanged { channel, mix, muted },
                    ];
                    acts.push(
                        DaemonAction::ApplyChannelMute { channel: channel.clone(), mix, muted },
                    );
                    acts.push(DaemonAction::EmitChannelMuteChanged { channel, mix, muted });
                    assert(acts@ =~= expected);
                },
                None => {},
            }
        },
        Command::SetMasterVolume { mix, volume } => {
            match mix {
                MixType::Stream => model.mixer.stream_master_volume = volume,
                MixType::Monitor => model.mixer.monitor_master_volume = volume,
            }
            acts.push(DaemonAction::ApplyMasterVolume { mix, volume });
            assert(acts@ =~= seq![DaemonAction::ApplyMasterVolume { mix, volume }]);
        },
        Command::SetMasterMute { mix, muted } => {
            match mix {
                MixType::Stream => model.mixer.stream_master_muted = muted,
                MixType::Monitor => model.mixer.monitor_master_muted = muted,
            }
            acts.push(DaemonAction::ApplyMasterMute { mix, muted });
            assert(acts@ =~= seq![DaemonAction::ApplyMasterMute { mix, muted }]);
        },
        Command::SetAppRoute { app_pattern, channel } => {
            let rule = set_app_route(&mut model.routes, app_pattern.as_str(), channel.as_str());
            acts.push(DaemonAction::SaveRoute(rule));
            acts.push(DaemonAction::ListAudioClients { app_pattern, channel });
        },
        Command::RemoveAppRoute { app_pattern } => {
            remove_app_route(&mut model.routes, app_pattern.as_str());
            let ghost expected = seq![DaemonAction::DeleteRoute { pattern: app_pattern }];
            acts.push(DaemonAction::DeleteRoute { pattern: app_pattern });
            assert(acts@ =~= expected);
        },
        Command::SaveProfile { name } => {
            let is_default = name == String::from_str("Default");
            let profile = ProfileLevels {
                channels: copy_channels(&model.channels),
                routes: copy_rules(&model.routes),
                mixer: model.mixer,
            };
            acts.push(DaemonAction::SaveProfile { name, is_default, profile });
        },
        Command::LoadProfile { name } => {
            let ghost expected = seq![DaemonAction::LoadProfile { name }];
            acts.push(DaemonAction::LoadProfile { name });
            assert(acts@ =~= expected);
        },
        Command::DeleteProfile { name } => {
            let ghost expected = seq![DaemonAction::DeleteProfile { name }];
            acts.push(DaemonAction::DeleteProfile { name });
            assert(acts@ =~= expected);
        },
        Command::SetMicGain { gain } => {
            let ghost expected = seq![DaemonAction::SetMicGain { gain }];
            acts.push(DaemonAction::SetMicGain { gain });
            assert(acts@ =~= expected);
        },
        Command::SetMicMute { muted } => {
            let ghost expected = seq![DaemonAction::SetMicMute { muted }];
            acts.push(DaemonAction::SetMicMute { muted });
            assert(acts@ =~= expected);
        },
        Command::SetHeadphoneVolume { volume } => {
            let ghost expected = seq![DaemonAction::SetHeadphoneVolume { volume }];
            acts.push(DaemonAction::SetHeadphoneVolume { volume });
            assert(acts@ =~= expected);
        },
        Command::SetMonitorOutput { device_name } => {
            let ghost expected = seq![
                DaemonAction::UnlinkMonitor { device_name: model.monitor_output },
                DaemonAction::LinkMonitor { device_name },
            ];
            acts.push(DaemonAction::UnlinkMonitor { device_name: model.monitor_output.clone() });
            acts.push(DaemonAction::LinkMonitor { device_name });
            assert(acts@ =~= expected);
        },
        Command::Reconcile => {
            model.state = DaemonState::Running;
        },
        Command::Shutdown => {
            acts.push(DaemonAction::Stop);
            assert(acts@ =~= seq![DaemonAction::<L>::Stop]);
        },
        Command::SetEffectBypass { .. } => {},
        Command::SetEffectParam { .. } => {},
        Command::LoadEffectPreset { .. } => {},
        Command::ResetEffectChain => {},
    }
    acts
}

impl<L> DaemonModel<L> {
    /// The model at start-up: running, on the default profile, the
    /// monitor mix on the Wave:3 headphones, no application tracked, and
    /// a device connected when one was found (with its serial).
    pub fn new(
        device_serial: Option<String>,
        channels: Vec<ChannelLevels<L>>,
        routes: Vec<RouteRule>,
        mixer: MixerLevels<L>,
    ) -> (m: Self)
        ensures
            m.state == DaemonState::Running,
            m.device_connected == device_serial is Some,
            m.device_serial == device_serial,
            m.channels == channels,
            m.routes == routes,
            m.active_apps@.len() == 0,
            m.mixer == mixer,
            m.active_profile@ == "Default"@,
            m.monitor_output@ == "wave3-sink"@,
    {
        DaemonModel {
            state: DaemonState::Running,
            device_connected: device_serial.is_some(),
            device_serial,
            channels,
            routes,
            active_apps: Vec::new(),
            mixer,
            active_profile: String::from_str("Default"),
            monitor_output: String::from_str("wave3-sink"),
        }
    }
}

/// Switching the monitor output: the request unlinks the current output
/// and links the new one; a confirmed link makes the new device the
/// output, and a failed one keeps the previous output and relinks it.
pub proof fn lemma_monitor_switch<L>(
    m: DaemonModel<L>,
    device_name: String,
    n: DaemonModel<L>,
    acts: Seq<DaemonAction<L>>,
    ok: DaemonModel<L>,
    ok_acts: Seq<DaemonAction<L>>,
    failed: DaemonModel<L>,
    failed_acts: Seq<DaemonAction<L>>,
)
    requires
        stepped(m, DaemonInput::Command(Command::SetMonitorOutput { device_name }), n, acts),
        stepped(n, DaemonInput::MonitorLinked { device_name }, ok, ok_acts),
        stepped(n, DaemonInput::MonitorLinkFailed { device_name }, failed, failed_acts),
    ensures
        acts == seq![
            DaemonAction::<L>::UnlinkMonitor { device_name: m.monitor_output },
            DaemonAction::<L>::LinkMonitor { device_name },
        ],
        ok.monitor_output == device_name,
        ok_acts.len() == 0,
        failed.monitor_output == m.monitor_output,
        failed_acts == seq![DaemonAction::<L>::RelinkMonitor { device_name: m.monitor_output }],
{
}

/// A channel mute lands in the requested mix of the first channel of
/// that name: its mute flag there becomes the requested one, its other
/// levels and every other channel stay as they were, and the node of
/// that channel in that mix is muted and the change announced.
pub proof fn lemma_channel_mute_lands_in_its_mix<L>(
    m: DaemonModel<L>,
    channel: String,
    mix: MixType,
    muted: bool,
    n: DaemonModel<L>,
    acts: Seq<DaemonAction<L>>,
    i: int,
)
    requires
        stepped(m, DaemonInput::Command(Command::SetChannelMute { channel, mix, muted }), n, acts),
        0 <= i < m.channels@.len(),
        m.channels@[i].name@ == channel@,
        forall|j: int| 0 <= j < i ==> #[trigger] m.channels@[j].name@ != channel@,
    ensures
        n.channels@.len() == m.channels@.len(),
        n.channels@[i].name == m.channels@[i].name,
        n.channels@[i].stream_volume == m.channels@[i].stream_volume,
        n.channels@[i].monitor_volume == m.channels@[i].monitor_volume,
        mix == MixType::Stream ==> n.channels@[i].stream_muted == muted
            && n.channels@[i].monitor_muted == m.channels@[i].monitor_muted,
        mix == MixType::Monitor ==> n.channels@[i].monitor_muted == muted
            && n.channels@[i].stream_muted == m.channels@[i].stream_muted,
        forall|j: int| 0 <= j < m.channels@.len() && j != i ==> n.channels@[j] == m.channels@[j],
        n.mixer == m.mixer,
        acts.len() == 2,
        acts[0] == (DaemonAction::<L>::ApplyChannelMute { channel, mix, muted }),
        acts[1] == (DaemonAction::<L>::EmitChannelMuteChanged { channel, mix, muted }),
{
    lemma_channel_index(m.channels@, channel@, i);
}

/// A channel volume lands in the requested mix of the first channel of
/// that name: its volume there becomes the requested one, its other
/// levels and every other channel stay as they were, and the node of
/// that channel in that mix is set and the change announced.
pub proof fn lemma_channel_volume_lands_in_its_mix<L>(
    m: DaemonModel<L>,
    channel: String,
    mix: MixType,
    volume: L,
    n: DaemonModel<L>,
    acts: Seq<DaemonAction<L>>,
    i: int,
)
    requires
        stepped(m, DaemonInput::Command(Command::SetChannelVolume { channel, mix, volume }), n, acts),
        0 <= i < m.channels@.len(),
        m.channels@[i].name@ == channel@,
        forall|j: int| 0 <= j < i ==> #[trigger] m.channels@[j].name@ != channel@,
    ensures
        n.channels@.len() == m.channels@.len(),
        n.channels@[i].name == m.channels@[i].name,
        n.channels@[i].stream_muted == m.channels@[i].stream_muted,
        n.channels@[i].monitor_muted == m.channels@[i].monitor_muted,
        mix == MixType::Stream ==> n.channels@[i].stream_volume == volume
            && n.channels@[i].monitor_volume == m.channels@[i].monitor_volume,
        mix == MixType::Monitor ==> n.channels@[i].monitor_volume == volume
            && n.channels@[i].stream_volume == m.channels@[i].stream_volume,
        forall|j: int| 0 <= j < m.channels@.len() && j != i ==> n.channels@[j] == m.channels@[j],
        n.mixer == m.mixer,
        acts.len() == 2,
        acts[0] == (DaemonAction::<L>::ApplyChannelVolume { channel, mix, volume }),
        acts[1] == (DaemonAction::<L>::EmitChannelVolumeChanged { channel, mix, volume }),
{
    lemma_channel_index(m.channels@, channel@, i);
}

/// A level change for a channel the model does not hold changes nothing
/// and asks for nothing.
pub proof fn lemma_unknown_channel_ignored<L>(
    m: DaemonModel<L>,
    c: Command<L>,
    n: DaemonModel<L>,
    acts: Seq<DaemonAction<L>>,
)
    requires
        stepped(m, DaemonInput::Command(c), n, acts),
        c is SetChannelVolume || c is SetChannelMute,
        forall|j: int|
            0 <= j < m.channels@.len() ==> #[trigger] m.channels@[j].name@ != match c {
                Command::SetChannelVolume { channel, .. } => channel@,
                Command::SetChannelMute { channel, .. } => channel@,
                _ => Seq::empty(),
            },
    ensures
        n.channels == m.channels,
        n.mixer == m.mixer,
        acts.len() == 0,
{
    match c {
        Command::SetChannelVolume { channel, .. } => lemma_no_channel_index(m.channels@, channel@),
        Command::SetChannelMute { channel, .. } => lemma_no_channel_index(m.channels@, channel@),
        _ => {},
    }
}

/// A master level lands in the requested mix only: that mix's master
/// volume or mute becomes the requested one, the other mix and the
/// other kind of level stay, and that mix node is updated.
pub proof fn lemma_master_level_lands_in_its_mix<L>(
    m: DaemonModel<L>,
    c: Command<L>,
    n: DaemonModel<L>,
    acts: Seq<DaemonAction<L>>,
)
    requires
        stepped(m, DaemonInput::Command(c), n, acts),
        c is SetMasterVolume || c is SetMasterMute,
    ensures
        n.channels == m.channels,
        c matches Command::SetMasterVolume { mix, volume } ==> {
            &&& acts == seq![DaemonAction::<L>::ApplyMasterVolume { mix, volume }]
            &&& n.mixer.stream_master_muted == m.mixer.stream_master_muted
            &&& n.mixer.monitor_master_muted == m.mixer.monitor_master_muted
            &&& mix == MixType::Stream ==> n.mixer.stream_master_volume == volume
                && n.mixer.monitor_master_volume == m.mixer.monitor_master_volume
            &&& mix == MixType::Monitor ==> n.mixer.monitor_master_volume == volume
                && n.mixer.stream_master_volume == m.mixer.stream_master_volume
        },
        c matches Command::SetMasterMute { mix, muted } ==> {
            &&& acts == seq![DaemonAction::<L>::ApplyMasterMute { mix, muted }]
            &&& n.mixer.stream_master_volume == m.mixer.stream_master_volume
            &&& n.mixer.monitor_master_volume == m.mixer.monitor_master_volume
            &&& mix == MixType::Stream ==> n.mixer.stream_master_muted == muted
                && n.mixer.monitor_master_muted == m.mixer.monitor_master_muted
            &&& mix == MixType::Monitor ==> n.mixer.monitor_master_muted == muted
                && n.mixer.stream_master_muted == m.mixer.stream_master_muted
        },
{
}

proof fn lemma_apply_profile_keeps_names<L>(chs: Seq<ChannelLevels<L>>, ps: Seq<ChannelLevels<L>>)
    ensures
        apply_profile(chs, ps).len() == chs.len(),
        forall|i: int| 0 <= i < chs.len() ==> #[trigger] apply_profile(chs, ps)[i].name == chs[i].name,
    decreases ps.len(),
{
    if ps.len() > 0 {
        lemma_apply_profile_keeps_names(chs, ps.drop_last());
    }
}

/// An entry that does not name channel `i` leaves it alone.
proof fn lemma_entry_other<L>(cur: Seq<ChannelLevels<L>>, p: ChannelLevels<L>, i: int)
    requires
        0 <= i < cur.len(),
        cur[i].name@ != p.name@,
    ensures
        apply_entry(cur, p).len() == cur.len(),
        apply_entry(cur, p)[i] == cur[i],
{
    if exists|j: int| first_channel(cur, p.name@, j) {
        let j = choose|j: int| first_channel(cur, p.name@, j);
        assert(channel_index(cur, p.name@) == j);
        assert(j != i);
    }
}

/// An entry naming channel `i`, among channels of distinct names, gives
/// it the entry's levels.
proof fn lemma_entry_self<L>(cur: Seq<ChannelLevels<L>>, p: ChannelLevels<L>, i: int)
    requires
        0 <= i < cur.len(),
        cur[i].name@ == p.name@,
        forall|j: int| 0 <= j < cur.len() && j != i ==> #[trigger] cur[j].name@ != cur[i].name@,
    ensures
        apply_entry(cur, p)[i] == with_levels_of(cur[i], p),
{
    assert forall|j: int| 0 <= j < i implies #[trigger] cur[j].name@ != p.name@ by {}
    lemma_channel_index(cur, p.name@, i);
}

/// A channel that no entry names keeps its levels.
proof fn lemma_profile_untouched<L>(chs: Seq<ChannelLevels<L>>, ps: Seq<ChannelLevels<L>>, i: int)
    requires
        0 <= i < chs.len(),
        forall|k: int| 0 <= k < ps.len() ==> #[trigger] ps[k].name@ != chs[i].name@,
    ensures
        apply_profile(chs, ps)[i] == chs[i],
    decreases ps.len(),
{
    if ps.len() > 0 {
        let rest = ps.drop_last();
        assert forall|k: int| 0 <= k < rest.len() implies #[trigger] rest[k].name@ != chs[i].name@ by {
            assert(rest[k] == ps[k]);
        }
        lemma_profile_untouched(chs, rest, i);
        lemma_apply_profile_keeps_names(chs, rest);
        assert(ps[ps.len() - 1] == ps.last());
        lemma_entry_other(apply_profile(chs, rest), ps.last(), i);
    }
}

/// A channel that entry `k` names, and no later entry, takes entry
/// `k`'s levels.
proof fn lemma_profile_last_entry<L>(chs: Seq<ChannelLevels<L>>, ps: Seq<ChannelLevels<L>>, i: int, k: int)
    requires
        forall|a: int, b: int| 0 <= a < b < chs.len() ==> #[trigger] chs[a].name@ != #[trigger] chs[b].name@,
        0 <= i < chs.len(),
        0 <= k < ps.len(),
        ps[k].name@ == chs[i].name@,
        forall|k2: int| k < k2 < ps.len() ==> #[trigger] ps[k2].name@ != chs[i].name@,
    ensures
        apply_profile(chs, ps)[i] == with_levels_of(chs[i], ps[k]),
    decreases ps.len(),
{
    let rest = ps.drop_last();
    lemma_apply_profile_keeps_names(chs, rest);
    let cur = apply_profile(chs, rest);
    assert(ps[ps.len() - 1] == ps.last());
    if k == ps.len() - 1 {
        assert forall|j: int| 0 <= j < cur.len() && j != i implies #[trigger] cur[j].name@ != cur[i].name@ by {
            assert(cur[j].name == chs[j].name);
            if j < i {
                assert(chs[j].name@ != chs[i].name@);
            } else {
                assert(chs[i].name@ != chs[j].name@);
            }
        }
        lemma_entry_self(cur, ps.last(), i);
        assert(cur[i].name == chs[i].name);
    } else {
        assert(rest[k] == ps[k]);
        assert forall|k2: int| k < k2 < rest.len() implies #[trigger] rest[k2].name@ != chs[i].name@ by {
            assert(rest[k2] == ps[k2]);
        }
        lemma_profile_last_entry(chs, rest, i, k);
        lemma_entry_other(cur, ps.last(), i);
    }
}

/// Loading a profile into channels of distinct names: a channel that
/// no entry of the profile names keeps its levels; a channel that some
/// entry names takes the levels of the last such entry, in both mixes,
/// and keeps its name.
pub proof fn lemma_profile_levels_land<L>(chs: Seq<ChannelLevels<L>>, ps: Seq<ChannelLevels<L>>)
    requires
        forall|a: int, b: int| 0 <= a < b < chs.len() ==> #[trigger] chs[a].name@ != #[trigger] chs[b].name@,
    ensures
        apply_profile(chs, ps).len() == chs.len(),
        forall|i: int|
            0 <= i < chs.len() && (forall|k: int| 0 <= k < ps.len() ==> #[trigger] ps[k].name@ != chs[i].name@)
                ==> #[trigger] apply_profile(chs, ps)[i] == chs[i],
        forall|i: int, k: int|
            0 <= i < chs.len() && 0 <= k < ps.len() && #[trigger] ps[k].name@ == #[trigger] chs[i].name@ && (forall|
                k2: int,
            | k < k2 < ps.len() ==> #[trigger] ps[k2].name@ != chs[i].name@) ==> {
                let c = apply_profile(chs, ps)[i];
                &&& c.name == chs[i].name
                &&& c.stream_volume == ps[k].stream_volume
                &&& c.stream_muted == ps[k].stream_muted
                &&& c.monitor_volume == ps[k].monitor_volume
                &&& c.monitor_muted == ps[k].monitor_muted
            },
{
    lemma_apply_profile_keeps_names(chs, ps);
    assert forall|i: int|
        0 <= i < chs.len() && (forall|k: int| 0 <= k < ps.len() ==> #[trigger] ps[k].name@ != chs[i].name@)
            implies #[trigger] apply_profile(chs, ps)[i] == chs[i] by {
        lemma_profile_untouched(chs, ps, i);
    }
    assert forall|i: int, k: int|
        0 <= i < chs.len() && 0 <= k < ps.len() && #[trigger] ps[k].name@ == #[trigger] chs[i].name@
            && (forall|k2: int| k < k2 < ps.len() ==> #[trigger] ps[k2].name@ != chs[i].name@) implies {
        let c = apply_profile(chs, ps)[i];
        &&& c.name == chs[i].name
        &&& c.stream_volume == ps[k].stream_volume
        &&& c.stream_muted == ps[k].stream_muted
        &&& c.monitor_volume == ps[k].monitor_volume
        &&& c.monitor_muted == ps[k].monitor_muted
    } by {
        lemma_profile_last_entry(chs, ps, i, k);
    }
}

/// Loading a profile, with the model's channels of distinct names:
/// each channel that the profile names takes the levels of the
/// profile's last entry for it, in both mixes; every other channel
/// keeps its levels; the master levels become the profile's; the routes
/// become the profile's unless it has none; and the profile becomes the
/// active one.
pub proof fn lemma_profile_load<L>(
    m: DaemonModel<L>,
    name: String,
    profile: ProfileLevels<L>,
    n: DaemonModel<L>,
    acts: Seq<DaemonAction<L>>,
)
    requires
        stepped(m, DaemonInput::ProfileLoaded { name, profile }, n, acts),
        forall|a: int, b: int|
            0 <= a < b < m.channels@.len() ==> #[trigger] m.channels@[a].name@
                != #[trigger] m.channels@[b].name@,
    ensures
        n.channels@.len() == m.channels@.len(),
        forall|i: int|
            0 <= i < m.channels@.len() && (forall|k: int|
                0 <= k < profile.channels@.len() ==> #[trigger] profile.channels@[k].name@
                    != m.channels@[i].name@) ==> #[trigger] n.channels@[i] == m.channels@[i],
        forall|i: int, k: int|
            0 <= i < m.channels@.len() && 0 <= k < profile.channels@.len()
                && #[trigger] profile.channels@[k].name@ == #[trigger] m.channels@[i].name@ && (forall|
                k2: int,
            |
                k < k2 < profile.channels@.len() ==> #[trigger] profile.channels@[k2].name@
                    != m.channels@[i].name@) ==> {
                &&& n.channels@[i].name == m.channels@[i].name
                &&& n.channels@[i].stream_volume == profile.channels@[k].stream_volume
                &&& n.channels@[i].stream_muted == profile.channels@[k].stream_muted
                &&& n.channels@[i].monitor_volume == profile.channels@[k].monitor_volume
                &&& n.channels@[i].monitor_muted == profile.channels@[k].monitor_muted
            },
        n.mixer.stream_master_volume == profile.mixer.stream_master_volume,
        n.mixer.stream_master_muted == profile.mixer.stream_master_muted,
        n.mixer.monitor_master_volume == profile.mixer.monitor_master_volume,
        n.mixer.monitor_master_muted == profile.mixer.monitor_master_muted,
        profile.routes@.len() == 0 ==> n.routes@ == m.routes@,
        profile.routes@.len() > 0 ==> n.routes@ == profile.routes@,
        n.active_profile == name,
        n.monitor_output == m.monitor_output,
        n.active_apps == m.active_apps,
{
    lemma_profile_levels_land(m.channels@, profile.channels@);
}

/// One step of the daemon loop: updates the model for the input and
/// returns the actions to perform, in order.
pub fn daemon_step<L: Copy>(model: &mut DaemonModel<L>, input: DaemonInput<L>) -> (actions: Vec<
    DaemonAction<L>,
>)
    ensures
        stepped(*old(model), input, *final(model), actions@),
{
    let mut acts: Vec<DaemonAction<L>> = Vec::new();
    match input {
        DaemonInput::PipeWireConnected => {
            model.state = DaemonState::Reconciling;
        },
        DaemonInput::PipeWireDisconnected => {
            model.state = DaemonState::Error(String::from_str("PipeWire disconnected"));
        },
        DaemonInput::Wave3Detected { serial, headphones_linked } => {
            model.device_connected = true;
            model.device_serial = Some(serial.clone());
            model.state = DaemonState::Running;
            let ghost first = DaemonAction::<L>::EmitDeviceConnected { serial };
            acts.push(DaemonAction::EmitDeviceConnected { serial });
            if !headphones_linked {
                acts.push(DaemonAction::LinkMonitorToHeadphones);
                assert(acts@ =~= seq![first, DaemonAction::<L>::LinkMonitorToHeadphones]);
            } else {
                assert(acts@ =~= seq![first]);
            }
        },
        DaemonInput::Wave3Removed => {
            model.device_connected = false;
            model.device_serial = None;
            model.state = DaemonState::DeviceDisconnected;
            acts.push(DaemonAction::EmitDeviceDisconnected);
            assert(acts@ =~= seq![DaemonAction::<L>::EmitDeviceDisconnected]);
        },
        DaemonInput::ClientAppeared { id, name, binary_name, pid } => {
            let target = find_channel_for_app(name.as_str(), &binary_name, &model.routes);
            let is_persistent = any_rule_matches_app(&model.routes, name.as_str(), &binary_name);
            let app = ActiveApp {
                app_id: id,
                app_name: name.clone(),
                binary_name: copy_opt(&binary_name),
                pid,
                channel: target.clone(),
                is_persistent,
            };
            let ghost before = model.active_apps@;
            model.active_apps.push(app);
            assert(model.active_apps@.drop_last() =~= before);
            let ghost expected = seq![
                DaemonAction::<L>::RouteApp { app_id: id, channel: target },
                DaemonAction::<L>::EmitAppDiscovered {
                    app_id: id,
                    name,
                    binary: binary_name,
                    pid,
                    channel: target,
                },
            ];
            acts.push(DaemonAction::RouteApp { app_id: id, channel: target.clone() });
            acts.push(
                DaemonAction::EmitAppDiscovered {
                    app_id: id,
                    name,
                    binary: binary_name,
                    pid,
                    channel: target,
                },
            );
            assert(acts@ =~= expected);
        },
        DaemonInput::ClientDisappeared { id } => {
            remove_apps(&mut model.active_apps, id);
            acts.push(DaemonAction::EmitAppRemoved { app_id: id });
            assert(acts@ =~= seq![DaemonAction::<L>::EmitAppRemoved { app_id: id }]);
        },
        DaemonInput::Command(c) => {
            acts = apply_command(model, c);
        },
        DaemonInput::ProfileLoaded { name, profile } => {
            let ghost profile_channels = profile.channels@;
            apply_profile_channels(&mut model.channels, &profile.channels, &mut acts);
            assert(acts@ =~= profile_actions(old(model).channels@, profile_channels));
            let ProfileLevels { channels: _, routes, mixer } = profile;
            let mut current: Vec<RouteRule> = Vec::new();
            std::mem::swap(&mut model.routes, &mut current);
            model.routes = routes_after_profile_load(current, routes);
            model.mixer = mixer;
            model.active_profile = name;
            acts.push(
                DaemonAction::ApplyMasterVolume {
                    mix: MixType::Stream,
                    volume: mixer.stream_master_volume,
                },
            );
            acts.push(
                DaemonAction::ApplyMasterMute {
                    mix: MixType::Stream,
                    muted: mixer.stream_master_muted,
                },
            );
            acts.push(
                DaemonAction::ApplyMasterVolume {
                    mix: MixType::Monitor,
                    volume: mixer.monitor_master_volume,
                },
            );
            acts.push(
                DaemonAction::ApplyMasterMute {
                    mix: MixType::Monitor,
                    muted: mixer.monitor_master_muted,
                },
            );
            assert(acts@ =~= profile_actions(old(model).channels@, profile_channels) + master_actions(mixer));
        },
        DaemonInput::ClientsListed { app_pattern, channel, clients } => {
            acts = reroute_actions(&clients, &app_pattern, &channel);
        },
        DaemonInput::AppRerouted { app_id, channel } => {
            match app_position(&model.active_apps, app_id) {
                Some(i) => {
                    let ghost before = model.active_apps@;
                    let old_app = model.active_apps.remove(i);
                    let app = ActiveApp { channel, is_persistent: true, ..old_app };
                    model.active_apps.insert(i, app);
                    assert(model.active_apps@ =~= before.update(
                        i as int,
                        ActiveApp { channel, is_persistent: true, ..before[i as int] },
                    ));
                },
                None => {},
            }
        },
        DaemonInput::MonitorLinked { device_name } => {
            model.monitor_output = device_name;
        },
        DaemonInput::MonitorLinkFailed { device_name } => {
            let ghost expected = seq![DaemonAction::<L>::RelinkMonitor { device_name: model.monitor_output }];
            acts.push(DaemonAction::RelinkMonitor { device_name: model.monitor_output.clone() });
            assert(acts@ =~= expected);
        },
        DaemonInput::ShutdownSignal => {
            acts.push(DaemonAction::Stop);
            assert(acts@ =~= seq![DaemonAction::<L>::Stop]);
        },
    }
    acts
}

} // verus!

//! Deciding IPC requests: which reply a request gets and which state
//! change it asks the daemon loop to make.
//!
//! The decision is made on the names the daemon state holds (channels,
//! profiles, output devices). Levels (volumes, gains, effect parameter
//! values) are carried through unchanged as values of the type `L`;
//! the caller brings them into range before asking, and renders the
//! reply from the request, the decision and its own state.

use vstd::prelude::*;

use crate::chain::{same_chain, MicChain};
use crate::messages::{ErrorInfo, MixType};

verus! {

/// Methods that can be invoked via IPC.
#[derive(Debug)]
pub enum Method<L> {
    /// Get the current daemon state snapshot
    GetState,
    /// Get all channels
    GetChannels,
    /// Get a specific channel by name
    GetChannel { name: String },
    /// Get all active apps
    GetApps,
    /// Get all profiles
    GetProfiles,
    /// Get a specific profile by name
    GetProfile { name: String },
    /// Get device connection status
    GetDeviceStatus,
    /// Get diagnostic information
    GetDiagnostics,
    /// Set volume for a channel in a specific mix
    SetChannelVolume { channel: String, mix: MixType, volume: L },
    /// Set mute state for a channel in a specific mix
    SetChannelMute { channel: String, mix: MixType, muted: bool },
    /// Set master volume for a mix
    SetMasterVolume { mix: MixType, volume: L },
    /// Set master mute state for a mix
    SetMasterMute { mix: MixType, muted: bool },
    /// Route an app to a channel
    SetAppRoute { app_pattern: String, channel: String },
    /// Remove an app route
    RemoveAppRoute { app_pattern: String },
    /// Save current state as a profile
    SaveProfile { name: String },
    /// Load a saved profile
    LoadProfile { name: String },
    /// Delete a profile
    DeleteProfile { name: String },
    /// Set microphone gain
    SetMicGain { gain: L },
    /// Set microphone mute state
    SetMicMute { muted: bool },
    /// Set headphone (PCM playback) volume on the active device
    SetHeadphoneVolume { volume: L },
    /// Get the mic effect chain
    GetMicChain,
    /// Bypass or enable one effect of the mic chain
    SetEffectBypass { effect: String, bypassed: bool },
    /// Set one parameter of one effect of the mic chain
    SetEffectParam { effect: String, param: String, value: L },
    /// Load a built-in effect preset
    LoadEffectPreset { name: String },
    /// Reset the effect chain to defaults
    ResetEffectChain,
    /// Get available audio output devices
    GetOutputDevices,
    /// Set the monitor mix output device
    SetMonitorOutput { device_name: String },
    /// Subscribe to event types
    Subscribe { events: Vec<String> },
    /// Unsubscribe from event types
    Unsubscribe { events: Vec<String> },
    /// Request graceful shutdown
    Shutdown,
    /// Force reconciliation of `PipeWire` state
    Reconcile,
}

/// A state mutation that a request asks the daemon loop to perform.
#[derive(Debug)]
pub enum Command<L> {
    SetChannelVolume { channel: String, mix: MixType, volume: L },
    SetChannelMute { channel: String, mix: MixType, muted: bool },
    SetMasterVolume { mix: MixType, volume: L },
    SetMasterMute { mix: MixType, muted: bool },
    SetAppRoute { app_pattern: String, channel: String },
    RemoveAppRoute { app_pattern: String },
    SaveProfile { name: String },
    LoadProfile { name: String },
    DeleteProfile { name: String },
    SetMicGain { gain: L },
    SetMicMute { muted: bool },
    SetHeadphoneVolume { volume: L },
    SetEffectBypass { effect: String, bypassed: bool },
    SetEffectParam { effect: String, param: String, value: L },
    LoadEffectPreset { name: String },
    ResetEffectChain,
    SetMonitorOutput { device_name: String },
    Reconcile,
    Shutdown,
}

/// The successful reply to a request: which part of the state it
/// returns, or, for a request that asks for a change, the success reply
/// with the fields it echoes back.
#[derive(Debug)]
pub enum Reply<L> {
    State,
    Channels,
    /// The channel at this position of the state's channel list.
    Channel(usize),
    Apps,
    Profiles,
    /// The profile at this position of the state's profile list.
    Profile(usize),
    DeviceStatus,
    Diagnostics,
    /// A copy of the state's mic chain, `None` when it has none.
    MicChain(Option<MicChain>),
    OutputDevices,
    /// Success, echoing nothing.
    Done,
    /// Success, echoing the volume.
    DoneVolume(L),
    /// Success, echoing the mute state.
    DoneMuted(bool),
    /// Success, echoing the gain.
    DoneGain(L),
    /// Success, echoing the effect and its bypass flag.
    DoneEffectBypass { effect: String, bypassed: bool },
    /// Success, echoing the effect, the parameter and its value.
    DoneEffectParam { effect: String, param: String, value: L },
    /// Success, echoing the preset name.
    DonePreset { preset: String },
    /// Success, echoing the output device.
    DoneDevice { device: String },
}

/// The parts of the daemon state that requests are decided on: the
/// names that requests are checked against, and the mic chain.
pub struct StateNames {
    pub channels: Vec<String>,
    pub profiles: Vec<String>,
    pub output_devices: Vec<String>,
    pub mic_chain: Option<MicChain>,
}

/// Result of handling a request: the reply and the optional command.
#[derive(Debug)]
pub struct HandleResult<L> {
    pub response: Result<Reply<L>, ErrorInfo>,
    pub command: Option<Command<L>>,
}

/// Some name in the list is `name`.
pub open spec fn holds_name(names: Seq<String>, name: Seq<char>) -> bool {
    exists|i: int| 0 <= i < names.len() && #[trigger] names[i]@ == name
}

/// `i` is the first position of `name` in the list.
pub open spec fn first_named(names: Seq<String>, name: Seq<char>, i: int) -> bool {
    &&& 0 <= i < names.len()
    &&& names[i]@ == name
    &&& forall|j: int| 0 <= j < i ==> #[trigger] names[j]@ != name
}

/// The reply is `reply` and no command is asked for.
pub open spec fn replies<L>(r: HandleResult<L>, reply: Reply<L>) -> bool {
    r.response == Ok::<Reply<L>, ErrorInfo>(reply) && r.command is None
}

/// The request succeeds with `reply` and asks for `c`.
pub open spec fn commands<L>(r: HandleResult<L>, reply: Reply<L>, c: Command<L>) -> bool {
    r.response == Ok::<Reply<L>, ErrorInfo>(reply) && r.command == Some(c)
}

/// The reply is a copy of the state's mic chain, or of its absence.
pub open spec fn mic_chain_reply<L>(r: Result<Reply<L>, ErrorInfo>, chain: Option<MicChain>) -> bool {
    match chain {
        Some(c) => r matches Ok(Reply::MicChain(Some(copy))) && same_chain(copy, c),
        None => r matches Ok(Reply::MicChain(None)),
    }
}

/// The request fails with a 404 whose message is `what` then `name`,
/// and asks for nothing.
pub open spec fn not_found<L>(r: HandleResult<L>, what: Seq<char>, name: Seq<char>) -> bool {
    &&& r.response matches Err(e) && e.code == 404 && e.message@ == what + name
    &&& r.command is None
}

/// How a request is answered: reads reply with the part of the state
/// they name; requests that mention a channel, profile or output device
/// that the state does not hold fail with 404 and change nothing; every
/// other change request succeeds and is passed on as the command of the
/// same name and fields.
pub open spec fn handled<L>(m: Method<L>, s: StateNames, r: HandleResult<L>) -> bool {
    match m {
        Method::GetState => replies(r, Reply::State),
        Method::GetChannels => replies(r, Reply::Channels),
        Method::GetChannel { name } => if holds_name(s.channels@, name@) {
            r.command is None && (r.response matches Ok(Reply::Channel(i)) && first_named(
                s.channels@,
                name@,
                i as int,
            ))
        } else {
            not_found(r, "Channel not found: "@, name@)
        },
        Method::GetApps => replies(r, Reply::Apps),
        Method::GetProfiles => replies(r, Reply::Profiles),
        Method::GetProfile { name } => if holds_name(s.profiles@, name@) {
            r.command is None && (r.response matches Ok(Reply::Profile(i)) && first_named(
                s.profiles@,
                name@,
                i as int,
            ))
        } else {
            not_found(r, "Profile not found: "@, name@)
        },
        Method::GetDeviceStatus => replies(r, Reply::DeviceStatus),
        Method::GetDiagnostics => replies(r, Reply::Diagnostics),
        Method::SetChannelVolume { channel, mix, volume } => if holds_name(
            s.channels@,
            channel@,
        ) {
            commands(r, Reply::DoneVolume(volume), Command::SetChannelVolume { channel, mix, volume })
        } else {
            not_found(r, "Channel not found: "@, channel@)
        },
        Method::SetChannelMute { channel, mix, muted } => if holds_name(s.channels@, channel@) {
            commands(r, Reply::DoneMuted(muted), Command::SetChannelMute { channel, mix, muted })
        } else {
            not_found(r, "Channel not found: "@, channel@)
        },
        Method::SetMasterVolume { mix, volume } => commands(
            r,
            Reply::DoneVolume(volume),
            Command::SetMasterVolume { mix, volume },
        ),
        Method::SetMasterMute { mix, muted } => commands(r, Reply::DoneMuted(muted), Command::SetMasterMute { mix, muted }),
        Method::SetAppRoute { app_pattern, channel } => if holds_name(s.channels@, channel@) {
            commands(r, Reply::Done, Command::SetAppRoute { app_pattern, channel })
        } else {
            not_found(r, "Channel not found: "@, channel@)
        },
        Method::RemoveAppRoute { app_pattern } => commands(r, Reply::Done, Command::RemoveAppRoute { app_pattern }),
        Method::SaveProfile { name } => commands(r, Reply::Done, Command::SaveProfile { name }),
        Method::LoadProfile { name } => commands(r, Reply::Done, Command::LoadProfile { name }),
        Method::DeleteProfile { name } => commands(r, Reply::Done, Command::DeleteProfile { name }),
        Method::SetMicGain { gain } => commands(r, Reply::DoneGain(gain), Command::SetMicGain { gain }),
        Method::SetMicMute { muted } => commands(r, Reply::DoneMuted(muted), Command::SetMicMute { muted }),
        Method::SetHeadphoneVolume { volume } => commands(
            r,
            Reply::DoneVolume(volume),
            Command::SetHeadphoneVolume { volume },
        ),
        Method::GetMicChain => r.command is None && mic_chain_reply(r.response, s.mic_chain),
        Method::SetEffectBypass { effect, bypassed } => commands(
            r,
            Reply::DoneEffectBypass { effect, bypassed },
            Command::SetEffectBypass { effect, bypassed },
        ),
        Method::SetEffectParam { effect, param, value } => commands(
            r,
            Reply::DoneEffectParam { effect, param, value },
            Command::SetEffectParam { effect, param, value },
        ),
        Method::LoadEffectPreset { name } => commands(r, Reply::DonePreset { preset: name }, Command::LoadEffectPreset { name }),
        Method::ResetEffectChain => commands(r, Reply::Done, Command::ResetEffectChain),
        Method::GetOutputDevices => replies(r, Reply::OutputDevices),
        Method::SetMonitorOutput { device_name } => if holds_name(
            s.output_devices@,
            device_name@,
        ) {
            commands(r, Reply::DoneDevice { device: device_name }, Command::SetMonitorOutput { device_name })
        } else {
            not_found(r, "Output device not found: "@, device_name@)
        },
        Method::Subscribe { events } => replies(r, Reply::Done),
        Method::Unsubscribe { events } => replies(r, Reply::Done),
        Method::Shutdown => commands(r, Reply::Done, Command::Shutdown),
        Method::Reconcile => commands(r, Reply::Done, Command::Reconcile),
    }
}

/// The first position of `name` in the list.
fn position_of(names: &Vec<String>, name: &str) -> (r: Option<usize>)
    ensures
        match r {
            Some(i) => first_named(names@, name@, i as int),
            None => !holds_name(names@, name@),
        },
{
    let key = String::from_str(name);
    let mut i: usize = 0;
    while i < names.len()
        invariant
            i <= names.len(),
            key@ == name@,
            forall|j: int| 0 <= j < i ==> #[trigger] names@[j]@ != name@,
        decreases names.len() - i,
    {
        if names[i] == key {
            return Some(i);
        }
        i = i + 1;
    }
    None
}

/// Check if a channel exists in the state.
pub fn channel_exists(state: &StateNames, channel: &str) -> (r: bool)
    ensures
        r == holds_name(state.channels@, channel@),
{
    position_of(&state.channels, channel).is_some()
}

impl<L> HandleResult<L> {
    fn ok(reply: Reply<L>) -> (r: Self)
        ensures
            replies(r, reply),
    {
        HandleResult { response: Ok(reply), command: None }
    }

    fn ok_with_command(reply: Reply<L>, command: Command<L>) -> (r: Self)
        ensures
            commands(r, reply, command),
    {
        HandleResult { response: Ok(reply), command: Some(command) }
    }

    fn not_found(what: &str, name: &str) -> (r: Self)
        ensures
            not_found(r, what@, name@),
    {
        let message = String::from_str(what).concat(name);
        HandleResult { response: Err(ErrorInfo { code: 404, message }), command: None }
    }

    fn channel_not_found(channel: &str) -> (r: Self)
        ensures
            not_found(r, "Channel not found: "@, channel@),
    {
        Self::not_found("Channel not found: ", channel)
    }
}

/// Handle an IPC request: the reply, and the command it asks for.
pub fn handle_request<L: Copy>(method: &Method<L>, state: &StateNames) -> (r: HandleResult<L>)
    ensures
        handled(*method, *state, r),
{
    match method {
        Method::GetState => HandleResult::ok(Reply::State),
        Method::GetChannels => HandleResult::ok(Reply::Channels),
        Method::GetChannel { name } => match position_of(&state.channels, name.as_str()) {
            Some(i) => HandleResult::ok(Reply::Channel(i)),
            None => HandleResult::not_found("Channel not found: ", name.as_str()),
        },
        Method::GetApps => HandleResult::ok(Reply::Apps),
        Method::GetProfiles => HandleResult::ok(Reply::Profiles),
        Method::GetProfile { name } => match position_of(&state.profiles, name.as_str()) {
            Some(i) => HandleResult::ok(Reply::Profile(i)),
            None => HandleResult::not_found("Profile not found: ", name.as_str()),
        },
        Method::GetDeviceStatus => HandleResult::ok(Reply::DeviceStatus),
        Method::GetDiagnostics => HandleResult::ok(Reply::Diagnostics),
        Method::SetChannelVolume { channel, mix, volume } => {
            if !channel_exists(state, channel.as_str()) {
                return HandleResult::channel_not_found(channel.as_str());
            }
            HandleResult::ok_with_command(
                Reply::DoneVolume(*volume),
                Command::SetChannelVolume { channel: channel.clone(), mix: *mix, volume: *volume },
            )
        },
        Method::SetChannelMute { channel, mix, muted } => {
            if !channel_exists(state, channel.as_str()) {
                return HandleResult::channel_not_found(channel.as_str());
            }
            HandleResult::ok_with_command(
                Reply::DoneMuted(*muted),
                Command::SetChannelMute { channel: channel.clone(), mix: *mix, muted: *muted },
            )
        },
        Method::SetMasterVolume { mix, volume } => HandleResult::ok_with_command(
            Reply::DoneVolume(*volume),
            Command::SetMasterVolume { mix: *mix, volume: *volume },
        ),
        Method::SetMasterMute { mix, muted } => HandleResult::ok_with_command(
            Reply::DoneMuted(*muted),
            Command::SetMasterMute { mix: *mix, muted: *muted },
        ),
        Method::SetAppRoute { app_pattern, channel } => {
            if !channel_exists(state, channel.as_str()) {
                return HandleResult::channel_not_found(channel.as_str());
            }
            HandleResult::ok_with_command(
                Reply::Done,
                Command::SetAppRoute { app_pattern: app_pattern.clone(), channel: channel.clone() },
            )
        },
        Method::RemoveAppRoute { app_pattern } => HandleResult::ok_with_command(
            Reply::Done,
            Command::RemoveAppRoute { app_pattern: app_pattern.clone() },
        ),
        Method::SaveProfile { name } => HandleResult::ok_with_command(
            Reply::Done,
            Command::SaveProfile { name: name.clone() },
        ),
        Method::LoadProfile { name } => HandleResult::ok_with_command(
            Reply::Done,
            Command::LoadProfile { name: name.clone() },
        ),
        Method::DeleteProfile { name } => HandleResult::ok_with_command(
            Reply::Done,
            Command::DeleteProfile { name: name.clone() },
        ),
        Method::SetMicGain { gain } => HandleResult::ok_with_command(
            Reply::DoneGain(*gain),
            Command::SetMicGain { gain: *gain },
        ),
        Method::SetMicMute { muted } => HandleResult::ok_with_command(
            Reply::DoneMuted(*muted),
            Command::SetMicMute { muted: *muted },
        ),
        Method::SetHeadphoneVolume { volume } => HandleResult::ok_with_command(
            Reply::DoneVolume(*volume),
            Command::SetHeadphoneVolume { volume: *volume },
        ),
        Method::GetMicChain => {
            let chain = match &state.mic_chain {
                Some(c) => Some(c.snapshot()),
                None => None,
            };
            HandleResult::ok(Reply::MicChain(chain))
        },
        Method::SetEffectBypass { effect, bypassed } => HandleResult::ok_with_command(
            Reply::DoneEffectBypass { effect: effect.clone(), bypassed: *bypassed },
            Command::SetEffectBypass { effect: effect.clone(), bypassed: *bypassed },
        ),
        Method::SetEffectParam { effect, param, value } => HandleResult::ok_with_command(
            Reply::DoneEffectParam { effect: effect.clone(), param: param.clone(), value: *value },
            Command::SetEffectParam { effect: effect.clone(), param: param.clone(), value: *value },
        ),
        Method::LoadEffectPreset { name } => HandleResult::ok_with_command(
            Reply::DonePreset { preset: name.clone() },
            Command::LoadEffectPreset { name: name.clone() },
        ),
        Method::ResetEffectChain => HandleResult::ok_with_command(
            Reply::Done,
            Command::ResetEffectChain,
        ),
        Method::GetOutputDevices => HandleResult::ok(Reply::OutputDevices),
        Method::SetMonitorOutput { device_name } => {
            if position_of(&state.output_devices, device_name.as_str()).is_none() {
                return HandleResult::not_found("Output device not found: ", device_name.as_str());
            }
            HandleResult::ok_with_command(
                Reply::DoneDevice { device: device_name.clone() },
                Command::SetMonitorOutput { device_name: device_name.clone() },
            )
        },
        // Subscriptions are kept by the IPC server itself.
        Method::Subscribe { events } => HandleResult::ok(Reply::Done),
        Method::Unsubscribe { events } => HandleResult::ok(Reply::Done),
        Method::Shutdown => HandleResult::ok_with_command(Reply::Done, Command::Shutdown),
        Method::Reconcile => HandleResult::ok_with_command(Reply::Done, Command::Reconcile),
    }
}

/// A request that fails asks for no change.
pub proof fn lemma_failure_changes_nothing<L>(m: Method<L>, s: StateNames, r: HandleResult<L>)
    requires
        handled(m, s, r),
        r.response is Err,
    ensures
        r.command is None,
{
}

/// A request that only reads asks for no change and does not fail for
/// want of a name.
pub proof fn lemma_reads_change_nothing<L>(m: Method<L>, s: StateNames, r: HandleResult<L>)
    requires
        handled(m, s, r),
        m is GetState || m is GetChannels || m is GetApps || m is GetProfiles || m is GetDeviceStatus
            || m is GetDiagnostics || m is GetMicChain || m is GetOutputDevices,
    ensures
        r.command is None,
        r.response is Ok,
{
}

/// A change request that succeeds is passed on as the command of the
/// same name, carrying the request's own fields unchanged, and its reply
/// echoes the request's level or flag; requests that need no name
/// always succeed.
pub proof fn lemma_commands_carry_request_fields<L>(m: Method<L>, s: StateNames, r: HandleResult<L>)
    requires
        handled(m, s, r),
    ensures
        m matches Method::SetChannelVolume { channel, mix, volume } ==> (r.response is Ok ==> (
        r.command == Some::<Command<L>>(Command::SetChannelVolume { channel, mix, volume }) && r.response == Ok::<
            Reply<L>,
            ErrorInfo,
        >(Reply::DoneVolume(volume)))),
        m matches Method::SetChannelMute { channel, mix, muted } ==> (r.response is Ok ==> (
        r.command == Some::<Command<L>>(Command::SetChannelMute { channel, mix, muted }) && r.response == Ok::<
            Reply<L>,
            ErrorInfo,
        >(Reply::DoneMuted(muted)))),
        m matches Method::SetMasterVolume { mix, volume } ==> r.command == Some::<Command<L>>(Command::SetMasterVolume { mix, volume },
        ) && r.response == Ok::<Reply<L>, ErrorInfo>(Reply::DoneVolume(volume)),
        m matches Method::SetMasterMute { mix, muted } ==> r.command == Some::<Command<L>>(Command::SetMasterMute { mix, muted },
        ) && r.response == Ok::<Reply<L>, ErrorInfo>(Reply::DoneMuted(muted)),
        m matches Method::SetAppRoute { app_pattern, channel } ==> (r.response is Ok ==> r.command
            == Some::<Command<L>>(Command::SetAppRoute { app_pattern, channel })),
        m matches Method::RemoveAppRoute { app_pattern } ==> r.command == Some::<Command<L>>(Command::RemoveAppRoute { app_pattern },
        ) && r.response is Ok,
        m matches Method::SaveProfile { name } ==> r.command == Some::<Command<L>>(Command::SaveProfile { name })
            && r.response is Ok,
        m matches Method::LoadProfile { name } ==> r.command == Some::<Command<L>>(Command::LoadProfile { name })
            && r.response is Ok,
        m matches Method::DeleteProfile { name } ==> r.command == Some::<Command<L>>(Command::DeleteProfile { name },
        ) && r.response is Ok,
        m matches Method::SetMicGain { gain } ==> r.command == Some::<Command<L>>(Command::SetMicGain { gain })
            && r.response == Ok::<Reply<L>, ErrorInfo>(Reply::DoneGain(gain)),
        m matches Method::SetMicMute { muted } ==> r.command == Some::<Command<L>>(Command::SetMicMute { muted })
            && r.response == Ok::<Reply<L>, ErrorInfo>(Reply::DoneMuted(muted)),
        m matches Method::SetHeadphoneVolume { volume } ==> r.command == Some::<Command<L>>(Command::SetHeadphoneVolume { volume },
        ) && r.response == Ok::<Reply<L>, ErrorInfo>(Reply::DoneVolume(volume)),
        m matches Method::SetEffectBypass { effect, bypassed } ==> r.command == Some::<Command<L>>(Command::SetEffectBypass { effect, bypassed },
        ) && r.response == Ok::<Reply<L>, ErrorInfo>(Reply::DoneEffectBypass { effect, bypassed }),
        m matches Method::SetEffectParam { effect, param, value } ==> r.command == Some::<Command<L>>(Command::SetEffectParam { effect, param, value },
        ) && r.response == Ok::<Reply<L>, ErrorInfo>(
            Reply::DoneEffectParam { effect, param, value },
        ),
        m matches Method::LoadEffectPreset { name } ==> r.command == Some::<Command<L>>(Command::LoadEffectPreset { name },
        ) && r.response == Ok::<Reply<L>, ErrorInfo>(Reply::DonePreset { preset: name }),
        m matches Method::ResetEffectChain ==> r.command == Some::<Command<L>>(Command::ResetEffectChain)
            && r.response is Ok,
        m matches Method::SetMonitorOutput { device_name } ==> (r.response is Ok ==> r.command
            == Some::<Command<L>>(Command::SetMonitorOutput { device_name })),
        m matches Method::Shutdown ==> r.command == Some::<Command<L>>(Command::Shutdown) && r.response is Ok,
        m matches Method::Reconcile ==> r.command == Some::<Command<L>>(Command::Reconcile) && r.response is Ok,
{
}

/// A request naming a channel succeeds exactly when the state holds a
/// channel of that name; otherwise it fails with 404 and changes
/// nothing.
pub proof fn lemma_channel_requests_need_the_channel<L>(m: Method<L>, s: StateNames, r: HandleResult<L>)
    requires
        handled(m, s, r),
        m is SetChannelVolume || m is SetChannelMute || m is GetChannel || m is SetAppRoute,
    ensures
        ({
            let name = match m {
                Method::SetChannelVolume { channel, .. } => channel@,
                Method::SetChannelMute { channel, .. } => channel@,
                Method::GetChannel { name } => name@,
                Method::SetAppRoute { channel, .. } => channel@,
                _ => Seq::empty(),
            };
            &&& r.response is Ok <==> exists|i: int|
                0 <= i < s.channels@.len() && #[trigger] s.channels@[i]@ == name
            &&& r.response matches Err(e) ==> e.code == 404 && r.command is None
        }),
{
}

} // verus!

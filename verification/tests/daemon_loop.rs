use undertone::daemon_loop::{
    daemon_step, ActiveApp, AudioClient, ChannelLevels, DaemonAction, DaemonInput, DaemonModel,
    DaemonState, MixerLevels, ProfileLevels,
};
use undertone::messages::MixType;
use undertone::routing::{PatternType, RouteRule};
use undertone::server::Command;

fn channel(name: &str, v: f32) -> ChannelLevels<f32> {
    ChannelLevels {
        name: name.into(),
        stream_volume: v,
        stream_muted: false,
        monitor_volume: v,
        monitor_muted: false,
    }
}

fn mixer(v: f32) -> MixerLevels<f32> {
    MixerLevels {
        stream_master_volume: v,
        stream_master_muted: false,
        monitor_master_volume: v,
        monitor_master_muted: false,
    }
}

fn model() -> DaemonModel<f32> {
    DaemonModel::new(
        Some("W3".into()),
        vec![channel("system", 1.0), channel("voice", 1.0), channel("music", 1.0)],
        vec![
            RouteRule::new("discord".into(), PatternType::Prefix, "voice".into(), 100),
            RouteRule::new("spotify".into(), PatternType::Exact, "music".into(), 100),
            RouteRule::new("disc".into(), PatternType::Prefix, "system".into(), 10),
        ],
        mixer(1.0),
    )
}

fn cmd(c: Command<f32>) -> DaemonInput<f32> {
    DaemonInput::Command(c)
}

#[test]
fn start_up_model() {
    let m = model();
    assert!(matches!(m.state, DaemonState::Running));
    assert!(m.device_connected);
    assert_eq!(m.active_profile, "Default");
    assert_eq!(m.monitor_output, "wave3-sink");
    assert!(m.active_apps.is_empty());
}

#[test]
fn graph_events_move_the_run_state() {
    let mut m = model();
    assert!(daemon_step(&mut m, DaemonInput::PipeWireConnected).is_empty());
    assert!(matches!(m.state, DaemonState::Reconciling));
    daemon_step(&mut m, DaemonInput::PipeWireDisconnected);
    assert!(matches!(&m.state, DaemonState::Error(e) if e == "PipeWire disconnected"));
    let acts = daemon_step(&mut m, DaemonInput::Wave3Removed);
    assert!(matches!(m.state, DaemonState::DeviceDisconnected));
    assert!(!m.device_connected && m.device_serial.is_none());
    assert!(matches!(acts.as_slice(), [DaemonAction::EmitDeviceDisconnected]));
    let acts = daemon_step(
        &mut m,
        DaemonInput::Wave3Detected { serial: "W9".into(), headphones_linked: false },
    );
    assert!(matches!(m.state, DaemonState::Running));
    assert_eq!(m.device_serial.as_deref(), Some("W9"));
    assert!(matches!(
        acts.as_slice(),
        [DaemonAction::EmitDeviceConnected { serial }, DaemonAction::LinkMonitorToHeadphones]
            if serial == "W9"
    ));
    let acts = daemon_step(
        &mut m,
        DaemonInput::Wave3Detected { serial: "W9".into(), headphones_linked: true },
    );
    assert_eq!(acts.len(), 1);
}

#[test]
fn new_clients_follow_the_highest_priority_rule() {
    let mut m = model();
    let acts = daemon_step(
        &mut m,
        DaemonInput::ClientAppeared { id: 7, name: "discord".into(), binary_name: None, pid: Some(42) },
    );
    let app: &ActiveApp = m.active_apps.last().unwrap();
    assert_eq!(app.channel, "voice");
    assert!(app.is_persistent);
    assert!(matches!(
        acts.as_slice(),
        [DaemonAction::RouteApp { app_id: 7, channel }, DaemonAction::EmitAppDiscovered { app_id: 7, .. }]
            if channel == "voice"
    ));

    daemon_step(
        &mut m,
        DaemonInput::ClientAppeared {
            id: 8,
            name: "Music Player".into(),
            binary_name: Some("spotify".into()),
            pid: None,
        },
    );
    assert_eq!(m.active_apps[1].channel, "music");

    daemon_step(
        &mut m,
        DaemonInput::ClientAppeared { id: 9, name: "mpv".into(), binary_name: None, pid: None },
    );
    assert_eq!(m.active_apps[2].channel, "system");
    assert!(!m.active_apps[2].is_persistent);

    let acts = daemon_step(&mut m, DaemonInput::ClientDisappeared { id: 8 });
    assert_eq!(m.active_apps.len(), 2);
    assert!(m.active_apps.iter().all(|a| a.app_id != 8));
    assert!(matches!(acts.as_slice(), [DaemonAction::EmitAppRemoved { app_id: 8 }]));
}

#[test]
fn channel_and_master_levels_are_applied() {
    let mut m = model();
    let acts = daemon_step(
        &mut m,
        cmd(Command::SetChannelVolume { channel: "voice".into(), mix: MixType::Monitor, volume: 0.4 }),
    );
    assert_eq!(m.channels[1].monitor_volume, 0.4);
    assert_eq!(m.channels[1].stream_volume, 1.0);
    assert!(matches!(
        acts.as_slice(),
        [
            DaemonAction::ApplyChannelVolume { channel, mix: MixType::Monitor, .. },
            DaemonAction::EmitChannelVolumeChanged { .. }
        ] if channel == "voice"
    ));
    let acts = daemon_step(
        &mut m,
        cmd(Command::SetChannelMute { channel: "nope".into(), mix: MixType::Stream, muted: true }),
    );
    assert!(acts.is_empty());
    let acts = daemon_step(&mut m, cmd(Command::SetMasterMute { mix: MixType::Stream, muted: true }));
    assert!(m.mixer.stream_master_muted && !m.mixer.monitor_master_muted);
    assert!(matches!(acts.as_slice(), [DaemonAction::ApplyMasterMute { mix: MixType::Stream, muted: true }]));
    daemon_step(&mut m, cmd(Command::SetMasterVolume { mix: MixType::Monitor, volume: 0.3 }));
    assert_eq!(m.mixer.monitor_master_volume, 0.3);
}

#[test]
fn routing_an_app_saves_the_rule_and_reroutes_matching_clients() {
    let mut m = model();
    daemon_step(
        &mut m,
        DaemonInput::ClientAppeared { id: 5, name: "obs".into(), binary_name: None, pid: None },
    );
    let acts = daemon_step(
        &mut m,
        cmd(Command::SetAppRoute { app_pattern: "obs".into(), channel: "music".into() }),
    );
    let last = m.routes.last().unwrap();
    assert_eq!((last.pattern.as_str(), last.channel.as_str(), last.priority), ("obs", "music", 100));
    assert!(matches!(
        acts.as_slice(),
        [DaemonAction::SaveRoute(_), DaemonAction::ListAudioClients { .. }]
    ));
    let clients = vec![
        AudioClient { id: 5, name: "obs".into(), application_name: None, binary_name: None },
        AudioClient { id: 6, name: "x".into(), application_name: Some("y".into()), binary_name: None },
    ];
    let acts = daemon_step(
        &mut m,
        DaemonInput::ClientsListed { app_pattern: "obs".into(), channel: "music".into(), clients },
    );
    assert!(matches!(acts.as_slice(), [DaemonAction::RerouteApp { app_id: 5, channel }] if channel == "music"));
    daemon_step(&mut m, DaemonInput::AppRerouted { app_id: 5, channel: "music".into() });
    assert_eq!(m.active_apps[0].channel, "music");
    assert!(m.active_apps[0].is_persistent);

    let acts = daemon_step(&mut m, cmd(Command::RemoveAppRoute { app_pattern: "obs".into() }));
    assert!(m.routes.iter().all(|r| r.pattern != "obs"));
    assert!(matches!(acts.as_slice(), [DaemonAction::DeleteRoute { pattern }] if pattern == "obs"));
}

#[test]
fn saving_a_profile_captures_the_state() {
    let mut m = model();
    let acts = daemon_step(&mut m, cmd(Command::SaveProfile { name: "Default".into() }));
    match acts.as_slice() {
        [DaemonAction::SaveProfile { name, is_default, profile }] => {
            assert_eq!(name, "Default");
            assert!(*is_default);
            assert_eq!(profile.channels.len(), 3);
            assert_eq!(profile.routes.len(), 3);
        }
        other => panic!("unexpected {other:?}"),
    }
    let acts = daemon_step(&mut m, cmd(Command::SaveProfile { name: "Gaming".into() }));
    assert!(matches!(acts.as_slice(), [DaemonAction::SaveProfile { is_default: false, .. }]));
}

#[test]
fn loading_a_profile_applies_levels_routes_and_mixer() {
    let mut m = model();
    let acts = daemon_step(&mut m, cmd(Command::LoadProfile { name: "Gaming".into() }));
    assert!(matches!(acts.as_slice(), [DaemonAction::LoadProfile { name }] if name == "Gaming"));
    let profile = ProfileLevels {
        channels: vec![channel("music", 0.2), channel("unknown", 0.9)],
        routes: vec![],
        mixer: mixer(0.5),
    };
    let acts = daemon_step(&mut m, DaemonInput::ProfileLoaded { name: "Gaming".into(), profile });
    assert_eq!(m.channels[2].stream_volume, 0.2);
    assert_eq!(m.channels[0].stream_volume, 1.0);
    assert_eq!(m.routes.len(), 3, "a profile without routes keeps the current ones");
    assert_eq!(m.mixer.stream_master_volume, 0.5);
    assert_eq!(m.active_profile, "Gaming");
    // four node updates for the known channel, four for the mix nodes
    assert_eq!(acts.len(), 8);

    let profile = ProfileLevels {
        channels: vec![],
        routes: vec![RouteRule::new("x".into(), PatternType::Exact, "game".into(), 1)],
        mixer: mixer(1.0),
    };
    daemon_step(&mut m, DaemonInput::ProfileLoaded { name: "Other".into(), profile });
    assert_eq!(m.routes.len(), 1);
}

#[test]
fn monitor_output_switch_restores_on_failure() {
    let mut m = model();
    let acts = daemon_step(&mut m, cmd(Command::SetMonitorOutput { device_name: "hdmi".into() }));
    assert!(matches!(
        acts.as_slice(),
        [DaemonAction::UnlinkMonitor { device_name: a }, DaemonAction::LinkMonitor { device_name: b }]
            if a == "wave3-sink" && b == "hdmi"
    ));
    let acts = daemon_step(&mut m, DaemonInput::MonitorLinkFailed { device_name: "hdmi".into() });
    assert_eq!(m.monitor_output, "wave3-sink");
    assert!(matches!(acts.as_slice(), [DaemonAction::RelinkMonitor { device_name }] if device_name == "wave3-sink"));
    daemon_step(&mut m, DaemonInput::MonitorLinked { device_name: "hdmi".into() });
    assert_eq!(m.monitor_output, "hdmi");
}

#[test]
fn device_commands_reconcile_and_shutdown() {
    let mut m = model();
    let acts = daemon_step(&mut m, cmd(Command::SetMicGain { gain: 0.7 }));
    assert!(matches!(acts.as_slice(), [DaemonAction::SetMicGain { gain }] if *gain == 0.7));
    daemon_step(&mut m, DaemonInput::PipeWireConnected);
    assert!(daemon_step(&mut m, cmd(Command::Reconcile)).is_empty());
    assert!(matches!(m.state, DaemonState::Running));
    assert!(matches!(daemon_step(&mut m, cmd(Command::Shutdown)).as_slice(), [DaemonAction::Stop]));
    assert!(matches!(daemon_step(&mut m, DaemonInput::ShutdownSignal).as_slice(), [DaemonAction::Stop]));
}

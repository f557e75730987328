use undertone::chain::MicChain;
use undertone::messages::MixType;
use undertone::server::{channel_exists, handle_request, Command, Method, Reply, StateNames};

fn empty_state() -> StateNames {
    StateNames { channels: vec![], profiles: vec![], output_devices: vec![], mic_chain: None }
}

fn state_with_chain() -> StateNames {
    let mut s = empty_state();
    s.mic_chain = Some(MicChain::default().snapshot());
    s
}

fn state() -> StateNames {
    StateNames {
        channels: vec!["system".into(), "voice".into(), "music".into()],
        profiles: vec!["Default".into(), "Gaming".into()],
        output_devices: vec!["wave3-sink".into()],
        mic_chain: None,
    }
}

#[test]
fn get_mic_chain_returns_snapshot_field_verbatim() {
    let state = state_with_chain();
    let result = handle_request::<f32>(&Method::GetMicChain, &state);
    let value = result.response.expect("GetMicChain should not error");
    match value {
        Reply::MicChain(Some(chain)) => {
            // The reply carries the snapshot's four effects and its preset field.
            assert_eq!(chain.effects.len(), 4);
            let original = state.mic_chain.as_ref().unwrap();
            assert_eq!(chain.preset, original.preset);
            for (got, want) in chain.effects.iter().zip(original.effects.iter()) {
                assert_eq!(got.kind, want.kind);
                assert_eq!(got.bypassed, want.bypassed);
                assert_eq!(got.params, want.params);
            }
        }
        other => panic!("expected the mic chain, got {other:?}"),
    }
    assert!(result.command.is_none(), "GetMicChain is read-only");
}

#[test]
fn get_mic_chain_returns_null_when_chain_absent() {
    let result = handle_request::<f32>(&Method::GetMicChain, &empty_state());
    let value = result.response.expect("GetMicChain should not error");
    assert!(matches!(value, Reply::MicChain(None)), "expected null, got {value:?}");
}

#[test]
fn set_effect_bypass_emits_command_and_echoes_params() {
    let result = handle_request::<f32>(
        &Method::SetEffectBypass { effect: "compressor".into(), bypassed: true },
        &empty_state(),
    );
    let value = result.response.expect("ok");
    match value {
        Reply::DoneEffectBypass { effect, bypassed } => {
            assert_eq!(effect, "compressor");
            assert!(bypassed);
        }
        other => panic!("expected the echoed bypass, got {other:?}"),
    }
    match result.command {
        Some(Command::SetEffectBypass { effect, bypassed }) => {
            assert_eq!(effect, "compressor");
            assert!(bypassed);
        }
        other => panic!("expected SetEffectBypass command, got {other:?}"),
    }
}

#[test]
fn set_effect_param_emits_command_with_full_payload() {
    let result = handle_request(
        &Method::SetEffectParam { effect: "gate".into(), param: "th".into(), value: -32.5f32 },
        &empty_state(),
    );
    assert!(result.response.is_ok());
    match result.command {
        Some(Command::SetEffectParam { effect, param, value }) => {
            assert_eq!(effect, "gate");
            assert_eq!(param, "th");
            assert!((value - -32.5).abs() < 1e-6);
        }
        other => panic!("expected SetEffectParam command, got {other:?}"),
    }
}

#[test]
fn load_effect_preset_passes_name_through() {
    let result =
        handle_request::<f32>(&Method::LoadEffectPreset { name: "Streaming".into() }, &empty_state());
    let value = result.response.expect("ok");
    match value {
        Reply::DonePreset { preset } => assert_eq!(preset, "Streaming"),
        other => panic!("expected the echoed preset, got {other:?}"),
    }
    match result.command {
        Some(Command::LoadEffectPreset { name }) => assert_eq!(name, "Streaming"),
        other => panic!("expected LoadEffectPreset command, got {other:?}"),
    }
}

#[test]
fn reset_effect_chain_emits_unit_command() {
    let result = handle_request::<f32>(&Method::ResetEffectChain, &empty_state());
    assert!(result.response.is_ok());
    assert!(matches!(result.command, Some(Command::ResetEffectChain)));
}

#[test]
fn set_mic_mute_still_routes_to_set_mic_mute_command() {
    let result = handle_request::<f32>(&Method::SetMicMute { muted: true }, &empty_state());
    assert!(result.response.is_ok());
    assert!(matches!(result.command, Some(Command::SetMicMute { muted: true })));
}

#[test]
fn unknown_channel_is_a_404_without_command() {
    let result = handle_request(
        &Method::SetChannelVolume { channel: "nope".into(), mix: MixType::Stream, volume: 0.5f32 },
        &state(),
    );
    let err = result.response.unwrap_err();
    assert_eq!(err.code, 404);
    assert_eq!(err.message, "Channel not found: nope");
    assert!(result.command.is_none());
}

#[test]
fn known_channel_volume_becomes_command() {
    let result = handle_request(
        &Method::SetChannelVolume { channel: "music".into(), mix: MixType::Monitor, volume: 0.25f32 },
        &state(),
    );
    assert!(matches!(result.response.unwrap(), Reply::DoneVolume(v) if v == 0.25));
    match result.command {
        Some(Command::SetChannelVolume { channel, mix, volume }) => {
            assert_eq!(channel, "music");
            assert_eq!(mix, MixType::Monitor);
            assert_eq!(volume, 0.25);
        }
        other => panic!("unexpected {other:?}"),
    }
}

#[test]
fn lookups_find_position_or_fail() {
    let r = handle_request::<f32>(&Method::GetChannel { name: "voice".into() }, &state());
    assert!(matches!(r.response.unwrap(), Reply::Channel(1)));
    let r = handle_request::<f32>(&Method::GetProfile { name: "Gaming".into() }, &state());
    assert!(matches!(r.response.unwrap(), Reply::Profile(1)));
    let r = handle_request::<f32>(&Method::GetProfile { name: "x".into() }, &state());
    assert_eq!(r.response.unwrap_err().message, "Profile not found: x");
    let r = handle_request::<f32>(&Method::SetMonitorOutput { device_name: "hdmi".into() }, &state());
    let e = r.response.unwrap_err();
    assert_eq!((e.code, e.message.as_str()), (404, "Output device not found: hdmi"));
    let r = handle_request::<f32>(&Method::SetMonitorOutput { device_name: "wave3-sink".into() }, &state());
    assert!(matches!(r.command, Some(Command::SetMonitorOutput { .. })));
    let r = handle_request::<f32>(
        &Method::SetAppRoute { app_pattern: "spotify".into(), channel: "game".into() },
        &state(),
    );
    assert_eq!(r.response.unwrap_err().message, "Channel not found: game");
    assert!(channel_exists(&state(), "voice"));
    assert!(!channel_exists(&state(), "Voice"));
}

#[test]
fn subscriptions_and_reads_change_nothing() {
    let r = handle_request::<f32>(&Method::Subscribe { events: vec!["VolumeChanged".into()] }, &state());
    assert!(matches!(r.response.unwrap(), Reply::Done));
    assert!(r.command.is_none());
    let r = handle_request::<f32>(&Method::GetState, &state());
    assert!(matches!(r.response.unwrap(), Reply::State));
    assert!(r.command.is_none());
    let r = handle_request::<f32>(&Method::Shutdown, &state());
    assert!(matches!(r.command, Some(Command::Shutdown)));
}

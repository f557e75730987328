use undertone::alsa_fallback::{parse_playback_percent, AlsaMicControl};
use undertone::daemon::{default_node_from_pactl, mix_node_name, volume_filter_name};
use undertone::messages::MixType;
use undertone::routing::PatternType;

const SGET: &str = "Simple mixer control 'Mic',0
  Capabilities: cvolume cvolume-joined cswitch cswitch-joined
  Capture channels: Mono
  Limits: Capture 0 - 100
  Mono: Capture 73 [73%] [-9.00dB] [on]
";

#[test]
fn mic_volume_percent_is_read() {
    assert_eq!(AlsaMicControl::parse_volume_percent(SGET), Some(73));
    assert_eq!(AlsaMicControl::parse_volume_percent("Mono: [[50%]%]"), Some(50));
    assert_eq!(AlsaMicControl::parse_volume_percent("[%] [x%]"), None);
    assert_eq!(AlsaMicControl::parse_volume_percent(""), None);
}

#[test]
fn mic_volume_defaults_to_full() {
    assert_eq!(AlsaMicControl::mic_volume_percent("Mono: Capture 38 [50%] [0.00dB] [on]"), 50);
    assert_eq!(AlsaMicControl::mic_volume_percent("Mono: Capture [on]"), 100);
}

#[test]
fn playback_percent_is_read() {
    assert_eq!(parse_playback_percent("Front Left: Playback 40 [62%] [on]"), Some(62));
    assert_eq!(parse_playback_percent("[[50%]"), None);
    assert_eq!(parse_playback_percent("[%]"), None);
}

#[test]
fn capture_state_is_read() {
    assert_eq!(AlsaMicControl::parse_capture_muted(SGET), Some(false));
    assert_eq!(AlsaMicControl::parse_capture_muted("Mono: Capture [off]"), Some(true));
    assert_eq!(AlsaMicControl::parse_capture_muted("[on] [off]"), Some(true));
    assert_eq!(AlsaMicControl::parse_capture_muted("nothing"), None);
    assert_eq!(AlsaMicControl::capture_switch(true), "nocap");
    assert_eq!(AlsaMicControl::capture_switch(false), "cap");
}

#[test]
fn control_keeps_its_card() {
    let c = AlsaMicControl::new("hw:2".to_string());
    assert_eq!(c.card_name(), "hw:2");
}

#[test]
fn node_names() {
    assert_eq!(volume_filter_name("music", MixType::Stream), "ut-ch-music-stream-vol");
    assert_eq!(volume_filter_name("voice", MixType::Monitor), "ut-ch-voice-monitor-vol");
    assert_eq!(mix_node_name(MixType::Monitor), "ut-monitor-mix");
    assert_eq!(default_node_from_pactl("  alsa_output.usb\n").as_deref(), Some("alsa_output.usb"));
    assert_eq!(default_node_from_pactl(" \n"), None);
}

#[test]
fn pattern_types_round_trip() {
    for p in [PatternType::Exact, PatternType::Prefix, PatternType::Regex] {
        assert_eq!(PatternType::from_db_str(p.as_db_str()), p);
    }
    assert_eq!(PatternType::from_db_str("glob"), PatternType::Exact);
}

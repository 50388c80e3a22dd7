use oadiscord::channels::{voice_channel_guilds, GuildInfo};
use oadiscord::str_map::StrMap;
use oadiscord::voice_channel::{
    channel_title_enabled, join_voice_channel_title, InstanceSettings, LeaveVoiceChannelAction,
    SelectVoiceChannelAction, VoiceChannelInspectorRequest,
};

fn settings(pairs: &[(&str, &str)]) -> StrMap<String> {
    let mut m = StrMap::new();
    for (k, v) in pairs {
        m.insert(k.to_string(), v.to_string());
    }
    m
}

#[test]
fn channel_title_enabled_defaults_to_true() {
    assert!(channel_title_enabled(&StrMap::new()));
}

#[test]
fn channel_title_enabled_respects_false_string() {
    let mut settings = StrMap::new();
    settings.insert("show_channel_title".to_string(), "false".to_string());
    assert!(!channel_title_enabled(&settings));
}

#[test]
fn channel_title_enabled_ignores_case_and_spaces() {
    assert!(!channel_title_enabled(&settings(&[("show_channel_title", "  FaLsE ")])));
    assert!(channel_title_enabled(&settings(&[("show_channel_title", "true")])));
    assert!(channel_title_enabled(&settings(&[("show_channel_title", "no")])));
    assert!(channel_title_enabled(&settings(&[("show_channel_title", "falsey")])));
}

#[test]
fn join_title_uses_trimmed_channel_name() {
    assert_eq!(join_voice_channel_title(&settings(&[("channel_name", "  Standup ")])), "Standup");
    assert_eq!(join_voice_channel_title(&settings(&[])), "");
    assert_eq!(
        join_voice_channel_title(&settings(&[
            ("channel_name", "Standup"),
            ("show_channel_title", "false")
        ])),
        ""
    );
}

#[test]
fn select_key_up_needs_channel_id() {
    assert!(SelectVoiceChannelAction::key_up(&settings(&[])).is_none());
    assert!(SelectVoiceChannelAction::key_up(&settings(&[("channel_id", "   ")])).is_none());
    let sel = SelectVoiceChannelAction::key_up(&settings(&[("channel_id", " 123 ")])).unwrap();
    assert_eq!(sel.channel_id.as_deref(), Some("123"));
    assert!(sel.force);
}

#[test]
fn leave_key_up_selects_no_channel() {
    let sel = LeaveVoiceChannelAction::key_up();
    assert!(sel.channel_id.is_none());
    assert!(sel.force);
}

#[test]
fn channels_guild_trims() {
    assert_eq!(SelectVoiceChannelAction::channels_guild(None), None);
    assert_eq!(SelectVoiceChannelAction::channels_guild(Some("  ".to_string())), None);
    assert_eq!(
        SelectVoiceChannelAction::channels_guild(Some(" 9 ".to_string())),
        Some("9".to_string())
    );
}

#[test]
fn payload_settings_keep_given_fields() {
    let s = SelectVoiceChannelAction::settings_from_payload(
        Some("g".to_string()),
        None,
        Some("General".to_string()),
        Some(false),
    );
    assert_eq!(s.len(), 3);
    assert_eq!(s.get("guild_id").map(|v| v.as_str()), Some("g"));
    assert_eq!(s.get("channel_name").map(|v| v.as_str()), Some("General"));
    assert_eq!(s.get("show_channel_title").map(|v| v.as_str()), Some("false"));
    assert!(s.get("channel_id").is_none());
    let t = SelectVoiceChannelAction::settings_from_payload(None, None, None, Some(true));
    assert_eq!(t.get("show_channel_title").map(|v| v.as_str()), Some("true"));
}

#[test]
fn instance_settings_merge_over_remembered() {
    let mut registry = InstanceSettings::new();
    registry.remember("inst", &settings(&[("channel_id", "1"), ("channel_name", "A")]));
    let merged = registry.merge("inst", &settings(&[("channel_name", "B")]));
    assert_eq!(merged.get("channel_id").map(|v| v.as_str()), Some("1"));
    assert_eq!(merged.get("channel_name").map(|v| v.as_str()), Some("B"));
    let again = registry.merge("inst", &settings(&[]));
    assert_eq!(again.get("channel_name").map(|v| v.as_str()), Some("B"));
    registry.forget("inst");
    let fresh = registry.merge("inst", &settings(&[("guild_id", "g")]));
    assert_eq!(fresh.len(), 1);
}

#[test]
fn voice_channel_guilds_drop_default() {
    let guilds = vec![
        GuildInfo { guild_id: "DEFAULT".to_string(), name: "Discord Default Sounds".to_string(), icon_hash: None },
        GuildInfo { guild_id: "1".to_string(), name: "One".to_string(), icon_hash: None },
        GuildInfo { guild_id: "2".to_string(), name: "Two".to_string(), icon_hash: Some("h".to_string()) },
    ];
    let real = voice_channel_guilds(guilds);
    assert_eq!(real.len(), 2);
    assert_eq!(real[0].guild_id, "1");
    assert_eq!(real[1].guild_id, "2");
}

#[test]
fn voice_channel_inspector_requests() {
    assert!(matches!(
        SelectVoiceChannelAction::inspector_request(Some("get_guilds"), None),
        VoiceChannelInspectorRequest::Guilds
    ));
    match SelectVoiceChannelAction::inspector_request(Some("get_channels"), Some("  42 ".to_string())) {
        VoiceChannelInspectorRequest::Channels(g) => assert_eq!(g, "42"),
        _ => panic!("expected a channel listing"),
    }
    assert!(matches!(
        SelectVoiceChannelAction::inspector_request(Some("get_channels"), Some("   ".to_string())),
        VoiceChannelInspectorRequest::Ignored
    ));
    assert!(matches!(
        SelectVoiceChannelAction::inspector_request(Some("get_channels"), None),
        VoiceChannelInspectorRequest::Ignored
    ));
    assert!(matches!(
        SelectVoiceChannelAction::inspector_request(Some("save"), None),
        VoiceChannelInspectorRequest::Settings
    ));
}

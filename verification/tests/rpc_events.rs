use oadiscord::channels::{ChannelKind, ChannelRecord, GuildRecord};
use oadiscord::participants::{VoiceStateRecord, VoiceUser};
use oadiscord::soundboard::SoundboardSound;
use oadiscord::state::{toggle_state_index, PluginEffect, PluginState, RpcEvent, VoiceToggle};

fn voice(id: &str, name: &str) -> VoiceStateRecord {
    VoiceStateRecord {
        user: Some(VoiceUser { id: id.to_string(), username: name.to_string(), avatar: None }),
        nick: String::new(),
        volume: 100,
        mute: false,
        server_mute: false,
        self_mute: false,
        server_deaf: false,
        self_deaf: false,
        suppress: false,
    }
}

fn sound(id: &str, guild: &str) -> SoundboardSound {
    SoundboardSound { sound_id: id.to_string(), name: id.to_string(), emoji_name: None, guild_id: guild.to_string() }
}

fn channel(id: &str, states: Option<Vec<VoiceStateRecord>>) -> ChannelRecord {
    ChannelRecord {
        id: id.to_string(),
        kind: ChannelKind::GuildVoice,
        guild_id: Some("g".to_string()),
        name: Some(id.to_string()),
        voice_states: states,
    }
}

fn broadcast_names(e: &PluginEffect) -> Vec<String> {
    match e {
        PluginEffect::BroadcastVoiceParticipants(list) => list.iter().map(|p| p.name.clone()).collect(),
        _ => panic!("expected a participant broadcast"),
    }
}

#[test]
fn pending_soundboard_request_round_trip() {
    let mut s = PluginState::new();
    s.register_pending_soundboard_request("n1", "inst", "guild");
    let taken = s.unregister_pending_soundboard_request("n1").unwrap();
    assert_eq!(taken.instance_id, "inst");
    assert_eq!(taken.guild_id, "guild");
    assert!(s.unregister_pending_soundboard_request("n1").is_none());
}

#[test]
fn pending_voice_channel_request_round_trip() {
    let mut s = PluginState::new();
    s.register_pending_voice_channel_request("n1", "inst", "guild");
    s.register_pending_voice_channel_request("n2", "other", "g2");
    let taken = s.unregister_pending_voice_channel_request("n1").unwrap();
    assert_eq!(taken.instance_id, "inst");
    assert!(s.pending_voice_channel_requests.contains_key("n2"));
    s.clear_pending_voice_channel_requests();
    assert!(s.unregister_pending_voice_channel_request("n2").is_none());
}

#[test]
fn subscription_sync_is_idempotent() {
    let mut s = PluginState::new();
    let first = s.sync_voice_channel_subscriptions(Some("  chan ".to_string()));
    assert_eq!(first.len(), 2);
    assert!(matches!(&first[1], PluginEffect::Subscribe(c) if c == "chan"));
    assert_eq!(s.current_subscribed_voice_channel().as_deref(), Some("chan"));
    let second = s.sync_voice_channel_subscriptions(Some("chan".to_string()));
    assert!(second.is_empty());
    let third = s.sync_voice_channel_subscriptions(Some("other".to_string()));
    assert_eq!(third.len(), 3);
    assert!(matches!(&third[1], PluginEffect::Unsubscribe(c) if c == "chan"));
    assert!(matches!(&third[2], PluginEffect::Subscribe(c) if c == "other"));
    let leave = s.sync_voice_channel_subscriptions(Some("   ".to_string()));
    assert_eq!(leave.len(), 2);
    assert!(s.current_subscribed_voice_channel().is_none());
}

#[test]
fn voice_state_events_update_participants() {
    let mut s = PluginState::new();
    let e = s.handle_rpc_event(RpcEvent::VoiceStateCreate(voice("2", "bob")));
    assert_eq!(broadcast_names(&e[0]), vec!["bob"]);
    let e = s.handle_rpc_event(RpcEvent::VoiceStateUpdate(voice("1", "Alice")));
    assert_eq!(broadcast_names(&e[0]), vec!["Alice", "bob"]);
    let e = s.handle_rpc_event(RpcEvent::VoiceStateDelete(voice("2", "bob")));
    assert_eq!(broadcast_names(&e[0]), vec!["Alice"]);
    assert!(s.current_voice_participant("2").is_none());
    let mut nobody = voice("3", "x");
    nobody.user = None;
    assert!(s.handle_rpc_event(RpcEvent::VoiceStateCreate(nobody)).is_empty());
}

#[test]
fn voice_settings_set_toggles() {
    let mut s = PluginState::new();
    let e = s.handle_rpc_event(RpcEvent::VoiceSettingsUpdate { mute: Some(false), deaf: Some(true) });
    assert!(matches!(e[0], PluginEffect::SetToggleState(VoiceToggle::Mute, true)));
    assert!(matches!(e[1], PluginEffect::SetToggleState(VoiceToggle::Deafen, true)));
    let e = s.handle_rpc_event(RpcEvent::GetVoiceSettings { mute: None, deaf: None });
    assert!(matches!(e[0], PluginEffect::SetToggleState(VoiceToggle::Mute, false)));
    assert!(matches!(e[1], PluginEffect::SetToggleState(VoiceToggle::Deafen, false)));
}

#[test]
fn channel_select_follows_and_asks_snapshot() {
    let mut s = PluginState::new();
    let e = s.handle_rpc_event(RpcEvent::VoiceChannelSelect { channel_id: Some("c1".to_string()), guild_id: None });
    assert_eq!(e.len(), 3);
    assert!(matches!(e[2], PluginEffect::RequestSelectedVoiceChannel));
    let e = s.handle_rpc_event(RpcEvent::VoiceChannelSelect { channel_id: None, guild_id: None });
    assert_eq!(e.len(), 2);
    assert!(matches!(&e[1], PluginEffect::Unsubscribe(c) if c == "c1"));
}

#[test]
fn selected_channel_snapshot_replaces_participants() {
    let mut s = PluginState::new();
    s.handle_rpc_event(RpcEvent::VoiceStateCreate(voice("9", "stale")));
    let e = s.handle_rpc_event(RpcEvent::GetSelectedVoiceChannel(Some(channel("c1", Some(vec![voice("1", "b"), voice("2", "a")])))));
    assert_eq!(e.len(), 3);
    assert!(broadcast_names(&e[0]).is_empty());
    assert_eq!(broadcast_names(&e[2]), vec!["a", "b"]);
    assert!(s.current_voice_participant("9").is_none());
    let e = s.handle_rpc_event(RpcEvent::GetSelectedVoiceChannel(Some(channel("c2", None))));
    assert!(matches!(e.last().unwrap(), PluginEffect::RequestChannelDetails(c) if c == "c2"));
}

#[test]
fn channel_details_only_for_followed_channel() {
    let mut s = PluginState::new();
    s.sync_voice_channel_subscriptions(Some("c1".to_string()));
    assert!(s.handle_rpc_event(RpcEvent::GetChannel(channel("c2", Some(vec![voice("1", "a")])))).is_empty());
    assert!(s.current_voice_participant("1").is_none());
    let e = s.handle_rpc_event(RpcEvent::GetChannel(channel("c1", Some(vec![voice("1", "a")]))));
    assert_eq!(broadcast_names(&e[0]), vec!["a"]);
}

#[test]
fn guilds_answer_fills_guild_list() {
    let mut s = PluginState::new();
    s.guild_request_error = Some("old".to_string());
    s.handle_rpc_event(RpcEvent::GetGuilds(vec![
        GuildRecord { id: "2".to_string(), name: "b".to_string(), icon_url: None },
        GuildRecord { id: "1".to_string(), name: "A".to_string(), icon_url: None },
    ]));
    let ids: Vec<&str> = s.available_soundboard_guilds.iter().map(|g| g.guild_id.as_str()).collect();
    assert_eq!(ids, vec!["DEFAULT", "1", "2"]);
    assert!(s.guild_request_error.is_none());
}

#[test]
fn sounds_answer_goes_to_asking_instance() {
    let mut s = PluginState::new();
    s.register_pending_soundboard_request("n", "inst", "7");
    s.soundboard_request_error = Some("old".to_string());
    let e = s.handle_rpc_event(RpcEvent::GetSoundboardSounds {
        nonce: Some("n".to_string()),
        sounds: vec![sound("a", "7"), sound("b", "0"), sound("c", "7")],
    });
    assert_eq!(e.len(), 1);
    match &e[0] {
        PluginEffect::SendSoundsToInstance { instance_id, guild_id, sounds } => {
            assert_eq!(instance_id, "inst");
            assert_eq!(guild_id, "7");
            let ids: Vec<&str> = sounds.iter().map(|s| s.sound_id.as_str()).collect();
            assert_eq!(ids, vec!["a", "c"]);
        }
        _ => panic!("expected sounds for the instance"),
    }
    assert_eq!(s.soundboard_sounds.get("7").unwrap().len(), 2);
    assert!(s.soundboard_request_error.is_none());
    assert!(s.unregister_pending_soundboard_request("n").is_none());
    let e = s.handle_rpc_event(RpcEvent::GetSoundboardSounds { nonce: Some("unknown".to_string()), sounds: vec![sound("d", "0")] });
    assert!(e.is_empty());
    assert_eq!(s.soundboard_sounds.get("DEFAULT").unwrap().len(), 1);
}

#[test]
fn pushed_sounds_cached_by_first_guild() {
    let mut s = PluginState::new();
    let e = s.handle_rpc_event(RpcEvent::SoundboardSounds(vec![sound("a", "0"), sound("b", "5")]));
    assert!(e.is_empty());
    let cached = s.soundboard_sounds.get("DEFAULT").unwrap();
    assert_eq!(cached.len(), 1);
    assert_eq!(cached[0].sound_id, "a");
    let e = s.handle_rpc_event(RpcEvent::SoundboardSounds(vec![sound("c", "5"), sound("d", "0")]));
    assert!(e.is_empty());
    assert_eq!(s.soundboard_sounds.get("5").unwrap().len(), 1);
}

#[test]
fn channels_answer_goes_to_asking_instance() {
    let mut s = PluginState::new();
    s.register_pending_voice_channel_request("n", "inst", "g1");
    let mut text = channel("t", None);
    text.kind = ChannelKind::GuildText;
    let e = s.handle_rpc_event(RpcEvent::GetChannels { nonce: Some("n".to_string()), channels: vec![text, channel("v", None)] });
    match &e[0] {
        PluginEffect::SendChannelsToInstance { instance_id, guild_id, channels } => {
            assert_eq!(instance_id, "inst");
            assert_eq!(guild_id, "g1");
            assert_eq!(channels.len(), 1);
            assert_eq!(channels[0].channel_id, "v");
        }
        _ => panic!("expected channels for the instance"),
    }
    assert_eq!(s.voice_channels.get("g1").unwrap().len(), 1);
}

#[test]
fn soundboard_unsupported_error_sets_message() {
    let mut s = PluginState::new();
    s.register_pending_soundboard_request("n", "i", "g");
    let e = s.handle_rpc_event(RpcEvent::Error { code: 4002, message: "Unknown command GET_SOUNDBOARD_SOUNDS".to_string() });
    assert!(e.is_empty());
    assert_eq!(
        s.soundboard_request_error.as_deref(),
        Some("Quick Select is not supported by this Discord RPC client. Use Manual Entry below.")
    );
    assert!(s.unregister_pending_soundboard_request("n").is_none());
    let mut t = PluginState::new();
    t.handle_rpc_event(RpcEvent::Error { code: 4002, message: "something else".to_string() });
    assert!(t.soundboard_request_error.is_none());
}

#[test]
fn invalid_token_error_reconnects() {
    let mut s = PluginState::new();
    s.register_pending_soundboard_request("n", "i", "g");
    s.register_pending_voice_channel_request("m", "i", "g");
    let e = s.handle_rpc_event(RpcEvent::Error { code: 4006, message: String::new() });
    assert_eq!(e.len(), 2);
    assert!(matches!(e[0], PluginEffect::ClearAccessToken));
    assert!(matches!(e[1], PluginEffect::ScheduleReconnect));
    assert!(s.unregister_pending_soundboard_request("n").is_none());
    assert!(s.unregister_pending_voice_channel_request("m").is_none());
}

#[test]
fn socket_closed_forgets_everything_waiting() {
    let mut s = PluginState::new();
    s.handle_rpc_event(RpcEvent::VoiceStateCreate(voice("1", "a")));
    s.register_pending_soundboard_request("n", "i", "g");
    let e = s.handle_rpc_event(RpcEvent::SocketClosed);
    assert_eq!(e.len(), 3);
    assert!(broadcast_names(&e[0]).is_empty());
    assert!(matches!(e[1], PluginEffect::ClearAuthenticatedUser));
    assert!(matches!(e[2], PluginEffect::ScheduleReconnect));
    assert!(s.current_voice_participants().is_empty());
    assert!(s.unregister_pending_soundboard_request("n").is_none());
}

#[test]
fn local_voice_update_broadcasts_only_known_users() {
    let mut s = PluginState::new();
    s.handle_rpc_event(RpcEvent::VoiceStateCreate(voice("1", "a")));
    let e = s.apply_local_user_voice_update("1", Some(300), Some(true));
    assert_eq!(e.len(), 1);
    let p = s.current_voice_participant("1").unwrap();
    assert_eq!(p.volume, 200);
    assert!(p.mute);
    assert!(s.apply_local_user_voice_update("2", Some(1), None).is_empty());
}

#[test]
fn cache_responses_store_errors() {
    let mut s = PluginState::new();
    let kept = s.cache_voice_channels_response(None, vec![], Some("boom".to_string()));
    assert!(kept.is_empty());
    assert_eq!(s.voice_channel_request_error.as_deref(), Some("boom"));
    let kept = s.cache_soundboard_response(Some("g".to_string()), vec![sound("a", "g")], Some("bad".to_string()));
    assert_eq!(kept.len(), 1);
    assert_eq!(s.soundboard_request_error.as_deref(), Some("bad"));
    s.clear_soundboard_sounds_for_guild("g");
    assert!(s.soundboard_sounds.get("g").is_none());
}

#[test]
fn toggle_state_indices() {
    assert_eq!(toggle_state_index(true), 1);
    assert_eq!(toggle_state_index(false), 0);
}

#[test]
fn other_items_change_nothing() {
    let mut s = PluginState::new();
    s.register_pending_soundboard_request("n", "inst", "7");
    assert!(s.handle_rpc_event(RpcEvent::OtherEvent).is_empty());
    assert!(s.handle_rpc_event(RpcEvent::OtherCommand).is_empty());
    assert!(s.unregister_pending_soundboard_request("n").is_some());
}

#[test]
fn clearing_one_table_keeps_the_others() {
    let mut s = PluginState::new();
    s.register_pending_soundboard_request("a", "inst", "7");
    s.register_pending_voice_channel_request("b", "inst", "g");
    s.voice_channel_request_error = Some("old".to_string());
    s.clear_voice_channel_request_error();
    assert!(s.voice_channel_request_error.is_none());
    s.clear_pending_soundboard_requests();
    assert!(s.unregister_pending_voice_channel_request("b").is_some());
    assert!(s.unregister_pending_soundboard_request("a").is_none());
}

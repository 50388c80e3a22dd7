use oadiscord::channels::{GuildInfo, VoiceChannelInfo};
use oadiscord::soundboard::SoundboardSound;
use oadiscord::state::PluginState;
use oadiscord::waiting::{
    channels_timeout, guilds_timeout, sounds_timeout, wait_step, CacheAnswer, WaitStep,
    WAIT_ATTEMPTS, WAIT_INTERVAL_MS,
};

fn guild(id: &str) -> GuildInfo {
    GuildInfo { guild_id: id.to_string(), name: format!("guild {}", id), icon_hash: None }
}

fn reply<T>(step: WaitStep<T>) -> (Vec<T>, Option<String>) {
    match step {
        WaitStep::Reply { items, error } => (items, error),
        WaitStep::Sleep => panic!("expected a reply"),
    }
}

#[test]
fn wait_replies_with_ready_items() {
    let (items, error) = reply(wait_step(0, CacheAnswer::Ready(vec![1u8, 2]), "late"));
    assert_eq!(items, vec![1, 2]);
    assert!(error.is_none());
}

#[test]
fn wait_replies_with_failure() {
    let (items, error) = reply(wait_step::<u8>(5, CacheAnswer::Failed("boom".to_string()), "late"));
    assert!(items.is_empty());
    assert_eq!(error.as_deref(), Some("boom"));
}

#[test]
fn wait_sleeps_while_pending_then_times_out() {
    assert_eq!(WAIT_ATTEMPTS, 60);
    assert_eq!(WAIT_INTERVAL_MS, 250);
    assert!(matches!(wait_step::<u8>(0, CacheAnswer::Pending, "late"), WaitStep::Sleep));
    assert!(matches!(wait_step::<u8>(59, CacheAnswer::Pending, "late"), WaitStep::Sleep));
    let (items, error) = reply(wait_step::<u8>(60, CacheAnswer::Pending, "late"));
    assert!(items.is_empty());
    assert_eq!(error.as_deref(), Some("late"));
    let (items, error) = reply(wait_step(60, CacheAnswer::Ready(vec![7u8]), "late"));
    assert!(items.is_empty());
    assert_eq!(error.as_deref(), Some("late"));
}

#[test]
fn timeout_messages() {
    assert_eq!(guilds_timeout(), "Timed out waiting for guild list from Discord RPC.");
    assert_eq!(sounds_timeout(), "Timed out waiting for soundboard sounds from Discord RPC.");
    assert_eq!(channels_timeout(), "Timed out waiting for guild channels from Discord RPC.");
}

#[test]
fn guild_answers_follow_the_cache() {
    let mut s = PluginState::new();
    assert!(matches!(s.soundboard_guilds_answer(), CacheAnswer::Pending));
    s.guild_request_error = Some("no".to_string());
    match s.soundboard_guilds_answer() {
        CacheAnswer::Failed(m) => assert_eq!(m, "no"),
        _ => panic!("expected the guild error"),
    }
    s.broadcast_soundboard_guilds(vec![guild("DEFAULT"), guild("1")], None);
    match s.soundboard_guilds_answer() {
        CacheAnswer::Ready(v) => assert_eq!(v.len(), 2),
        _ => panic!("expected the guilds"),
    }
    match s.voice_channel_guilds_answer() {
        CacheAnswer::Ready(v) => {
            assert_eq!(v.len(), 1);
            assert_eq!(v[0].guild_id, "1");
        }
        _ => panic!("expected the voice guilds"),
    }
}

#[test]
fn sound_and_channel_answers_follow_the_cache() {
    let mut s = PluginState::new();
    assert!(matches!(s.sounds_answer("7"), CacheAnswer::Pending));
    s.soundboard_request_error = Some("sounds failed".to_string());
    assert!(matches!(s.sounds_answer("7"), CacheAnswer::Failed(_)));
    s.cache_soundboard_response(
        Some("7".to_string()),
        vec![SoundboardSound {
            sound_id: "a".to_string(),
            name: "horn".to_string(),
            emoji_name: Some("x".to_string()),
            guild_id: "7".to_string(),
        }],
        None,
    );
    match s.sounds_answer("7") {
        CacheAnswer::Ready(v) => {
            assert_eq!(v.len(), 1);
            assert_eq!(v[0].name, "horn");
            assert_eq!(v[0].emoji_name.as_deref(), Some("x"));
        }
        _ => panic!("expected the sounds"),
    }
    assert!(matches!(s.channels_answer("g"), CacheAnswer::Pending));
    s.voice_channel_request_error = Some("channels failed".to_string());
    assert!(matches!(s.channels_answer("g"), CacheAnswer::Failed(_)));
    s.voice_channels.insert(
        "g".to_string(),
        vec![VoiceChannelInfo { channel_id: "c".to_string(), name: "General".to_string() }],
    );
    match s.channels_answer("g") {
        CacheAnswer::Ready(v) => assert_eq!(v[0].name, "General"),
        _ => panic!("expected the channels"),
    }
}

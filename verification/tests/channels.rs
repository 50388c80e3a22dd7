use oadiscord::channels::{
    build_guild_list, filter_voice_channels, guild_icon_hash_from_url, ChannelKind, ChannelRecord,
    GuildRecord,
};

fn channel(id: &str, kind: ChannelKind, guild: Option<&str>, name: Option<&str>) -> ChannelRecord {
    ChannelRecord {
        id: id.to_string(),
        kind,
        guild_id: guild.map(|g| g.to_string()),
        name: name.map(|n| n.to_string()),
        voice_states: None,
    }
}

#[test]
fn filter_voice_channels_keeps_only_voice_and_stage() {
    let channels = vec![
        channel("text", ChannelKind::GuildText, Some("guild"), Some("general")),
        channel("voice", ChannelKind::GuildVoice, Some("guild"), Some("Standup")),
        channel("stage", ChannelKind::GuildStageVoice, Some("guild"), Some("Town Hall")),
    ];

    let (guild_id, filtered) = filter_voice_channels(Some("guild"), channels);
    assert_eq!(guild_id.as_deref(), Some("guild"));
    assert_eq!(filtered.len(), 2);
    assert_eq!(filtered[0].channel_id, "voice");
    assert_eq!(filtered[1].channel_id, "stage");
}

#[test]
fn filter_voice_channels_names_and_guild_fallback() {
    let channels = vec![
        channel("v1", ChannelKind::GuildVoice, Some("first"), Some("  Lobby  ")),
        channel("v2", ChannelKind::GuildVoice, Some("second"), Some("   ")),
        channel("v3", ChannelKind::GuildStageVoice, None, None),
        channel("o", ChannelKind::Other, None, Some("x")),
    ];
    let (guild_id, filtered) = filter_voice_channels(None, channels);
    assert_eq!(guild_id.as_deref(), Some("first"));
    let names: Vec<&str> = filtered.iter().map(|c| c.name.as_str()).collect();
    assert_eq!(names, vec!["Lobby", "v2", "v3"]);
    let (none, empty) = filter_voice_channels(None, vec![]);
    assert!(none.is_none());
    assert!(empty.is_empty());
}

#[test]
fn guild_icon_hash_from_urls() {
    assert_eq!(
        guild_icon_hash_from_url(Some("https://cdn.discordapp.com/icons/1/abc123.png?size=64")),
        Some("abc123".to_string())
    );
    assert_eq!(guild_icon_hash_from_url(Some("  a_hash.webp  ")), Some("a_hash".to_string()));
    assert_eq!(guild_icon_hash_from_url(Some("https://x/icons/1/")), None);
    assert_eq!(guild_icon_hash_from_url(Some("   ")), None);
    assert_eq!(guild_icon_hash_from_url(None), None);
    assert_eq!(guild_icon_hash_from_url(Some("https://x/y/.png")), None);
    assert_eq!(guild_icon_hash_from_url(Some("plain")), Some("plain".to_string()));
}

#[test]
fn guild_list_starts_with_default_and_sorts_by_name() {
    let guilds = vec![
        GuildRecord { id: "3".to_string(), name: "zeta".to_string(), icon_url: None },
        GuildRecord { id: "1".to_string(), name: "Alpha".to_string(), icon_url: Some("https://c/i/1/h1.png".to_string()) },
        GuildRecord { id: "2".to_string(), name: "beta".to_string(), icon_url: None },
        GuildRecord { id: "4".to_string(), name: "ALPHA".to_string(), icon_url: None },
    ];
    let list = build_guild_list(guilds);
    let ids: Vec<&str> = list.iter().map(|g| g.guild_id.as_str()).collect();
    assert_eq!(ids, vec!["DEFAULT", "1", "4", "2", "3"]);
    assert_eq!(list[0].name, "Discord Default Sounds");
    assert!(list[0].icon_hash.is_none());
    assert_eq!(list[1].icon_hash.as_deref(), Some("h1"));
}

use oadiscord::soundboard::{
    filter_soundboard_sounds, play_sound_message, sound_guild_key_of, sound_infos, PlaySoundCommand,
    PlaySoundError, PlaySoundboardSoundAction, SoundboardInspectorRequest, SoundboardSound,
};
use oadiscord::str_map::StrMap;

fn sound(id: &str, guild: &str) -> SoundboardSound {
    SoundboardSound {
        sound_id: id.to_string(),
        name: format!("sound {}", id),
        emoji_name: None,
        guild_id: guild.to_string(),
    }
}

fn ids(v: &[SoundboardSound]) -> Vec<&str> {
    v.iter().map(|s| s.sound_id.as_str()).collect()
}

#[test]
fn default_sounds_filed_under_default() {
    let (guild, kept) = filter_soundboard_sounds(None, vec![sound("a", "0"), sound("b", "7")]);
    assert_eq!(guild.as_deref(), Some("DEFAULT"));
    assert_eq!(ids(&kept), vec!["a", "b"]);
    let (guild, _) = filter_soundboard_sounds(None, vec![sound("b", "7")]);
    assert_eq!(guild.as_deref(), Some("7"));
    let (guild, kept) = filter_soundboard_sounds(None, vec![]);
    assert!(guild.is_none());
    assert!(kept.is_empty());
}

#[test]
fn requested_guild_filters_sounds() {
    let all = vec![sound("a", "0"), sound("b", "7"), sound("c", "7"), sound("d", "8")];
    let (guild, kept) = filter_soundboard_sounds(Some("DEFAULT"), all.clone());
    assert_eq!(guild.as_deref(), Some("DEFAULT"));
    assert_eq!(ids(&kept), vec!["a"]);
    let (guild, kept) = filter_soundboard_sounds(Some("7"), all.clone());
    assert_eq!(guild.as_deref(), Some("7"));
    assert_eq!(ids(&kept), vec!["b", "c"]);
    let (_, kept) = filter_soundboard_sounds(Some("9"), all);
    assert!(kept.is_empty());
}

#[test]
fn guild_key_maps_zero() {
    assert_eq!(sound_guild_key_of("0"), "DEFAULT");
    assert_eq!(sound_guild_key_of("00"), "00");
}

#[test]
fn sound_infos_copy_fields() {
    let mut s = sound("a", "1");
    s.emoji_name = Some("🔥".to_string());
    let infos = sound_infos(&vec![s]);
    assert_eq!(infos.len(), 1);
    assert_eq!(infos[0].sound_id, "a");
    assert_eq!(infos[0].name, "sound a");
    assert_eq!(infos[0].emoji_name.as_deref(), Some("🔥"));
}

#[test]
fn play_sound_needs_sound_and_guild() {
    let mut settings = StrMap::new();
    assert_eq!(PlaySoundboardSoundAction::key_up(&settings).err(), Some(PlaySoundError::MissingSoundId));
    settings.insert("sound_id".to_string(), "s1".to_string());
    assert_eq!(PlaySoundboardSoundAction::key_up(&settings).err(), Some(PlaySoundError::MissingGuildId));
    settings.insert("guild_id".to_string(), "DEFAULT".to_string());
    let cmd = PlaySoundboardSoundAction::key_up(&settings).ok().unwrap();
    assert_eq!(cmd.sound_id, "s1");
    assert_eq!(cmd.guild_id, "0");
    settings.insert("guild_id".to_string(), "55".to_string());
    let cmd2 = PlaySoundboardSoundAction::key_up(&settings).ok().unwrap();
    assert_eq!(cmd2.guild_id, "55");
    assert_ne!(cmd.nonce, cmd2.nonce);
}

#[test]
fn play_sound_nonce_is_uuid_v4() {
    let mut settings = StrMap::new();
    settings.insert("sound_id".to_string(), "s".to_string());
    settings.insert("guild_id".to_string(), "g".to_string());
    let nonce = PlaySoundboardSoundAction::key_up(&settings).ok().unwrap().nonce;
    let chars: Vec<char> = nonce.chars().collect();
    assert_eq!(chars.len(), 36);
    for (i, c) in chars.iter().enumerate() {
        if [8, 13, 18, 23].contains(&i) {
            assert_eq!(*c, '-');
        } else {
            assert!(c.is_ascii_digit() || ('a'..='f').contains(c));
        }
    }
    assert_eq!(chars[14], '4');
    assert!(['8', '9', 'a', 'b'].contains(&chars[19]));
}

#[test]
fn soundboard_payload_settings() {
    let s = PlaySoundboardSoundAction::settings_from_payload(Some("s".to_string()), None, Some("n".to_string()));
    assert_eq!(s.len(), 2);
    assert_eq!(s.get("sound_id").map(|v| v.as_str()), Some("s"));
    assert_eq!(s.get("sound_name").map(|v| v.as_str()), Some("n"));
    assert!(s.get("guild_id").is_none());
}

#[test]
fn play_sound_payload_is_sorted_json() {
    let c = PlaySoundCommand {
        sound_id: "12".to_string(),
        guild_id: "0".to_string(),
        nonce: "n-1".to_string(),
    };
    assert_eq!(
        c.payload(),
        "{\"args\":{\"guild_id\":\"0\",\"sound_id\":\"12\"},\"cmd\":\"PLAY_SOUNDBOARD_SOUND\",\"nonce\":\"n-1\"}"
    );
    let q = PlaySoundCommand {
        sound_id: "a\"b".to_string(),
        guild_id: "g\\".to_string(),
        nonce: "x".to_string(),
    };
    assert_eq!(
        q.payload(),
        "{\"args\":{\"guild_id\":\"g\\\\\",\"sound_id\":\"a\\\"b\"},\"cmd\":\"PLAY_SOUNDBOARD_SOUND\",\"nonce\":\"x\"}"
    );
    assert_eq!(
        play_sound_message("1", "2", "3"),
        "{\"args\":{\"guild_id\":1,\"sound_id\":2},\"cmd\":\"PLAY_SOUNDBOARD_SOUND\",\"nonce\":3}"
    );
}

#[test]
fn soundboard_inspector_requests() {
    assert!(matches!(
        PlaySoundboardSoundAction::inspector_request(Some("get_guilds"), None),
        SoundboardInspectorRequest::Guilds
    ));
    match PlaySoundboardSoundAction::inspector_request(Some("get_sounds"), Some("9")) {
        SoundboardInspectorRequest::Sounds(g) => assert_eq!(g, "9"),
        _ => panic!("expected a sounds request"),
    }
    assert!(matches!(
        PlaySoundboardSoundAction::inspector_request(Some("get_sounds"), None),
        SoundboardInspectorRequest::Ignored
    ));
    assert!(matches!(
        PlaySoundboardSoundAction::inspector_request(None, Some("9")),
        SoundboardInspectorRequest::Settings
    ));
    assert!(matches!(
        PlaySoundboardSoundAction::inspector_request(Some("other"), None),
        SoundboardInspectorRequest::Settings
    ));
}

#[test]
fn play_sound_payload_escapes_control_characters() {
    let c = PlaySoundCommand {
        sound_id: "a\u{1}\t\u{1f}".to_string(),
        guild_id: "\n\r\u{8}\u{c}é".to_string(),
        nonce: "/".to_string(),
    };
    assert_eq!(
        c.payload(),
        "{\"args\":{\"guild_id\":\"\\n\\r\\b\\fé\",\"sound_id\":\"a\\u0001\\t\\u001f\"},\"cmd\":\"PLAY_SOUNDBOARD_SOUND\",\"nonce\":\"/\"}"
    );
}

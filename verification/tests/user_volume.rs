use oadiscord::participants::{VoiceParticipants, VoiceStateRecord, VoiceUser};
use oadiscord::str_map::StrMap;
use oadiscord::user_volume::{
    asks_for_users,
    users_response_error, volume_settings_from_payload, UserVolumeControlButtonAction,
    UserVolumeControlDialAction, VolumeCommand,
};

fn settings(pairs: &[(&str, &str)]) -> StrMap<String> {
    let mut m = StrMap::new();
    for (k, v) in pairs {
        m.insert(k.to_string(), v.to_string());
    }
    m
}

fn with_user(id: &str, volume: i32, muted: bool) -> VoiceParticipants {
    let mut reg = VoiceParticipants::new();
    reg.upsert(&VoiceStateRecord {
        user: Some(VoiceUser { id: id.to_string(), username: "u".to_string(), avatar: None }),
        nick: String::new(),
        volume,
        mute: muted,
        server_mute: false,
        self_mute: false,
        server_deaf: false,
        self_deaf: false,
        suppress: false,
    });
    reg
}

fn voice(cmd: VolumeCommand) -> (String, Option<i32>, Option<bool>) {
    match cmd {
        VolumeCommand::SetUserVoice { user_id, volume, mute } => (user_id, volume, mute),
        VolumeCommand::Alert => panic!("unexpected alert"),
        VolumeCommand::Nothing => panic!("unexpected nothing"),
    }
}

#[test]
fn button_without_user_alerts() {
    assert!(matches!(
        UserVolumeControlButtonAction::key_up(&settings(&[]), &VoiceParticipants::new()),
        VolumeCommand::Alert
    ));
    assert!(matches!(
        UserVolumeControlButtonAction::key_up(&settings(&[("user_id", "1"), ("mode", "dance")]), &VoiceParticipants::new()),
        VolumeCommand::Alert
    ));
}

#[test]
fn button_toggle_flips_current_mute() {
    let muted = with_user("1", 100, true);
    let s = settings(&[("user_id", "1")]);
    assert_eq!(voice(UserVolumeControlButtonAction::key_up(&s, &muted)), ("1".to_string(), None, Some(false)));
    let unknown = VoiceParticipants::new();
    assert_eq!(voice(UserVolumeControlButtonAction::key_up(&s, &unknown)), ("1".to_string(), None, Some(true)));
    let unmute = settings(&[("user_id", "1"), ("mute_type", "unmute")]);
    assert_eq!(voice(UserVolumeControlButtonAction::key_up(&unmute, &unknown)).2, Some(false));
    let other = settings(&[("user_id", "1"), ("mute_type", "whatever")]);
    assert_eq!(voice(UserVolumeControlButtonAction::key_up(&other, &unknown)).2, Some(true));
}

#[test]
fn button_adjust_and_set_clamp() {
    let reg = with_user("1", 150, false);
    let adjust = settings(&[("user_id", "1"), ("mode", "adjust"), ("adjust_value", "80")]);
    assert_eq!(voice(UserVolumeControlButtonAction::key_up(&adjust, &reg)).1, Some(200));
    let down = settings(&[("user_id", "1"), ("mode", "adjust"), ("adjust_value", "-20")]);
    assert_eq!(voice(UserVolumeControlButtonAction::key_up(&down, &reg)).1, Some(130));
    let unknown_user = settings(&[("user_id", "9"), ("mode", "adjust"), ("adjust_value", "5")]);
    assert_eq!(voice(UserVolumeControlButtonAction::key_up(&unknown_user, &reg)).1, Some(105));
    let bad = settings(&[("user_id", "1"), ("mode", "adjust"), ("adjust_value", "x")]);
    assert_eq!(voice(UserVolumeControlButtonAction::key_up(&bad, &reg)).1, Some(150));
    let set = settings(&[("user_id", "1"), ("mode", "set"), ("set_value", "-4")]);
    assert_eq!(voice(UserVolumeControlButtonAction::key_up(&set, &reg)).1, Some(0));
    let set_default = settings(&[("user_id", "1"), ("mode", "set")]);
    assert_eq!(voice(UserVolumeControlButtonAction::key_up(&set_default, &reg)).1, Some(100));
}

#[test]
fn button_overflow_is_detected() {
    let reg = with_user("1", 150, false);
    let huge = settings(&[("user_id", "1"), ("mode", "adjust"), ("adjust_value", "2147483647")]);
    assert!(UserVolumeControlButtonAction::adjust_overflows(&huge, &reg));
    let fine = settings(&[("user_id", "1"), ("mode", "adjust"), ("adjust_value", "10")]);
    assert!(!UserVolumeControlButtonAction::adjust_overflows(&fine, &reg));
}

#[test]
fn dial_rotate_moves_by_steps() {
    let reg = with_user("1", 100, false);
    let s = settings(&[("user_id", "1")]);
    assert_eq!(voice(UserVolumeControlDialAction::dial_rotate(&s, &reg, 3)).1, Some(115));
    let neg_step = settings(&[("user_id", "1"), ("adjust_value", "-10")]);
    assert_eq!(voice(UserVolumeControlDialAction::dial_rotate(&neg_step, &reg, -2)).1, Some(80));
    let zero_step = settings(&[("user_id", "1"), ("adjust_value", "0")]);
    assert_eq!(voice(UserVolumeControlDialAction::dial_rotate(&zero_step, &reg, 4)).1, Some(104));
    assert_eq!(voice(UserVolumeControlDialAction::dial_rotate(&s, &reg, 100)).1, Some(200));
    let set = settings(&[("user_id", "1"), ("mode", "set"), ("set_value", "42")]);
    assert_eq!(voice(UserVolumeControlDialAction::dial_rotate(&set, &reg, 1)).1, Some(42));
    let mute_mode = settings(&[("user_id", "1"), ("mode", "mute")]);
    assert!(matches!(UserVolumeControlDialAction::dial_rotate(&mute_mode, &reg, 1), VolumeCommand::Nothing));
    assert!(matches!(UserVolumeControlDialAction::dial_rotate(&settings(&[]), &reg, 1), VolumeCommand::Alert));
}

#[test]
fn dial_out_of_range_is_detected() {
    let reg = with_user("1", 100, false);
    let min = settings(&[("user_id", "1"), ("adjust_value", "-2147483648")]);
    assert!(UserVolumeControlDialAction::adjust_out_of_range(&min, &reg, 1));
    let big = settings(&[("user_id", "1"), ("adjust_value", "2000000000")]);
    assert!(UserVolumeControlDialAction::adjust_out_of_range(&big, &reg, 2));
    assert!(!UserVolumeControlDialAction::adjust_out_of_range(&big, &reg, 1));
}

#[test]
fn dial_up_mutes_or_sets() {
    let reg = with_user("1", 100, false);
    let mute = settings(&[("user_id", "1"), ("mode", "mute")]);
    assert_eq!(voice(UserVolumeControlDialAction::dial_up(&mute, &reg)).2, Some(true));
    let set = settings(&[("user_id", "1"), ("mode", "set"), ("set_value", "250")]);
    assert_eq!(voice(UserVolumeControlDialAction::dial_up(&set, &reg)).1, Some(200));
    let adjust = settings(&[("user_id", "1")]);
    assert!(matches!(UserVolumeControlDialAction::dial_up(&adjust, &reg), VolumeCommand::Nothing));
    assert!(matches!(UserVolumeControlDialAction::dial_up(&settings(&[]), &reg), VolumeCommand::Alert));
}

#[test]
fn payload_numbers_written_in_decimal() {
    let s = volume_settings_from_payload(Some("1".to_string()), None, None, Some(-15), Some(0));
    assert_eq!(s.len(), 3);
    assert_eq!(s.get("adjust_value").map(|v| v.as_str()), Some("-15"));
    assert_eq!(s.get("set_value").map(|v| v.as_str()), Some("0"));
    let t = volume_settings_from_payload(None, Some("set".to_string()), Some("toggle".to_string()), None, Some(i32::MIN));
    assert_eq!(t.get("set_value").map(|v| v.as_str()), Some("-2147483648"));
    assert_eq!(t.get("mode").map(|v| v.as_str()), Some("set"));
}

#[test]
fn written_adjust_value_reads_back() {
    let reg = with_user("1", 100, false);
    let mut s = volume_settings_from_payload(Some("1".to_string()), Some("adjust".to_string()), None, Some(-37), None);
    assert_eq!(voice(UserVolumeControlButtonAction::key_up(&s, &reg)).1, Some(63));
    s.insert("adjust_value".to_string(), "+7".to_string());
    assert_eq!(voice(UserVolumeControlButtonAction::key_up(&s, &reg)).1, Some(107));
}

#[test]
fn users_error_messages() {
    assert_eq!(
        users_response_error(false, true).as_deref(),
        Some("Discord client not initialized. Check the plugin connection settings.")
    );
    assert_eq!(
        users_response_error(true, false).as_deref(),
        Some("Join a Discord voice channel to list participants.")
    );
    assert_eq!(users_response_error(true, true), None);
}

#[test]
fn only_get_users_asks_for_users() {
    assert!(asks_for_users(Some("get_users")));
    assert!(!asks_for_users(Some("get_user")));
    assert!(!asks_for_users(None));
}

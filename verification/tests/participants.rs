use oadiscord::participants::{
    voice_participant_from_state, VoiceParticipant, VoiceParticipants, VoiceStateRecord, VoiceUser,
};

fn state(id: &str, name: &str, volume: i32, flags: [bool; 6]) -> VoiceStateRecord {
    VoiceStateRecord {
        user: Some(VoiceUser { id: id.to_string(), username: name.to_string(), avatar: None }),
        nick: String::new(),
        volume,
        mute: flags[0],
        server_mute: flags[1],
        self_mute: flags[2],
        server_deaf: flags[3],
        self_deaf: flags[4],
        suppress: flags[5],
    }
}

#[test]
fn effective_mute_is_false_when_all_flags_are_false() {
    assert!(!VoiceParticipant::compute_effective_mute(false, false, false, false, false, false));
}

#[test]
fn effective_mute_is_true_when_any_flag_is_true() {
    for flags in [
        (true, false, false, false, false, false),
        (false, true, false, false, false, false),
        (false, false, true, false, false, false),
        (false, false, false, true, false, false),
        (false, false, false, false, true, false),
        (false, false, false, false, false, true),
    ] {
        assert!(VoiceParticipant::compute_effective_mute(
            flags.0, flags.1, flags.2, flags.3, flags.4, flags.5
        ));
    }
}

#[test]
fn participant_from_state_clamps_and_keeps_nick() {
    let mut s = state("1", "ann", 350, [false; 6]);
    s.nick = "Annie".to_string();
    s.user.as_mut().unwrap().avatar = Some("av".to_string());
    let p = voice_participant_from_state(&s).unwrap();
    assert_eq!(p.user_id, "1");
    assert_eq!(p.name, "ann");
    assert_eq!(p.nick.as_deref(), Some("Annie"));
    assert_eq!(p.volume, 200);
    assert!(!p.mute);
    assert_eq!(p.avatar_hash.as_deref(), Some("av"));
    let q = voice_participant_from_state(&state("2", "bo", -5, [false, false, false, false, true, false])).unwrap();
    assert_eq!(q.volume, 0);
    assert!(q.nick.is_none());
    assert!(q.mute);
    assert!(q.self_deaf);
    let mut nobody = state("3", "x", 100, [false; 6]);
    nobody.user = None;
    assert!(voice_participant_from_state(&nobody).is_none());
}

#[test]
fn refresh_effective_mute_follows_flags() {
    let mut p = voice_participant_from_state(&state("1", "a", 100, [false; 6])).unwrap();
    p.server_mute = true;
    p.refresh_effective_mute();
    assert!(p.mute);
    p.server_mute = false;
    p.refresh_effective_mute();
    assert!(!p.mute);
}

#[test]
fn registry_upsert_get_remove() {
    let mut reg = VoiceParticipants::new();
    assert!(reg.upsert(&state("1", "ann", 80, [false; 6])));
    assert_eq!(reg.get("1").unwrap().volume, 80);
    assert!(reg.upsert(&state("1", "ann", 90, [true, false, false, false, false, false])));
    assert_eq!(reg.get("1").unwrap().volume, 90);
    assert!(reg.get("1").unwrap().mute);
    let mut nobody = state("9", "z", 1, [false; 6]);
    nobody.user = None;
    assert!(!reg.upsert(&nobody));
    assert!(reg.remove_user(&state("1", "ann", 0, [false; 6])));
    assert!(reg.get("1").is_none());
}

#[test]
fn registry_replace_keeps_last_state_per_user() {
    let mut reg = VoiceParticipants::new();
    reg.upsert(&state("old", "gone", 50, [false; 6]));
    let voices = vec![
        state("1", "ann", 10, [false; 6]),
        state("2", "bob", 20, [false; 6]),
        state("1", "ann", 30, [false; 6]),
    ];
    reg.replace_from_states(&voices);
    assert!(reg.get("old").is_none());
    assert_eq!(reg.get("1").unwrap().volume, 30);
    assert_eq!(reg.sorted().len(), 2);
}

#[test]
fn registry_local_update_clamps_and_recomputes_mute() {
    let mut reg = VoiceParticipants::new();
    reg.upsert(&state("1", "ann", 100, [false; 6]));
    assert!(reg.apply_local_user_voice_update("1", Some(500), Some(true)));
    let p = reg.get("1").unwrap();
    assert_eq!(p.volume, 200);
    assert!(p.local_mute);
    assert!(p.mute);
    assert!(reg.apply_local_user_voice_update("1", Some(-3), Some(false)));
    let p = reg.get("1").unwrap();
    assert_eq!(p.volume, 0);
    assert!(!p.mute);
    assert!(!reg.apply_local_user_voice_update("nobody", Some(1), None));
}

#[test]
fn registry_sorted_by_name_ignoring_case() {
    let mut reg = VoiceParticipants::new();
    reg.upsert(&state("1", "charlie", 100, [false; 6]));
    reg.upsert(&state("2", "Bob", 100, [false; 6]));
    reg.upsert(&state("3", "alice", 100, [false; 6]));
    reg.upsert(&state("4", "ALAN", 100, [false; 6]));
    let names: Vec<String> = reg.sorted().into_iter().map(|p| p.name).collect();
    assert_eq!(names, vec!["ALAN", "alice", "Bob", "charlie"]);
}

#[test]
fn registry_clear_empties() {
    let mut reg = VoiceParticipants::new();
    reg.upsert(&state("1", "a", 1, [false; 6]));
    reg.clear();
    assert!(reg.sorted().is_empty());
}

//! The user volume button and dial: what a press or a turn asks Discord to
//! set for the chosen user, from the action's settings and the user's
//! current state.

use vstd::prelude::*;
use crate::numbers::{decimal_text, i32_to_text, parse_i32, parse_i32_spec};
use crate::participants::{clamp_volume, clamp_volume_exec, VoiceParticipants};
use crate::str_map::StrMap;
use crate::text::{same_chars, string_of};

verus! {

/// The value of setting `key`, or `default` when it is not set.
pub open spec fn setting_or(settings: Map<Seq<char>, String>, key: Seq<char>, default: Seq<char>) -> Seq<
    char,
> {
    if settings.contains_key(key) {
        settings[key]@
    } else {
        default
    }
}

/// Setting `key` read as an `i32`, or `default` when it is not set or does
/// not read as one.
pub open spec fn number_setting_or(settings: Map<Seq<char>, String>, key: Seq<char>, default: i32) -> i32 {
    if settings.contains_key(key) {
        match parse_i32_spec(settings[key]@) {
            Some(v) => v,
            None => default,
        }
    } else {
        default
    }
}

/// The mute to ask for: `toggle` flips the user's current mute (taken as
/// unmuted when unknown), `unmute` unmutes, anything else mutes.
pub open spec fn mute_choice(mute_type: Seq<char>, current_mute: Option<bool>) -> bool {
    if mute_type == "toggle"@ {
        !(match current_mute {
            Some(m) => m,
            None => false,
        })
    } else if mute_type == "unmute"@ {
        false
    } else {
        true
    }
}

/// The current volume of the user, taken as 100 when the user is not known.
pub open spec fn current_volume(participants: Map<Seq<char>, crate::participants::VoiceParticipant>, user_id: Seq<char>) -> int {
    if participants.contains_key(user_id) {
        participants[user_id].volume as int
    } else {
        100
    }
}

/// The current mute of the user, if the user is known.
pub open spec fn current_mute(participants: Map<Seq<char>, crate::participants::VoiceParticipant>, user_id: Seq<char>) -> Option<bool> {
    if participants.contains_key(user_id) {
        Some(participants[user_id].mute)
    } else {
        None
    }
}

/// What a press or turn asks for.
pub enum VolumeCommand {
    /// Show the alert sign on the key: the settings are unusable.
    Alert,
    /// Nothing to do.
    Nothing,
    /// Ask Discord to set the user's volume, mute, or both.
    SetUserVoice { user_id: String, volume: Option<i32>, mute: Option<bool> },
}

/// The command sets this voice for `user_id`.
pub open spec fn sets_voice(c: VolumeCommand, user_id: Seq<char>, volume: Option<i32>, mute: Option<bool>) -> bool {
    c matches VolumeCommand::SetUserVoice { user_id: u, volume: v, mute: m } && u@ == user_id && v == volume
        && m == mute
}

fn setting_text<'a>(settings: &'a StrMap<String>, key: &str, default: &'a str) -> (r: &'a str)
    ensures
        r@ == setting_or(settings@, key@, default@),
{
    match settings.get(key) {
        Some(v) => v.as_str(),
        None => default,
    }
}

fn number_setting(settings: &StrMap<String>, key: &str, default: i32) -> (r: i32)
    ensures
        r == number_setting_or(settings@, key@, default),
{
    match settings.get(key) {
        Some(v) => match parse_i32(v.as_str()) {
            Some(n) => n,
            None => default,
        },
        None => default,
    }
}

fn choose_mute(mute_type: &str, participants: &VoiceParticipants, user_id: &str) -> (r: bool)
    ensures
        r == mute_choice(mute_type@, current_mute(participants@, user_id@)),
{
    if same_chars(mute_type, "toggle") {
        let m = match participants.get(user_id) {
            Some(p) => p.mute,
            None => false,
        };
        !m
    } else if same_chars(mute_type, "unmute") {
        false
    } else {
        true
    }
}

fn known_volume(participants: &VoiceParticipants, user_id: &str) -> (r: i32)
    ensures
        r == current_volume(participants@, user_id@),
        0 <= r <= 200,
{
    match participants.get(user_id) {
        Some(p) => p.volume,
        None => 100,
    }
}

/// Whether a button press in `adjust` mode would add past the range of
/// `i32`, which the press does not allow.
pub open spec fn button_adjust_overflows(
    settings: Map<Seq<char>, String>,
    participants: Map<Seq<char>, crate::participants::VoiceParticipant>,
) -> bool {
    &&& settings.contains_key("user_id"@)
    &&& setting_or(settings, "mode"@, "mute"@) == "adjust"@
    &&& current_volume(participants, settings["user_id"@]@) + number_setting_or(settings, "adjust_value"@, 0) > i32::MAX
}

/// The button that mutes or sets the volume of a user.
pub struct UserVolumeControlButtonAction;

impl UserVolumeControlButtonAction {
    /// Whether a press would add past the range of `i32`.
    pub fn adjust_overflows(settings: &StrMap<String>, participants: &VoiceParticipants) -> (r: bool)
        ensures
            r == button_adjust_overflows(settings@, participants@),
    {
        let user_id = match settings.get("user_id") {
            Some(u) => u,
            None => {
                return false;
            },
        };
        let mode = setting_text(settings, "mode", "mute");
        if !same_chars(mode, "adjust") {
            return false;
        }
        let current = known_volume(participants, user_id.as_str());
        let adjust = number_setting(settings, "adjust_value", 0);
        adjust > i32::MAX - current
    }

    /// What a press asks for, by mode (`mute` by default): `mute` sets the
    /// user's mute by the mute type (`toggle` by default); `adjust` adds the
    /// adjust value (0 by default) to the current volume (100 when unknown);
    /// `set` sets the set value (100 by default); volumes are clamped to
    /// 0..=200. With no user chosen or an unknown mode, the key shows an
    /// alert.
    pub fn key_up(settings: &StrMap<String>, participants: &VoiceParticipants) -> (r: VolumeCommand)
        requires
            !button_adjust_overflows(settings@, participants@),
        ensures
            ({
                let s = settings@;
                let uid = s["user_id"@]@;
                let mode = setting_or(s, "mode"@, "mute"@);
                if !s.contains_key("user_id"@) {
                    r is Alert
                } else if mode == "mute"@ {
                    sets_voice(r, uid, None, Some(mute_choice(setting_or(s, "mute_type"@, "toggle"@), current_mute(participants@, uid))))
                } else if mode == "adjust"@ {
                    sets_voice(r, uid, Some(clamp_volume(current_volume(participants@, uid) + number_setting_or(s, "adjust_value"@, 0)) as i32), None)
                } else if mode == "set"@ {
                    sets_voice(r, uid, Some(clamp_volume(number_setting_or(s, "set_value"@, 100) as int) as i32), None)
                } else {
                    r is Alert
                }
            }),
    {
        let user_id = match settings.get("user_id") {
            Some(u) => u.clone(),
            None => {
                return VolumeCommand::Alert;
            },
        };
        let mode = setting_text(settings, "mode", "mute");
        if same_chars(mode, "mute") {
            let mute_type = setting_text(settings, "mute_type", "toggle");
            let mute = choose_mute(mute_type, participants, user_id.as_str());
            VolumeCommand::SetUserVoice { user_id, volume: None, mute: Some(mute) }
        } else if same_chars(mode, "adjust") {
            let adjust = number_setting(settings, "adjust_value", 0);
            let current = known_volume(participants, user_id.as_str());
            let volume = clamp_volume_exec(current + adjust);
            VolumeCommand::SetUserVoice { user_id, volume: Some(volume), mute: None }
        } else if same_chars(mode, "set") {
            let set_value = number_setting(settings, "set_value", 100);
            VolumeCommand::SetUserVoice { user_id, volume: Some(clamp_volume_exec(set_value)), mute: None }
        } else {
            VolumeCommand::Alert
        }
    }
}

/// The step a dial turn moves by: the adjust value's magnitude (5 by
/// default), at least 1.
pub open spec fn dial_step(settings: Map<Seq<char>, String>) -> int {
    let v = number_setting_or(settings, "adjust_value"@, 5) as int;
    let a = if v < 0 {
        -v
    } else {
        v
    };
    if a < 1 {
        1
    } else {
        a
    }
}

/// Whether a dial turn in `adjust` mode is out of what the turn allows: an
/// adjust value of `i32::MIN`, whose magnitude is no `i32`, or a new volume
/// past the range of `i32`.
pub open spec fn dial_adjust_out_of_range(
    settings: Map<Seq<char>, String>,
    participants: Map<Seq<char>, crate::participants::VoiceParticipant>,
    ticks: i16,
) -> bool {
    &&& settings.contains_key("user_id"@)
    &&& setting_or(settings, "mode"@, "adjust"@) == "adjust"@
    &&& {
        ||| number_setting_or(settings, "adjust_value"@, 5) == i32::MIN
        ||| ticks * dial_step(settings) < i32::MIN
        ||| ticks * dial_step(settings) > i32::MAX
        ||| current_volume(participants, settings["user_id"@]@) + ticks * dial_step(settings) > i32::MAX
        ||| current_volume(participants, settings["user_id"@]@) + ticks * dial_step(settings) < i32::MIN
    }
}

/// The dial that moves, sets or mutes the volume of a user.
pub struct UserVolumeControlDialAction;

impl UserVolumeControlDialAction {
    /// Whether a turn by `ticks` is out of what a turn allows.
    pub fn adjust_out_of_range(settings: &StrMap<String>, participants: &VoiceParticipants, ticks: i16) -> (r: bool)
        ensures
            r == dial_adjust_out_of_range(settings@, participants@, ticks),
    {
        let user_id = match settings.get("user_id") {
            Some(u) => u,
            None => {
                return false;
            },
        };
        let mode = setting_text(settings, "mode", "adjust");
        if !same_chars(mode, "adjust") {
            return false;
        }
        let v = number_setting(settings, "adjust_value", 5);
        if v == i32::MIN {
            return true;
        }
        let a: i64 = if v < 0 { -(v as i64) } else { v as i64 };
        let step: i64 = if a < 1 { 1 } else { a };
        assert(-70368744177664 <= (ticks as i64) * step <= 70368744177664) by (nonlinear_arith)
            requires
                -32768 <= ticks <= 32767,
                1 <= step <= 2147483647,
        ;
        let moved: i64 = (ticks as i64) * step;
        assert(moved == ticks * dial_step(settings@)) by (nonlinear_arith)
            requires
                step == dial_step(settings@),
                moved == (ticks as i64) * step,
                -32768 <= ticks <= 32767,
                0 <= step <= 2147483647,
        ;
        let current = known_volume(participants, user_id.as_str()) as i64;
        moved < i32::MIN as i64 || moved > i32::MAX as i64 || current + moved > i32::MAX as i64
            || current + moved < i32::MIN as i64
    }

    /// What a turn by `ticks` asks for, by mode (`adjust` by default):
    /// `adjust` moves the current volume (100 when unknown) by `ticks` steps;
    /// `set` sets the set value (100 by default); volumes are clamped to
    /// 0..=200. With no user chosen the dial shows an alert; an unknown
    /// mode does nothing.
    pub fn dial_rotate(settings: &StrMap<String>, participants: &VoiceParticipants, ticks: i16) -> (r: VolumeCommand)
        requires
            !dial_adjust_out_of_range(settings@, participants@, ticks),
        ensures
            ({
                let s = settings@;
                let uid = s["user_id"@]@;
                let mode = setting_or(s, "mode"@, "adjust"@);
                if !s.contains_key("user_id"@) {
                    r is Alert
                } else if mode == "adjust"@ {
                    sets_voice(r, uid, Some(clamp_volume(current_volume(participants@, uid) + ticks * dial_step(s)) as i32), None)
                } else if mode == "set"@ {
                    sets_voice(r, uid, Some(clamp_volume(number_setting_or(s, "set_value"@, 100) as int) as i32), None)
                } else {
                    r is Nothing
                }
            }),
    {
        let user_id = match settings.get("user_id") {
            Some(u) => u.clone(),
            None => {
                return VolumeCommand::Alert;
            },
        };
        let mode = setting_text(settings, "mode", "adjust");
        if same_chars(mode, "adjust") {
            let v = number_setting(settings, "adjust_value", 5);
            let a: i32 = if v < 0 { -v } else { v };
            let step: i32 = if a < 1 { 1 } else { a };
            let t: i32 = ticks as i32;
            assert(t * step == ticks * dial_step(settings@));
            let moved: i32 = t * step;
            let current = known_volume(participants, user_id.as_str());
            let volume = clamp_volume_exec(current + moved);
            VolumeCommand::SetUserVoice { user_id, volume: Some(volume), mute: None }
        } else if same_chars(mode, "set") {
            let set_value = number_setting(settings, "set_value", 100);
            VolumeCommand::SetUserVoice { user_id, volume: Some(clamp_volume_exec(set_value)), mute: None }
        } else {
            VolumeCommand::Nothing
        }
    }

    /// What a press of the dial asks for, by mode (`adjust` by default):
    /// `mute` sets the user's mute by the mute type (`toggle` by default);
    /// `set` sets the set value (100 by default), clamped to 0..=200. With
    /// no user chosen the dial shows an alert; other modes do nothing.
    pub fn dial_up(settings: &StrMap<String>, participants: &VoiceParticipants) -> (r: VolumeCommand)
        ensures
            ({
                let s = settings@;
                let uid = s["user_id"@]@;
                let mode = setting_or(s, "mode"@, "adjust"@);
                if !s.contains_key("user_id"@) {
                    r is Alert
                } else if mode == "mute"@ {
                    sets_voice(r, uid, None, Some(mute_choice(setting_or(s, "mute_type"@, "toggle"@), current_mute(participants@, uid))))
                } else if mode == "set"@ {
                    sets_voice(r, uid, Some(clamp_volume(number_setting_or(s, "set_value"@, 100) as int) as i32), None)
                } else {
                    r is Nothing
                }
            }),
    {
        let user_id = match settings.get("user_id") {
            Some(u) => u.clone(),
            None => {
                return VolumeCommand::Alert;
            },
        };
        let mode = setting_text(settings, "mode", "adjust");
        if same_chars(mode, "mute") {
            let mute_type = setting_text(settings, "mute_type", "toggle");
            let mute = choose_mute(mute_type, participants, user_id.as_str());
            VolumeCommand::SetUserVoice { user_id, volume: None, mute: Some(mute) }
        } else if same_chars(mode, "set") {
            let set_value = number_setting(settings, "set_value", 100);
            VolumeCommand::SetUserVoice { user_id, volume: Some(clamp_volume_exec(set_value)), mute: None }
        } else {
            VolumeCommand::Nothing
        }
    }
}

/// The settings a property inspector message sets for the button or the
/// dial: each field it carries, under its own name, numbers in decimal.
pub fn volume_settings_from_payload(
    user_id: Option<String>,
    mode: Option<String>,
    mute_type: Option<String>,
    adjust_value: Option<i32>,
    set_value: Option<i32>,
) -> (r: StrMap<String>)
    ensures
        r@.contains_key("user_id"@) == user_id is Some,
        r@.contains_key("mode"@) == mode is Some,
        r@.contains_key("mute_type"@) == mute_type is Some,
        r@.contains_key("adjust_value"@) == adjust_value is Some,
        r@.contains_key("set_value"@) == set_value is Some,
        user_id matches Some(v) ==> r@["user_id"@] == v,
        mode matches Some(v) ==> r@["mode"@] == v,
        mute_type matches Some(v) ==> r@["mute_type"@] == v,
        adjust_value matches Some(v) ==> r@["adjust_value"@]@ == decimal_text(v as int),
        set_value matches Some(v) ==> r@["set_value"@]@ == decimal_text(v as int),
        forall|k: Seq<char>| #[trigger] r@.contains_key(k) ==> k == "user_id"@ || k == "mode"@ || k == "mute_type"@ || k == "adjust_value"@ || k == "set_value"@,
{
    proof {
        reveal_strlit("user_id");
        reveal_strlit("mode");
        reveal_strlit("mute_type");
        reveal_strlit("adjust_value");
        reveal_strlit("set_value");
        assert("user_id"@[0] != "mode"@[0]);
        assert("user_id"@[0] != "mute_type"@[0]);
        assert("user_id"@[0] != "adjust_value"@[0]);
        assert("user_id"@[0] != "set_value"@[0]);
        assert("mode"@.len() != "mute_type"@.len());
        assert("mode"@[0] != "adjust_value"@[0]);
        assert("mode"@[0] != "set_value"@[0]);
        assert("mute_type"@[0] != "adjust_value"@[0]);
        assert("mute_type"@[0] != "set_value"@[0]);
        assert("adjust_value"@[0] != "set_value"@[0]);
    }
    let mut r: StrMap<String> = StrMap::new();
    if let Some(v) = user_id {
        r.insert(String::from_str("user_id"), v);
    }
    if let Some(v) = mode {
        r.insert(String::from_str("mode"), v);
    }
    if let Some(v) = mute_type {
        r.insert(String::from_str("mute_type"), v);
    }
    if let Some(v) = adjust_value {
        r.insert(String::from_str("adjust_value"), string_of(&i32_to_text(v)));
    }
    if let Some(v) = set_value {
        r.insert(String::from_str("set_value"), string_of(&i32_to_text(v)));
    }
    r
}

/// Whether a property inspector message with `action` asks for the
/// participant list; any other message carries settings.
pub fn asks_for_users(action: Option<&str>) -> (r: bool)
    ensures
        r == crate::soundboard::names_action(action, "get_users"@),
{
    match action {
        Some(a) => same_chars(a, "get_users"),
        None => false,
    }
}

/// Why the participant list cannot be shown, if it cannot: no Discord
/// connection, or no voice channel joined.
pub fn users_response_error(client_available: bool, in_voice_channel: bool) -> (r: Option<String>)
    ensures
        !client_available ==> (r matches Some(e) && e@
            == "Discord client not initialized. Check the plugin connection settings."@),
        client_available && !in_voice_channel ==> (r matches Some(e) && e@
            == "Join a Discord voice channel to list participants."@),
        client_available && in_voice_channel ==> r is None,
{
    if !client_available {
        Some(String::from_str("Discord client not initialized. Check the plugin connection settings."))
    } else if !in_voice_channel {
        Some(String::from_str("Join a Discord voice channel to list participants."))
    } else {
        None
    }
}

} // verus!

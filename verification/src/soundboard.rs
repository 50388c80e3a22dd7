//! Soundboard sounds: which guild a listing belongs to, which sounds of it
//! the plugin keeps, and the request that plays a sound.

use vstd::prelude::*;
use crate::channels::{default_guild_id, default_sounds_guild_id, opt_chars};
use crate::ids::{is_v4_uuid_text, new_v4_uuid};
use crate::str_map::StrMap;
use crate::text::same_chars;

verus! {

/// A soundboard sound as Discord reports it.
#[derive(Clone, Debug)]
pub struct SoundboardSound {
    pub sound_id: String,
    pub name: String,
    pub emoji_name: Option<String>,
    pub guild_id: String,
}

/// A sound as the plugin offers it.
#[derive(Clone, Debug)]
pub struct SoundInfo {
    pub sound_id: String,
    pub name: String,
    pub emoji_name: Option<String>,
}

/// The guild key under which the plugin files sounds of Discord's guild id
/// `g`: default sounds, filed by Discord under `0`, go under `DEFAULT`.
pub open spec fn sound_guild_key(g: Seq<char>) -> Seq<char> {
    if g == default_sounds_guild_id() {
        default_guild_id()
    } else {
        g
    }
}

/// The guild under which a sound listing is cached: the one asked for, else
/// the guild key of the first sound.
pub open spec fn sound_cache_guild(requested: Option<Seq<char>>, ss: Seq<SoundboardSound>) -> Option<
    Seq<char>,
> {
    match requested {
        Some(g) => Some(g),
        None => if ss.len() > 0 {
            Some(sound_guild_key(ss[0].guild_id@))
        } else {
            None
        },
    }
}

/// The sounds of `ss` whose Discord guild id is `g`, in order.
pub open spec fn sounds_of_guild(ss: Seq<SoundboardSound>, g: Seq<char>) -> Seq<SoundboardSound>
    decreases ss.len(),
{
    if ss.len() == 0 {
        Seq::empty()
    } else {
        let before = sounds_of_guild(ss.drop_last(), g);
        if ss.last().guild_id@ == g {
            before.push(ss.last())
        } else {
            before
        }
    }
}

/// The sounds of a listing that the plugin keeps for the guild asked for:
/// for `DEFAULT`, Discord's default sounds; for another guild, its own
/// sounds; when no guild was asked for, all of them.
pub open spec fn kept_sounds(requested: Option<Seq<char>>, ss: Seq<SoundboardSound>) -> Seq<
    SoundboardSound,
> {
    match requested {
        Some(g) => if g == default_guild_id() {
            sounds_of_guild(ss, default_sounds_guild_id())
        } else {
            sounds_of_guild(ss, g)
        },
        None => ss,
    }
}

/// The sounds of `ss` whose guild id has the characters `g`.
fn keep_guild(ss: Vec<SoundboardSound>, g: &str) -> (r: Vec<SoundboardSound>)
    ensures
        r@ == sounds_of_guild(ss@, g@),
{
    let ghost all = ss@;
    let n = ss.len();
    let mut rest = ss;
    let mut out: Vec<SoundboardSound> = Vec::new();
    let mut i: usize = 0;
    while rest.len() > 0
        invariant
            i <= all.len(),
            n == all.len(),
            rest@ == all.skip(i as int),
            out@ == sounds_of_guild(all.take(i as int), g@),
        decreases rest.len(),
    {
        let s = rest.remove(0);
        assert(s == all[i as int]);
        assert(all.take(i + 1).drop_last() =~= all.take(i as int));
        assert(rest@ =~= all.skip(i + 1));
        if same_chars(s.guild_id.as_str(), g) {
            out.push(s);
        }
        i = i + 1;
    }
    assert(all.take(i as int) =~= all);
    out
}

/// The guild key for a Discord guild id.
pub fn sound_guild_key_of(g: &str) -> (r: String)
    ensures
        r@ == sound_guild_key(g@),
{
    proof {
        reveal_strlit("0");
        reveal_strlit("DEFAULT");
        assert("0"@ =~= default_sounds_guild_id());
        assert("DEFAULT"@ =~= default_guild_id());
    }
    if same_chars(g, "0") {
        String::from_str("DEFAULT")
    } else {
        String::from_str(g)
    }
}

/// The guild a sound listing is cached under, and the sounds of it that the
/// plugin keeps.
pub fn filter_soundboard_sounds(requested_guild_id: Option<&str>, sounds: Vec<SoundboardSound>) -> (r: (
    Option<String>,
    Vec<SoundboardSound>,
))
    ensures
        opt_chars(r.0) == sound_cache_guild(
            match requested_guild_id {
                Some(g) => Some(g@),
                None => None,
            },
            sounds@,
        ),
        r.1@ == kept_sounds(
            match requested_guild_id {
                Some(g) => Some(g@),
                None => None,
            },
            sounds@,
        ),
{
    proof {
        reveal_strlit("0");
        reveal_strlit("DEFAULT");
        assert("0"@ =~= default_sounds_guild_id());
        assert("DEFAULT"@ =~= default_guild_id());
    }
    let cache_guild_id = match requested_guild_id {
        Some(g) => Some(String::from_str(g)),
        None => if sounds.len() > 0 {
            Some(sound_guild_key_of(sounds[0].guild_id.as_str()))
        } else {
            None
        },
    };
    let filtered = match requested_guild_id {
        Some(g) => if same_chars(g, "DEFAULT") {
            keep_guild(sounds, "0")
        } else {
            keep_guild(sounds, g)
        },
        None => sounds,
    };
    (cache_guild_id, filtered)
}

/// The sound as offered to the property inspector.
pub open spec fn info_matches(i: SoundInfo, s: SoundboardSound) -> bool {
    i.sound_id == s.sound_id && i.name == s.name && i.emoji_name == s.emoji_name
}

/// The sounds as offered to the property inspector, in order.
pub fn sound_infos(sounds: &Vec<SoundboardSound>) -> (r: Vec<SoundInfo>)
    ensures
        r.len() == sounds.len(),
        forall|i: int| 0 <= i < r.len() ==> info_matches(#[trigger] r@[i], sounds@[i]),
{
    let mut r: Vec<SoundInfo> = Vec::new();
    let mut i: usize = 0;
    while i < sounds.len()
        invariant
            i <= sounds.len(),
            r.len() == i,
            forall|j: int| 0 <= j < i ==> info_matches(#[trigger] r@[j], sounds@[j]),
        decreases sounds.len() - i,
    {
        let s = &sounds[i];
        let emoji = match &s.emoji_name {
            Some(e) => Some(e.clone()),
            None => None,
        };
        r.push(SoundInfo { sound_id: s.sound_id.clone(), name: s.name.clone(), emoji_name: emoji });
        i = i + 1;
    }
    r
}

/// The request that plays a soundboard sound.
pub struct PlaySoundCommand {
    pub sound_id: String,
    /// The guild as Discord knows it: `0` for its default sounds.
    pub guild_id: String,
    pub nonce: String,
}

/// A hexadecimal digit in lower case, for `d` in 0..16.
pub open spec fn lower_hex_digit(d: int) -> char {
    if d < 10 {
        ('0' as int + d) as char
    } else {
        ('a' as int + d - 10) as char
    }
}

/// How serde_json writes the character `c` inside a JSON string: `"` and
/// `\` behind a backslash, backspace, tab, line feed, form feed and
/// carriage return as `\b` `\t` `\n` `\f` `\r`, the other control
/// characters below U+0020 as `\u00` and two lower-case hex digits, and
/// every other character as itself.
pub open spec fn json_escaped_char(c: char) -> Seq<char> {
    if c == '"' {
        seq!['\\', '"']
    } else if c == '\\' {
        seq!['\\', '\\']
    } else if c == '\u{8}' {
        seq!['\\', 'b']
    } else if c == '\t' {
        seq!['\\', 't']
    } else if c == '\n' {
        seq!['\\', 'n']
    } else if c == '\u{c}' {
        seq!['\\', 'f']
    } else if c == '\r' {
        seq!['\\', 'r']
    } else if (c as int) < 0x20 {
        seq!['\\', 'u', '0', '0', lower_hex_digit(c as int / 16), lower_hex_digit(c as int % 16)]
    } else {
        seq![c]
    }
}

/// The characters of `s`, each written as `json_escaped_char` gives.
pub open spec fn json_escaped(s: Seq<char>) -> Seq<char>
    decreases s.len(),
{
    if s.len() == 0 {
        Seq::empty()
    } else {
        json_escaped(s.drop_last()) + json_escaped_char(s.last())
    }
}

/// The JSON text of the string `s` as serde_json writes it: the escaped
/// characters between double quotes.
pub open spec fn json_string(s: Seq<char>) -> Seq<char> {
    seq!['"'] + json_escaped(s) + seq!['"']
}

/// `serde_json::to_string` on a string slice: the string as a JSON string
/// literal, quoted and escaped as `json_string` states (its escape table
/// touches ASCII bytes only, so each character is written on its own).
/// Serialising a string writes into a `Vec` and cannot fail.
#[verifier::external_body]
fn json_quote(s: &str) -> (r: String)
    ensures
        r@ == json_string(s@),
{
    serde_json::to_string(s).unwrap_or_default()
}

/// The RPC message that plays a sound, from its fields already written as
/// JSON strings. Keys come in sorted order, as serde_json writes a map.
pub fn play_sound_message(guild_json: &str, sound_json: &str, nonce_json: &str) -> (r: String)
    ensures
        r@ == "{\"args\":{\"guild_id\":"@ + guild_json@ + ",\"sound_id\":"@ + sound_json@
            + "},\"cmd\":\"PLAY_SOUNDBOARD_SOUND\",\"nonce\":"@ + nonce_json@ + "}"@,
{
    let mut r = String::from_str("{\"args\":{\"guild_id\":");
    r.append(guild_json);
    r.append(",\"sound_id\":");
    r.append(sound_json);
    r.append("},\"cmd\":\"PLAY_SOUNDBOARD_SOUND\",\"nonce\":");
    r.append(nonce_json);
    r.append("}");
    r
}

impl PlaySoundCommand {
    /// The text sent over the RPC connection to play the sound.
    pub fn payload(&self) -> (r: String)
        ensures
            r@ == "{\"args\":{\"guild_id\":"@ + json_string(self.guild_id@) + ",\"sound_id\":"@
                + json_string(self.sound_id@) + "},\"cmd\":\"PLAY_SOUNDBOARD_SOUND\",\"nonce\":"@
                + json_string(self.nonce@) + "}"@,
    {
        let g = json_quote(self.guild_id.as_str());
        let s = json_quote(self.sound_id.as_str());
        let n = json_quote(self.nonce.as_str());
        play_sound_message(g.as_str(), s.as_str(), n.as_str())
    }
}

/// Why a sound cannot be played.
#[derive(Clone, Copy, Debug, PartialEq, Eq, Structural)]
pub enum PlaySoundError {
    MissingSoundId,
    MissingGuildId,
}

/// Whether a property inspector message names the action `name`.
pub open spec fn names_action(action: Option<&str>, name: Seq<char>) -> bool {
    match action {
        Some(a) => a@ == name,
        None => false,
    }
}

/// What a property inspector message asks of the soundboard button.
pub enum SoundboardInspectorRequest {
    /// The guild list.
    Guilds,
    /// The sounds of this guild.
    Sounds(String),
    /// Sounds, without saying of which guild: nothing is done.
    Ignored,
    /// Anything else: the message carries settings.
    Settings,
}

/// The button that plays a soundboard sound.
pub struct PlaySoundboardSoundAction;

impl PlaySoundboardSoundAction {
    /// What a property inspector message with `action` and `guild_id` asks.
    pub fn inspector_request(action: Option<&str>, guild_id: Option<&str>) -> (r: SoundboardInspectorRequest)
        ensures
            names_action(action, "get_guilds"@) ==> r is Guilds,
            names_action(action, "get_sounds"@) ==> match guild_id {
                Some(g) => r matches SoundboardInspectorRequest::Sounds(s) && s@ == g@,
                None => r is Ignored,
            },
            !names_action(action, "get_guilds"@) && !names_action(action, "get_sounds"@) ==> r is Settings,
    {
        proof {
            reveal_strlit("get_guilds");
            reveal_strlit("get_sounds");
            assert("get_guilds"@[4] != "get_sounds"@[4]);
        }
        match action {
            Some(a) => {
                if same_chars(a, "get_guilds") {
                    SoundboardInspectorRequest::Guilds
                } else if same_chars(a, "get_sounds") {
                    match guild_id {
                        Some(g) => SoundboardInspectorRequest::Sounds(g.to_string()),
                        None => SoundboardInspectorRequest::Ignored,
                    }
                } else {
                    SoundboardInspectorRequest::Settings
                }
            },
            None => SoundboardInspectorRequest::Settings,
        }
    }

    /// The request a key press makes from the button's settings: the sound
    /// and guild it names, the default-sounds guild given as `0`, with a
    /// fresh nonce. Refused when the sound or the guild is not set.
    pub fn key_up(settings: &StrMap<String>) -> (r: Result<PlaySoundCommand, PlaySoundError>)
        ensures
            !settings@.contains_key("sound_id"@) ==> r == Err::<PlaySoundCommand, _>(
                PlaySoundError::MissingSoundId,
            ),
            settings@.contains_key("sound_id"@) && !settings@.contains_key("guild_id"@) ==> r
                == Err::<PlaySoundCommand, _>(PlaySoundError::MissingGuildId),
            settings@.contains_key("sound_id"@) && settings@.contains_key("guild_id"@) ==> (r matches Ok(
                c,
            ) && c.sound_id@ == settings@["sound_id"@]@ && c.guild_id@ == (if settings@["guild_id"@]@
                == default_guild_id() {
                default_sounds_guild_id()
            } else {
                settings@["guild_id"@]@
            }) && is_v4_uuid_text(c.nonce@)),
    {
        proof {
            reveal_strlit("0");
            reveal_strlit("DEFAULT");
            assert("0"@ =~= default_sounds_guild_id());
            assert("DEFAULT"@ =~= default_guild_id());
        }
        let sound_id = match settings.get("sound_id") {
            Some(s) => s.clone(),
            None => {
                return Err(PlaySoundError::MissingSoundId);
            },
        };
        let guild_id = match settings.get("guild_id") {
            Some(g) => g.clone(),
            None => {
                return Err(PlaySoundError::MissingGuildId);
            },
        };
        let target = if same_chars(guild_id.as_str(), "DEFAULT") {
            String::from_str("0")
        } else {
            guild_id
        };
        let nonce = new_v4_uuid();
        Ok(PlaySoundCommand { sound_id, guild_id: target, nonce })
    }

    /// The settings a property inspector message sets: each field it
    /// carries, under its own name.
    pub fn settings_from_payload(
        sound_id: Option<String>,
        guild_id: Option<String>,
        sound_name: Option<String>,
    ) -> (r: StrMap<String>)
        ensures
            r@.contains_key("sound_id"@) == sound_id is Some,
            r@.contains_key("guild_id"@) == guild_id is Some,
            r@.contains_key("sound_name"@) == sound_name is Some,
            sound_id matches Some(v) ==> r@["sound_id"@] == v,
            guild_id matches Some(v) ==> r@["guild_id"@] == v,
            sound_name matches Some(v) ==> r@["sound_name"@] == v,
            r@.dom().len() == (if sound_id is Some { 1int } else { 0 }) + (if guild_id is Some {
                1int
            } else {
                0
            }) + (if sound_name is Some { 1int } else { 0 }),
    {
        proof {
            reveal_strlit("sound_id");
            reveal_strlit("guild_id");
            reveal_strlit("sound_name");
            assert("sound_id"@[0] != "guild_id"@[0]);
            assert("sound_id"@.len() != "sound_name"@.len());
            assert("guild_id"@[0] != "sound_name"@[0]);
        }
        let mut r: StrMap<String> = StrMap::new();
        if let Some(v) = sound_id {
            r.insert(String::from_str("sound_id"), v);
        }
        if let Some(v) = guild_id {
            r.insert(String::from_str("guild_id"), v);
        }
        if let Some(v) = sound_name {
            r.insert(String::from_str("sound_name"), v);
        }
        r
    }
}

} // verus!

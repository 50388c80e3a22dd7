//! The buttons that join and leave voice channels: their titles, the
//! channel a press selects, and the settings each button keeps.

use vstd::prelude::*;
use crate::str_map::StrMap;
use crate::soundboard::names_action;
use crate::text::{chars_of, same_chars, string_of, trim, trim_chars, trim_str};

verus! {

/// `c` in lower case if it is an ASCII capital, else unchanged.
pub open spec fn ascii_lower(c: char) -> int {
    if 'A' <= c && c <= 'Z' {
        c as int + 32
    } else {
        c as int
    }
}

/// `a` and `b` are equal up to ASCII case, as `str::eq_ignore_ascii_case`
/// decides.
pub open spec fn eq_ignore_ascii_case(a: Seq<char>, b: Seq<char>) -> bool {
    a.len() == b.len() && forall|i: int| 0 <= i < a.len() ==> ascii_lower(#[trigger] a[i]) == ascii_lower(b[i])
}

fn ascii_lower_exec(c: char) -> (r: u32)
    ensures
        r == ascii_lower(c),
{
    if 'A' <= c && c <= 'Z' {
        c as u32 + 32
    } else {
        c as u32
    }
}

/// Whether `a` and `b` are equal up to ASCII case.
pub fn eq_ignore_ascii_case_exec(a: &Vec<char>, b: &Vec<char>) -> (r: bool)
    ensures
        r == eq_ignore_ascii_case(a@, b@),
{
    if a.len() != b.len() {
        return false;
    }
    let mut i: usize = 0;
    while i < a.len()
        invariant
            a.len() == b.len(),
            i <= a.len(),
            forall|j: int| 0 <= j < i ==> ascii_lower(#[trigger] a@[j]) == ascii_lower(b@[j]),
        decreases a.len() - i,
    {
        if ascii_lower_exec(a[i]) != ascii_lower_exec(b[i]) {
            return false;
        }
        i = i + 1;
    }
    true
}

/// Whether the join button shows its channel's name: unless the setting
/// `show_channel_title` reads `false`, in any case, once trimmed.
pub open spec fn title_enabled(settings: Map<Seq<char>, String>) -> bool {
    !settings.contains_key("show_channel_title"@) || !eq_ignore_ascii_case(
        trim(settings["show_channel_title"@]@),
        "false"@,
    )
}

/// Whether the join button shows its channel's name.
pub fn channel_title_enabled(settings: &StrMap<String>) -> (r: bool)
    ensures
        r == title_enabled(settings@),
{
    match settings.get("show_channel_title") {
        Some(v) => {
            let all = chars_of(v.as_str());
            let t = trim_chars(&all);
            let f = chars_of("false");
            !eq_ignore_ascii_case_exec(&t, &f)
        },
        None => true,
    }
}

/// The join button's title: the trimmed channel name when titles are shown
/// and the name is set, else empty.
pub open spec fn join_title(settings: Map<Seq<char>, String>) -> Seq<char> {
    if title_enabled(settings) && settings.contains_key("channel_name"@) {
        trim(settings["channel_name"@]@)
    } else {
        Seq::empty()
    }
}

/// The join button's title.
pub fn join_voice_channel_title(settings: &StrMap<String>) -> (r: String)
    ensures
        r@ == join_title(settings@),
{
    if channel_title_enabled(settings) {
        match settings.get("channel_name") {
            Some(n) => trim_str(n.as_str()),
            None => String::new(),
        }
    } else {
        String::new()
    }
}

/// The voice channel Discord is asked to join; none to leave the current
/// one. Joining always forces the move.
pub struct VoiceChannelSelection {
    pub channel_id: Option<String>,
    pub force: bool,
}

/// What a property inspector message asks of the join button.
pub enum VoiceChannelInspectorRequest {
    /// The guild list.
    Guilds,
    /// The voice channels of this guild.
    Channels(String),
    /// Channels, without a usable guild: nothing is done.
    Ignored,
    /// Anything else: the message carries settings.
    Settings,
}

/// The button that joins a chosen voice channel.
pub struct SelectVoiceChannelAction;

impl SelectVoiceChannelAction {
    /// What a property inspector message with `action` and `guild_id`
    /// asks; the guild of a channel listing is trimmed and must not be
    /// blank.
    pub fn inspector_request(action: Option<&str>, guild_id: Option<String>) -> (r: VoiceChannelInspectorRequest)
        ensures
            names_action(action, "get_guilds"@) ==> r is Guilds,
            names_action(action, "get_channels"@) ==> match guild_id {
                Some(g) => if trim(g@).len() > 0 {
                    r matches VoiceChannelInspectorRequest::Channels(t) && t@ == trim(g@)
                } else {
                    r is Ignored
                },
                None => r is Ignored,
            },
            !names_action(action, "get_guilds"@) && !names_action(action, "get_channels"@) ==> r is Settings,
    {
        proof {
            reveal_strlit("get_guilds");
            reveal_strlit("get_channels");
            assert("get_guilds"@[4] != "get_channels"@[4]);
        }
        match action {
            Some(a) => {
                if same_chars(a, "get_guilds") {
                    VoiceChannelInspectorRequest::Guilds
                } else if same_chars(a, "get_channels") {
                    match Self::channels_guild(guild_id) {
                        Some(g) => VoiceChannelInspectorRequest::Channels(g),
                        None => VoiceChannelInspectorRequest::Ignored,
                    }
                } else {
                    VoiceChannelInspectorRequest::Settings
                }
            },
            None => VoiceChannelInspectorRequest::Settings,
        }
    }

    /// What a press selects: the trimmed `channel_id` setting, forced; none,
    /// and an alert, when it is missing or blank.
    pub fn key_up(settings: &StrMap<String>) -> (r: Option<VoiceChannelSelection>)
        ensures
            match r {
                Some(sel) => {
                    &&& settings@.contains_key("channel_id"@)
                    &&& trim(settings@["channel_id"@]@).len() > 0
                    &&& sel.channel_id matches Some(c) && c@ == trim(settings@["channel_id"@]@)
                    &&& sel.force
                },
                None => !settings@.contains_key("channel_id"@) || trim(settings@["channel_id"@]@).len()
                    == 0,
            },
    {
        match settings.get("channel_id") {
            Some(c) => {
                let t = trim_str(c.as_str());
                if t.unicode_len() == 0 {
                    None
                } else {
                    Some(VoiceChannelSelection { channel_id: Some(t), force: true })
                }
            },
            None => None,
        }
    }

    /// The guild whose channels the property inspector asks for: the
    /// trimmed guild id, none when it is missing or blank.
    pub fn channels_guild(guild_id: Option<String>) -> (r: Option<String>)
        ensures
            match guild_id {
                Some(g) => if trim(g@).len() > 0 {
                    r matches Some(t) && t@ == trim(g@)
                } else {
                    r is None
                },
                None => r is None,
            },
    {
        match guild_id {
            Some(g) => {
                let t = trim_str(g.as_str());
                if t.unicode_len() == 0 {
                    None
                } else {
                    Some(t)
                }
            },
            None => None,
        }
    }

    /// The settings a property inspector message sets: each field it
    /// carries, under its own name, the title switch as `true` or `false`.
    pub fn settings_from_payload(
        guild_id: Option<String>,
        channel_id: Option<String>,
        channel_name: Option<String>,
        show_channel_title: Option<bool>,
    ) -> (r: StrMap<String>)
        ensures
            r@.contains_key("guild_id"@) == guild_id is Some,
            r@.contains_key("channel_id"@) == channel_id is Some,
            r@.contains_key("channel_name"@) == channel_name is Some,
            r@.contains_key("show_channel_title"@) == show_channel_title is Some,
            guild_id matches Some(v) ==> r@["guild_id"@] == v,
            channel_id matches Some(v) ==> r@["channel_id"@] == v,
            channel_name matches Some(v) ==> r@["channel_name"@] == v,
            show_channel_title matches Some(b) ==> r@["show_channel_title"@]@ == (if b {
                "true"@
            } else {
                "false"@
            }),
            forall|k: Seq<char>|
                #[trigger] r@.contains_key(k) ==> k == "guild_id"@ || k == "channel_id"@ || k
                    == "channel_name"@ || k == "show_channel_title"@,
    {
        proof {
            reveal_strlit("guild_id");
            reveal_strlit("channel_id");
            reveal_strlit("channel_name");
            reveal_strlit("show_channel_title");
            assert("guild_id"@[0] != "channel_id"@[0]);
            assert("guild_id"@[0] != "channel_name"@[0]);
            assert("guild_id"@[0] != "show_channel_title"@[0]);
            assert("channel_id"@[8] != "channel_name"@[8]);
            assert("channel_id"@[0] != "show_channel_title"@[0]);
            assert("channel_name"@[0] != "show_channel_title"@[0]);
        }
        let mut r: StrMap<String> = StrMap::new();
        if let Some(v) = guild_id {
            r.insert(String::from_str("guild_id"), v);
        }
        if let Some(v) = channel_id {
            r.insert(String::from_str("channel_id"), v);
        }
        if let Some(v) = channel_name {
            r.insert(String::from_str("channel_name"), v);
        }
        if let Some(b) = show_channel_title {
            let text = if b {
                String::from_str("true")
            } else {
                String::from_str("false")
            };
            r.insert(String::from_str("show_channel_title"), text);
        }
        r
    }
}

/// The button that leaves the current voice channel.
pub struct LeaveVoiceChannelAction;

impl LeaveVoiceChannelAction {
    /// What a press selects: no channel, forced.
    pub fn key_up() -> (r: VoiceChannelSelection)
        ensures
            r.channel_id is None,
            r.force,
    {
        VoiceChannelSelection { channel_id: None, force: true }
    }
}

/// The settings each visible join button last had, by instance id.
pub struct InstanceSettings {
    map: StrMap<StrMap<String>>,
}

impl InstanceSettings {
    /// The settings by instance id, each as a map.
    pub closed spec fn view(&self) -> Map<Seq<char>, Map<Seq<char>, String>> {
        self.map@.map_values(|m: StrMap<String>| m@)
    }

    /// No instance known.
    pub fn new() -> (r: Self)
        ensures
            r@ == Map::<Seq<char>, Map<Seq<char>, String>>::empty(),
    {
        let r = InstanceSettings { map: StrMap::new() };
        assert(r@ =~= Map::<Seq<char>, Map<Seq<char>, String>>::empty());
        r
    }

    /// Records an instance's settings, in place of what it had.
    pub fn remember(&mut self, instance_id: &str, settings: &StrMap<String>)
        ensures
            final(self)@ == old(self)@.insert(instance_id@, settings@),
    {
        let copy = settings.duplicate();
        self.map.insert(String::from_str(instance_id), copy);
        assert(self@ =~= old(self)@.insert(instance_id@, settings@));
    }

    /// Adds `settings` over what the instance had (nothing, if unknown), and
    /// returns the result, which the instance now has.
    pub fn merge(&mut self, instance_id: &str, settings: &StrMap<String>) -> (r: StrMap<String>)
        ensures
            r@ == (if old(self)@.contains_key(instance_id@) {
                old(self)@[instance_id@]
            } else {
                Map::empty()
            }).union_prefer_right(settings@),
            final(self)@ == old(self)@.insert(instance_id@, r@),
    {
        let mut merged = match self.map.get(instance_id) {
            Some(m) => m.duplicate(),
            None => StrMap::new(),
        };
        merged.merge_from(settings);
        let result = merged.duplicate();
        self.map.insert(String::from_str(instance_id), merged);
        assert(self@ =~= old(self)@.insert(instance_id@, result@));
        result
    }

    /// Forgets an instance.
    pub fn forget(&mut self, instance_id: &str)
        ensures
            final(self)@ == old(self)@.remove(instance_id@),
    {
        self.map.remove(instance_id);
        assert(self@ =~= old(self)@.remove(instance_id@));
    }
}

} // verus!

//! Guilds and channels as Discord reports them, and the lists the plugin
//! offers from them: the guilds, sorted, and the voice channels of a guild.

use vstd::prelude::*;
use crate::participants::VoiceStateRecord;
use crate::sorting::{sort_by_keys, stably_sorted};
use crate::text::{
    after_last, after_last_chars, before_first, before_first_chars, case_key, case_key_of, chars_of,
    same_chars, string_of, trim, trim_chars, trim_str,
};

verus! {

/// The characters of an optional string.
pub open spec fn opt_chars(o: Option<String>) -> Option<Seq<char>> {
    match o {
        Some(s) => Some(s@),
        None => None,
    }
}

/// The kinds of channel the plugin tells apart.
#[derive(Clone, Copy, Debug, PartialEq, Eq, Structural)]
pub enum ChannelKind {
    GuildText,
    GuildVoice,
    GuildStageVoice,
    Other,
}

/// A channel as Discord reports it, in plain values.
pub struct ChannelRecord {
    pub id: String,
    pub kind: ChannelKind,
    pub guild_id: Option<String>,
    pub name: Option<String>,
    pub voice_states: Option<Vec<VoiceStateRecord>>,
}

/// A voice channel as the plugin offers it.
#[derive(Clone, Debug)]
pub struct VoiceChannelInfo {
    pub channel_id: String,
    pub name: String,
}

/// Whether users can join the channel by voice: voice and stage channels.
pub open spec fn is_voice_kind(k: ChannelKind) -> bool {
    k == ChannelKind::GuildVoice || k == ChannelKind::GuildStageVoice
}

/// The name shown for a channel: its trimmed name, or its id when the name
/// is missing or blank.
pub open spec fn channel_display_name(c: ChannelRecord) -> Seq<char> {
    match c.name {
        Some(n) => if trim(n@).len() > 0 {
            trim(n@)
        } else {
            c.id@
        },
        None => c.id@,
    }
}

/// The voice channels among `cs`, in order, as (id, shown name).
pub open spec fn voice_channel_entries(cs: Seq<ChannelRecord>) -> Seq<(Seq<char>, Seq<char>)>
    decreases cs.len(),
{
    if cs.len() == 0 {
        Seq::empty()
    } else {
        let before = voice_channel_entries(cs.drop_last());
        if is_voice_kind(cs.last().kind) {
            before.push((cs.last().id@, channel_display_name(cs.last())))
        } else {
            before
        }
    }
}

/// (id, name) of each listed channel.
pub open spec fn channel_info_entries(v: Seq<VoiceChannelInfo>) -> Seq<(Seq<char>, Seq<char>)> {
    v.map_values(|c: VoiceChannelInfo| (c.channel_id@, c.name@))
}

/// The guild under which a channel listing is cached: the one asked for,
/// else that of the first channel.
pub open spec fn channel_cache_guild(requested: Option<Seq<char>>, cs: Seq<ChannelRecord>) -> Option<
    Seq<char>,
> {
    match requested {
        Some(g) => Some(g),
        None => if cs.len() > 0 {
            opt_chars(cs[0].guild_id)
        } else {
            None
        },
    }
}

fn clone_opt(s: &Option<String>) -> (r: Option<String>)
    ensures
        r == *s,
{
    match s {
        Some(v) => Some(v.clone()),
        None => None,
    }
}

/// The name shown for a channel.
fn display_name(c: &ChannelRecord) -> (r: String)
    ensures
        r@ == channel_display_name(*c),
{
    match &c.name {
        Some(n) => {
            let t = trim_str(n.as_str());
            if t.unicode_len() > 0 {
                t
            } else {
                c.id.clone()
            }
        },
        None => c.id.clone(),
    }
}

/// The voice and stage channels of a channel listing, each with its id and
/// shown name, and the guild under which the listing is to be cached.
pub fn filter_voice_channels(requested_guild_id: Option<&str>, channels: Vec<ChannelRecord>) -> (r: (
    Option<String>,
    Vec<VoiceChannelInfo>,
))
    ensures
        opt_chars(r.0) == channel_cache_guild(
            match requested_guild_id {
                Some(g) => Some(g@),
                None => None,
            },
            channels@,
        ),
        channel_info_entries(r.1@) == voice_channel_entries(channels@),
{
    let cache_guild_id = match requested_guild_id {
        Some(g) => Some(String::from_str(g)),
        None => if channels.len() > 0 {
            clone_opt(&channels[0].guild_id)
        } else {
            None
        },
    };
    let mut out: Vec<VoiceChannelInfo> = Vec::new();
    let mut i: usize = 0;
    while i < channels.len()
        invariant
            i <= channels.len(),
            channel_info_entries(out@) == voice_channel_entries(channels@.take(i as int)),
        decreases channels.len() - i,
    {
        let c = &channels[i];
        assert(channels@.take(i + 1).drop_last() =~= channels@.take(i as int));
        let ghost before = out@;
        if c.kind == ChannelKind::GuildVoice || c.kind == ChannelKind::GuildStageVoice {
            let info = VoiceChannelInfo { channel_id: c.id.clone(), name: display_name(c) };
            out.push(info);
            assert(channel_info_entries(out@) =~= channel_info_entries(before).push(
                (c.id@, channel_display_name(*c)),
            ));
        }
        i = i + 1;
    }
    assert(channels@.take(channels.len() as int) =~= channels@);
    (cache_guild_id, out)
}

/// The icon hash in a guild's icon address: the file name of its path,
/// without extension, trimmed; none when the address or the hash is blank.
pub open spec fn icon_hash_of(url: Seq<char>) -> Option<Seq<char>> {
    let t = trim(url);
    let h = trim(before_first(after_last(before_first(t, '?'), '/'), '.'));
    if t.len() == 0 || h.len() == 0 {
        None
    } else {
        Some(h)
    }
}

/// The icon hash in a guild's icon address, such as `abc` in
/// `https://cdn.discordapp.com/icons/1/abc.png?size=64`.
pub fn guild_icon_hash_from_url(icon_url: Option<&str>) -> (r: Option<String>)
    ensures
        opt_chars(r) == match icon_url {
            Some(u) => icon_hash_of(u@),
            None => None,
        },
{
    let url = match icon_url {
        Some(u) => u,
        None => {
            return None;
        },
    };
    let all = chars_of(url);
    let t = trim_chars(&all);
    if t.len() == 0 {
        return None;
    }
    let path = before_first_chars(&t, '?');
    let filename = after_last_chars(&path, '/');
    let stem = before_first_chars(&filename, '.');
    let hash = trim_chars(&stem);
    if hash.len() == 0 {
        return None;
    }
    Some(string_of(&hash))
}

/// A guild as Discord lists it.
pub struct GuildRecord {
    pub id: String,
    pub name: String,
    pub icon_url: Option<String>,
}

/// A guild as the plugin offers it.
#[derive(Clone, Debug)]
pub struct GuildInfo {
    pub guild_id: String,
    pub name: String,
    pub icon_hash: Option<String>,
}

/// The id of the pseudo-guild that holds Discord's default sounds.
pub open spec fn default_guild_id() -> Seq<char> {
    seq!['D', 'E', 'F', 'A', 'U', 'L', 'T']
}

/// The id under which Discord files its default sounds.
pub open spec fn default_sounds_guild_id() -> Seq<char> {
    seq!['0']
}

/// The plain values of a guild entry.
pub open spec fn guild_entry(g: GuildInfo) -> (Seq<char>, Seq<char>, Option<Seq<char>>) {
    (g.guild_id@, g.name@, opt_chars(g.icon_hash))
}

/// The entry the plugin makes for a listed guild.
pub open spec fn guild_entry_of(g: GuildRecord) -> (Seq<char>, Seq<char>, Option<Seq<char>>) {
    (
        g.id@,
        g.name@,
        match g.icon_url {
            Some(u) => icon_hash_of(u@),
            None => None,
        },
    )
}

/// The entry of the pseudo-guild for Discord's default sounds.
pub open spec fn default_guild_entry() -> (Seq<char>, Seq<char>, Option<Seq<char>>) {
    (default_guild_id(), "Discord Default Sounds"@, None)
}

/// Guild entries are listed by name, ignoring case.
pub open spec fn guild_entry_key(e: (Seq<char>, Seq<char>, Option<Seq<char>>)) -> Seq<char> {
    case_key(e.1)
}

/// `r` is the guild list the plugin offers for the listed guilds `gs`.
pub open spec fn is_guild_list_of(r: Seq<GuildInfo>, gs: Seq<GuildRecord>) -> bool {
    &&& r.len() == gs.len() + 1
    &&& guild_entry(r[0]) == default_guild_entry()
    &&& stably_sorted(
        r.skip(1).map_values(|g: GuildInfo| guild_entry(g)),
        gs.map_values(|g: GuildRecord| guild_entry_of(g)),
        |e: (Seq<char>, Seq<char>, Option<Seq<char>>)| guild_entry_key(e),
    )
}

/// The guild list the plugin offers: the default sounds first, then every
/// listed guild, sorted stably by name ignoring case.
pub fn build_guild_list(guilds: Vec<GuildRecord>) -> (r: Vec<GuildInfo>)
    ensures
        is_guild_list_of(r@, guilds@),
        r.len() == guilds.len() + 1,
        guild_entry(r@[0]) == default_guild_entry(),
        stably_sorted(
            r@.skip(1).map_values(|g: GuildInfo| guild_entry(g)),
            guilds@.map_values(|g: GuildRecord| guild_entry_of(g)),
            |e: (Seq<char>, Seq<char>, Option<Seq<char>>)| guild_entry_key(e),
        ),
{
    let mut infos: Vec<GuildInfo> = Vec::new();
    let mut keys: Vec<Vec<char>> = Vec::new();
    let mut i: usize = 0;
    while i < guilds.len()
        invariant
            i <= guilds.len(),
            infos.len() == i,
            keys.len() == i,
            forall|j: int| 0 <= j < i ==> guild_entry(#[trigger] infos@[j]) == guild_entry_of(guilds@[j]),
            forall|j: int| 0 <= j < i ==> #[trigger] keys@[j]@ == case_key(infos@[j].name@),
        decreases guilds.len() - i,
    {
        let g = &guilds[i];
        let icon = match &g.icon_url {
            Some(u) => guild_icon_hash_from_url(Some(u.as_str())),
            None => guild_icon_hash_from_url(None),
        };
        let info = GuildInfo { guild_id: g.id.clone(), name: g.name.clone(), icon_hash: icon };
        keys.push(case_key_of(info.name.as_str()));
        infos.push(info);
        i = i + 1;
    }
    let ghost input = infos@;
    let ghost key = |g: GuildInfo| case_key(g.name@);
    let sorted = sort_by_keys(infos, keys, Ghost(key));
    let mut r: Vec<GuildInfo> = Vec::new();
    r.push(GuildInfo {
        guild_id: String::from_str("DEFAULT"),
        name: String::from_str("Discord Default Sounds"),
        icon_hash: None,
    });
    proof {
        reveal_strlit("DEFAULT");
        assert("DEFAULT"@ =~= default_guild_id());
    }
    let mut j: usize = 0;
    let mut sorted = sorted;
    let ghost sorted_all = sorted@;
    let total = sorted.len();
    while j < total
        invariant
            sorted_all.len() == input.len(),
            total == sorted_all.len(),
            j <= sorted_all.len(),
            sorted@ == sorted_all.skip(j as int),
            r.len() == j + 1,
            guild_entry(r@[0]) == default_guild_entry(),
            forall|k: int| 0 <= k < j ==> #[trigger] r@[k + 1] == sorted_all[k],
        decreases total - j,
    {
        let g = sorted.remove(0);
        r.push(g);
        assert(sorted@ =~= sorted_all.skip(j + 1));
        j = j + 1;
    }
    proof {
        let p = choose|q: Seq<int>| #[trigger] crate::sorting::is_stable_sort_of(sorted_all, input, key, q);
        let ekey = |e: (Seq<char>, Seq<char>, Option<Seq<char>>)| guild_entry_key(e);
        let out_e = r@.skip(1).map_values(|g: GuildInfo| guild_entry(g));
        let in_e = guilds@.map_values(|g: GuildRecord| guild_entry_of(g));
        assert forall|k: int| 0 <= k < out_e.len() implies #[trigger] out_e[k] == in_e[p[k]] by {
            assert(r@[k + 1] == sorted_all[k]);
            assert(sorted_all[k] == input[p[k]]);
        }
        assert forall|a: int, b: int| 0 <= a < b < out_e.len() implies crate::sorting::chars_le(
            ekey(#[trigger] out_e[a]),
            ekey(#[trigger] out_e[b]),
        ) by {
            assert(r@[a + 1] == sorted_all[a]);
            assert(r@[b + 1] == sorted_all[b]);
            assert(crate::sorting::chars_le(key(sorted_all[a]), key(sorted_all[b])));
        }
        assert forall|a: int, b: int|
            0 <= a < b < out_e.len() && ekey(#[trigger] out_e[a]) == ekey(#[trigger] out_e[b])
                implies p[a] < p[b] by {
            assert(r@[a + 1] == sorted_all[a]);
            assert(r@[b + 1] == sorted_all[b]);
            assert(key(sorted_all[a]) == key(sorted_all[b]));
        }
        assert(crate::sorting::is_stable_sort_of(out_e, in_e, ekey, p));
    }
    r
}

/// The guilds among `gs` other than the default-sounds pseudo-guild.
pub open spec fn real_guilds(gs: Seq<GuildInfo>) -> Seq<GuildInfo>
    decreases gs.len(),
{
    if gs.len() == 0 {
        Seq::empty()
    } else {
        let before = real_guilds(gs.drop_last());
        if gs.last().guild_id@ == default_guild_id() {
            before
        } else {
            before.push(gs.last())
        }
    }
}

/// The guilds that can hold voice channels: all but the default-sounds
/// pseudo-guild, in order.
pub fn voice_channel_guilds(guilds: Vec<GuildInfo>) -> (r: Vec<GuildInfo>)
    ensures
        r@ == real_guilds(guilds@),
{
    let mut rest = guilds;
    let ghost all = rest@;
    let n = rest.len();
    let mut out: Vec<GuildInfo> = Vec::new();
    let mut i: usize = 0;
    proof {
        reveal_strlit("DEFAULT");
        assert("DEFAULT"@ =~= default_guild_id());
    }
    while rest.len() > 0
        invariant
            i <= all.len(),
            n == all.len(),
            rest@ == all.skip(i as int),
            out@ == real_guilds(all.take(i as int)),
            "DEFAULT"@ == default_guild_id(),
        decreases rest.len(),
    {
        let g = rest.remove(0);
        assert(g == all[i as int]);
        assert(all.take(i + 1).drop_last() =~= all.take(i as int));
        assert(rest@ =~= all.skip(i + 1));
        if !same_chars(g.guild_id.as_str(), "DEFAULT") {
            out.push(g);
        }
        i = i + 1;
    }
    assert(all.take(i as int) =~= all);
    out
}

} // verus!

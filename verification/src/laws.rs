//! Properties of the library as a whole, over the contracts of its
//! functions.

use vstd::prelude::*;
use crate::channels::{
    default_guild_id, guild_entry, guild_entry_key, guild_entry_of, is_guild_list_of, is_voice_kind, opt_chars,
    real_guilds, voice_channel_entries, ChannelRecord, GuildInfo, GuildRecord,
};
use crate::numbers::{
    all_digits, decimal_digits, decimal_text, digit_char, digit_value, digits_value, is_digit,
    parse_i32_spec, sign_len,
};
use crate::participants::{
    clamp_volume, effective_mute, is_participant_listing, locally_updated, name_key,
    participant_consistent, participant_from, VoiceParticipant, VoiceStateRecord,
};
use crate::sorting::{chars_le, is_stable_sort_of, lemma_chars_le_refl};
use crate::user_volume::mute_choice;
use crate::soundboard::{sounds_of_guild, SoundboardSound};
use crate::state::{
    normalized_channel, rpc_event_handled, soundboard_request_registered, toggles_set, soundboard_request_taken, synced,
    voice_channel_request_registered, voice_channel_request_taken, voice_state_deleted,
    voice_state_upserted, PendingSoundboardRequest, PendingVoiceChannelRequest, PluginEffect,
    PluginState, RpcEvent, VoiceToggle,
};
use crate::text::{case_key, trim, trim_end};
use crate::user_stats::trim_label_spec;

verus! {

/// A soundboard request taken by its nonce is the one last registered under
/// that nonce, and taking it leaves the other waiting requests as they were
/// before it was registered.
pub proof fn law_soundboard_request_round_trip(
    s0: PluginState,
    s1: PluginState,
    s2: PluginState,
    nonce: Seq<char>,
    instance_id: Seq<char>,
    guild_id: Seq<char>,
    taken: Option<PendingSoundboardRequest>,
)
    requires
        soundboard_request_registered(s0, s1, nonce, instance_id, guild_id),
        soundboard_request_taken(s1, s2, nonce, taken),
    ensures
        taken matches Some(r) && r.instance_id@ == instance_id && r.guild_id@ == guild_id,
        s2.pending_soundboard_requests@ == s0.pending_soundboard_requests@.remove(nonce),
{
}

/// A channel listing request taken by its nonce is the one last registered
/// under that nonce, and taking it leaves the other waiting requests as they
/// were before it was registered.
pub proof fn law_voice_channel_request_round_trip(
    s0: PluginState,
    s1: PluginState,
    s2: PluginState,
    nonce: Seq<char>,
    instance_id: Seq<char>,
    guild_id: Seq<char>,
    taken: Option<PendingVoiceChannelRequest>,
)
    requires
        voice_channel_request_registered(s0, s1, nonce, instance_id, guild_id),
        voice_channel_request_taken(s1, s2, nonce, taken),
    ensures
        taken matches Some(r) && r.instance_id@ == instance_id && r.guild_id@ == guild_id,
        s2.pending_voice_channel_requests@ == s0.pending_voice_channel_requests@.remove(nonce),
{
}

/// A request taken once is gone: taking it again by the same nonce finds
/// nothing.
pub proof fn law_soundboard_request_taken_once(
    s0: PluginState,
    s1: PluginState,
    s2: PluginState,
    nonce: Seq<char>,
    first: Option<PendingSoundboardRequest>,
    second: Option<PendingSoundboardRequest>,
)
    requires
        soundboard_request_taken(s0, s1, nonce, first),
        soundboard_request_taken(s1, s2, nonce, second),
    ensures
        second is None,
        s2.pending_soundboard_requests@ == s1.pending_soundboard_requests@,
{
    assert(s1.pending_soundboard_requests@.remove(nonce) =~= s1.pending_soundboard_requests@);
}

/// Following the same channel twice changes nothing the second time: no
/// events, same channel, same participants.
pub proof fn law_subscription_sync_idempotent(
    s0: PluginState,
    s1: PluginState,
    s2: PluginState,
    channel_id: Option<Seq<char>>,
    first: Seq<PluginEffect>,
    second: Seq<PluginEffect>,
)
    requires
        synced(s0, s1.subscribed_voice_channel, s1.voice_participants@, channel_id, first),
        synced(s1, s2.subscribed_voice_channel, s2.voice_participants@, channel_id, second),
    ensures
        second.len() == 0,
        crate::channels::opt_chars(s2.subscribed_voice_channel) == crate::channels::opt_chars(
            s1.subscribed_voice_channel,
        ),
        s2.voice_participants@ == s1.voice_participants@,
{
}

/// A participant made from a voice state is consistent: muted exactly when
/// one of its reasons holds, with a volume in 0..=200.
pub proof fn law_participant_from_state_consistent(v: VoiceStateRecord)
    ensures
        participant_from(v) matches Some(p) ==> participant_consistent(p),
{
}

/// A local volume or mute change keeps a participant consistent; a volume
/// set is clamped to 0..=200, and a mute set is its local mute.
pub proof fn law_local_update_consistent(p: VoiceParticipant, volume: Option<i32>, mute: Option<bool>)
    requires
        participant_consistent(p),
    ensures
        participant_consistent(locally_updated(p, volume, mute)),
        volume matches Some(v) ==> locally_updated(p, volume, mute).volume == clamp_volume(v as int),
        mute matches Some(m) ==> locally_updated(p, volume, mute).local_mute == m,
        locally_updated(p, volume, mute).user_id == p.user_id,
{
}

/// After a voice state naming a user is added, the user's participant is
/// the one the state describes.
pub proof fn law_voice_state_read_after_write(
    o: PluginState,
    n: PluginState,
    v: VoiceStateRecord,
    effects: Seq<PluginEffect>,
    p: VoiceParticipant,
)
    requires
        voice_state_upserted(o, n, v, effects),
        participant_from(v) == Some(p),
    ensures
        n.voice_participants@.contains_key(p.user_id@),
        n.voice_participants@[p.user_id@] == p,
{
}

/// After a voice state's user is deleted, the user has no participant.
pub proof fn law_voice_state_delete_removes(
    o: PluginState,
    n: PluginState,
    v: VoiceStateRecord,
    effects: Seq<PluginEffect>,
)
    requires
        voice_state_deleted(o, n, v, effects),
        v.user is Some,
    ensures
        !n.voice_participants@.contains_key(v.user->0.id@),
{
}

/// When the connection closes, no participant and no waiting request is
/// left.
pub proof fn law_socket_closed_forgets(o: PluginState, n: PluginState, effects: Seq<PluginEffect>)
    requires
        rpc_event_handled(o, n, RpcEvent::SocketClosed, effects),
    ensures
        n.voice_participants@.dom().len() == 0,
        n.pending_soundboard_requests@.dom().len() == 0,
        n.pending_voice_channel_requests@.dom().len() == 0,
{
}

/// `e` names a voice or stage channel of `cs` by its id.
pub open spec fn is_voice_channel_of(cs: Seq<ChannelRecord>, e: (Seq<char>, Seq<char>)) -> bool {
    exists|j: int| 0 <= j < cs.len() && is_voice_kind(cs[j].kind) && #[trigger] cs[j].id@ == e.0
}

/// Every channel offered for joining is a voice or stage channel of the
/// listing, with its id.
pub proof fn law_only_voice_channels_offered(cs: Seq<ChannelRecord>)
    ensures
        forall|i: int|
            0 <= i < voice_channel_entries(cs).len() ==> is_voice_channel_of(
                cs,
                #[trigger] voice_channel_entries(cs)[i],
            ),
    decreases cs.len(),
{
    if cs.len() > 0 {
        let init = cs.drop_last();
        law_only_voice_channels_offered(init);
        assert forall|i: int| 0 <= i < voice_channel_entries(cs).len() implies is_voice_channel_of(
            cs,
            #[trigger] voice_channel_entries(cs)[i],
        ) by {
            let e = voice_channel_entries(cs)[i];
            if i < voice_channel_entries(init).len() {
                assert(e == voice_channel_entries(init)[i]);
                assert(is_voice_channel_of(init, e));
                let j = choose|j: int| 0 <= j < init.len() && is_voice_kind(init[j].kind) && #[trigger] init[j].id@ == e.0;
                assert(cs[j] == init[j]);
            } else {
                let j = cs.len() - 1;
                assert(cs[j] == cs.last());
                assert(0 <= j < cs.len() && is_voice_kind(cs[j].kind) && cs[j].id@ == e.0);
            }
        }
    }
}

/// Every sound kept for a guild belongs to that guild.
pub proof fn law_kept_sounds_belong(ss: Seq<SoundboardSound>, g: Seq<char>)
    ensures
        forall|i: int| 0 <= i < sounds_of_guild(ss, g).len() ==> (#[trigger] sounds_of_guild(ss, g)[i]).guild_id@ == g,
    decreases ss.len(),
{
    if ss.len() > 0 {
        law_kept_sounds_belong(ss.drop_last(), g);
    }
}

/// The guilds offered for voice channels never include the default-sounds
/// pseudo-guild.
pub proof fn law_real_guilds_exclude_default(gs: Seq<GuildInfo>)
    ensures
        forall|i: int| 0 <= i < real_guilds(gs).len() ==> (#[trigger] real_guilds(gs)[i]).guild_id@ != default_guild_id(),
    decreases gs.len(),
{
    if gs.len() > 0 {
        law_real_guilds_exclude_default(gs.drop_last());
    }
}

proof fn lemma_trim_end_shorter(s: Seq<char>)
    ensures
        trim_end(s).len() <= s.len(),
    decreases s.len(),
{
    if s.len() > 0 && crate::text::is_white_space(s.last()) {
        lemma_trim_end_shorter(s.drop_last());
    }
}

/// A label is never longer than its limit and the three dots of a cut.
pub proof fn law_trim_label_length(input: Seq<char>, max_chars: nat)
    ensures
        trim_label_spec(input, max_chars).len() <= max_chars + 3,
{
    let t = trim(input);
    if t.len() > max_chars {
        lemma_trim_end_shorter(t.take(max_chars as int));
    }
}

proof fn lemma_decimal_digits(n: nat)
    ensures
        decimal_digits(n).len() > 0,
        all_digits(decimal_digits(n)),
        digits_value(decimal_digits(n)) == n,
        decimal_digits(n)[0] != '-' && decimal_digits(n)[0] != '+',
    decreases n,
{
    if n >= 10 {
        lemma_decimal_digits(n / 10);
        let d = decimal_digits(n);
        let hi = decimal_digits(n / 10);
        assert(d.drop_last() =~= hi);
        assert(d.last() == digit_char((n % 10) as int));
        assert(digit_value(digit_char((n % 10) as int)) == n % 10);
        assert((n / 10) * 10 + n % 10 == n) by (nonlinear_arith);
        assert(digits_value(d) == digits_value(d.drop_last()) * 10 + digit_value(d.last()));
        assert(digits_value(d) == n);
        assert(d[0] == hi[0]);
        assert forall|i: int| 0 <= i < d.len() implies is_digit(#[trigger] d[i]) by {
            if i < hi.len() {
                assert(d[i] == hi[i]);
            }
        }
    } else {
        let d = decimal_digits(n);
        assert(d.drop_last() =~= Seq::<char>::empty());
        assert(digit_value(digit_char(n as int)) == n);
        assert(digits_value(d) == digits_value(d.drop_last()) * 10 + digit_value(d.last()));
        assert(digits_value(Seq::<char>::empty()) == 0);
        assert(digits_value(d) == n);
    }
}

/// A number written as a setting reads back as itself: `i32::to_string`
/// then `i32::from_str` give the number again.
pub proof fn law_decimal_round_trip(n: i32)
    ensures
        parse_i32_spec(decimal_text(n as int)) == Some(n),
{
    let t = decimal_text(n as int);
    if n < 0 {
        let m = (-(n as int)) as nat;
        lemma_decimal_digits(m);
        let d = decimal_digits(m);
        assert(t[0] == '-');
        assert(sign_len(t) == 1);
        assert(t.skip(1) =~= d);
    } else {
        lemma_decimal_digits(n as nat);
        assert(sign_len(t) == 0);
        assert(t.skip(0) =~= t);
    }
}

/// A join button's settings after a property inspector change: what the
/// button last had, remembered, with every changed setting taking its new
/// value and every other one kept.
pub proof fn law_merge_after_remember(
    registry: Map<Seq<char>, Map<Seq<char>, String>>,
    instance_id: Seq<char>,
    remembered: Map<Seq<char>, String>,
    change: Map<Seq<char>, String>,
    key: Seq<char>,
)
    ensures
        ({
            let after = registry.insert(instance_id, remembered);
            let merged = (if after.contains_key(instance_id) {
                after[instance_id]
            } else {
                Map::empty()
            }).union_prefer_right(change);
            &&& change.contains_key(key) ==> merged.contains_key(key) && merged[key] == change[key]
            &&& !change.contains_key(key) ==> (merged.contains_key(key) == remembered.contains_key(key)
                && (remembered.contains_key(key) ==> merged[key] == remembered[key]))
        }),
{
}

/// The mute toggle is on whenever the deafen toggle is: a deafened user
/// cannot be heard either.
pub proof fn law_deafen_shows_mute(
    o: PluginState,
    n: PluginState,
    mute: Option<bool>,
    deaf: Option<bool>,
    effects: Seq<PluginEffect>,
)
    requires
        rpc_event_handled(o, n, RpcEvent::VoiceSettingsUpdate { mute, deaf }, effects),
    ensures
        n == o,
        effects.len() == 2,
        effects[0] matches PluginEffect::SetToggleState(VoiceToggle::Mute, m)
            && effects[1] matches PluginEffect::SetToggleState(VoiceToggle::Deafen, d) && (d ==> m),
{
}

/// Items the plugin does not act on change nothing and set nothing off.
pub proof fn law_other_items_ignored(o: PluginState, n: PluginState, event: RpcEvent, effects: Seq<PluginEffect>)
    requires
        event is OtherEvent || event is OtherCommand,
        rpc_event_handled(o, n, event, effects),
    ensures
        n == o,
        effects.len() == 0,
{
}

/// Each reason to be unheard mutes a participant on its own, whatever the
/// other reasons are; with no reason at all the participant is heard.
pub proof fn law_any_reason_mutes(
    local_mute: bool,
    server_mute: bool,
    self_mute: bool,
    server_deaf: bool,
    self_deaf: bool,
    suppress: bool,
)
    ensures
        local_mute ==> effective_mute(local_mute, server_mute, self_mute, server_deaf, self_deaf, suppress),
        server_mute ==> effective_mute(local_mute, server_mute, self_mute, server_deaf, self_deaf, suppress),
        self_mute ==> effective_mute(local_mute, server_mute, self_mute, server_deaf, self_deaf, suppress),
        server_deaf ==> effective_mute(local_mute, server_mute, self_mute, server_deaf, self_deaf, suppress),
        self_deaf ==> effective_mute(local_mute, server_mute, self_mute, server_deaf, self_deaf, suppress),
        suppress ==> effective_mute(local_mute, server_mute, self_mute, server_deaf, self_deaf, suppress),
        !local_mute && !server_mute && !self_mute && !server_deaf && !self_deaf && !suppress
            ==> !effective_mute(local_mute, server_mute, self_mute, server_deaf, self_deaf, suppress),
{
}

/// A voice state naming a user leaves that user's participant muted when
/// any one of its flags is set (a user who deafens sends both self mute and
/// self deafen), and heard when none is.
pub proof fn law_voice_state_sets_mute(o: PluginState, n: PluginState, v: VoiceStateRecord, effects: Seq<PluginEffect>)
    requires
        rpc_event_handled(o, n, RpcEvent::VoiceStateCreate(v), effects)
            || rpc_event_handled(o, n, RpcEvent::VoiceStateUpdate(v), effects),
        v.user is Some,
    ensures
        n.voice_participants@.contains_key(v.user->0.id@),
        v.mute ==> n.voice_participants@[v.user->0.id@].mute,
        v.server_mute ==> n.voice_participants@[v.user->0.id@].mute,
        v.self_mute ==> n.voice_participants@[v.user->0.id@].mute,
        v.server_deaf ==> n.voice_participants@[v.user->0.id@].mute,
        v.self_deaf ==> n.voice_participants@[v.user->0.id@].mute,
        v.suppress ==> n.voice_participants@[v.user->0.id@].mute,
        !v.mute && !v.server_mute && !v.self_mute && !v.server_deaf && !v.self_deaf && !v.suppress
            ==> !n.voice_participants@[v.user->0.id@].mute,
{
    law_any_reason_mutes(v.mute, v.server_mute, v.self_mute, v.server_deaf, v.self_deaf, v.suppress);
}

/// The toggle buttons follow the user's own voice settings, an unknown
/// setting counting as off: the deafen button shows exactly the deafen
/// setting, whatever the mute, and the mute button is on when the user is
/// muted or deafened.
pub proof fn law_toggles_follow_settings(mute: Option<bool>, deaf: Option<bool>, effects: Seq<PluginEffect>)
    requires
        toggles_set(mute, deaf, effects),
    ensures
        effects.len() == 2,
        effects[1] == PluginEffect::SetToggleState(VoiceToggle::Deafen, deaf == Some(true)),
        effects[0] == PluginEffect::SetToggleState(
            VoiceToggle::Mute,
            mute == Some(true) || deaf == Some(true),
        ),
{
}

/// The same, for the voice settings Discord reports or answers with; the
/// plugin state is left as it was.
pub proof fn law_voice_settings_events(o: PluginState, n: PluginState, mute: Option<bool>, deaf: Option<bool>, effects: Seq<PluginEffect>)
    requires
        rpc_event_handled(o, n, RpcEvent::VoiceSettingsUpdate { mute, deaf }, effects)
            || rpc_event_handled(o, n, RpcEvent::GetVoiceSettings { mute, deaf }, effects),
    ensures
        n == o,
        effects.len() == 2,
        effects[1] == PluginEffect::SetToggleState(VoiceToggle::Deafen, deaf == Some(true)),
        effects[0] == PluginEffect::SetToggleState(
            VoiceToggle::Mute,
            mute == Some(true) || deaf == Some(true),
        ),
{
    law_toggles_follow_settings(mute, deaf, effects);
}

/// A volume control set to `mute` always asks for mute and one set to
/// `unmute` always for unmute, whatever the user's current mute; only
/// `toggle` depends on it, asking for the opposite (mute when unknown).
pub proof fn law_mute_choice(current: Option<bool>)
    ensures
        mute_choice("mute"@, current),
        !mute_choice("unmute"@, current),
        mute_choice("toggle"@, current) == (current != Some(true)),
{
    reveal_strlit("mute");
    reveal_strlit("unmute");
    reveal_strlit("toggle");
    assert("mute"@.len() != "toggle"@.len());
    assert("mute"@.len() != "unmute"@.len());
    assert("unmute"@[0] != "toggle"@[0]);
}

/// The key names are ordered by is the whole name in lower case: on ASCII
/// text it keeps every character, with each capital lowered.
pub proof fn law_case_key_ascii(s: Seq<char>)
    requires
        forall|i: int| 0 <= i < s.len() ==> (#[trigger] s[i] as int) < 128,
    ensures
        case_key(s).len() == s.len(),
        forall|i: int|
            0 <= i < s.len() ==> #[trigger] case_key(s)[i] == (if 'A' <= s[i] && s[i] <= 'Z' {
                ((s[i] as int) + 32) as char
            } else {
                s[i]
            }),
{
}

/// In the participant list, a participant whose lower-case name comes
/// after another's is listed after it.
pub proof fn law_participants_ordered_by_name(list: Seq<VoiceParticipant>, m: Map<Seq<char>, VoiceParticipant>)
    requires
        is_participant_listing(list, m),
    ensures
        forall|i: int, j: int|
            0 <= i < list.len() && 0 <= j < list.len() && !chars_le(
                case_key(#[trigger] list[i].name@),
                case_key(#[trigger] list[j].name@),
            ) ==> j < i,
{
    assert forall|i: int, j: int|
        0 <= i < list.len() && 0 <= j < list.len() && !chars_le(
            case_key(#[trigger] list[i].name@),
            case_key(#[trigger] list[j].name@),
        ) implies j < i by {
        if i == j {
            lemma_chars_le_refl(case_key(list[i].name@));
        } else if i < j {
            assert(chars_le(name_key(list[i]), name_key(list[j])));
        }
    }
}

/// In the guild list, after the default sounds, a guild whose lower-case
/// name comes after another's is listed after it.
pub proof fn law_guilds_ordered_by_name(r: Seq<GuildInfo>, gs: Seq<GuildRecord>)
    requires
        is_guild_list_of(r, gs),
    ensures
        forall|i: int, j: int|
            1 <= i < r.len() && 1 <= j < r.len() && !chars_le(
                case_key(#[trigger] r[i].name@),
                case_key(#[trigger] r[j].name@),
            ) ==> j < i,
{
    let out = r.skip(1).map_values(|g: GuildInfo| guild_entry(g));
    let input = gs.map_values(|g: GuildRecord| guild_entry_of(g));
    let key = |e: (Seq<char>, Seq<char>, Option<Seq<char>>)| guild_entry_key(e);
    let p = choose|p: Seq<int>| is_stable_sort_of(out, input, key, p);
    assert forall|i: int, j: int|
        1 <= i < r.len() && 1 <= j < r.len() && !chars_le(
            case_key(#[trigger] r[i].name@),
            case_key(#[trigger] r[j].name@),
        ) implies j < i by {
        if i == j {
            lemma_chars_le_refl(case_key(r[i].name@));
        } else if i < j {
            assert(out[i - 1] == guild_entry(r[i]));
            assert(out[j - 1] == guild_entry(r[j]));
            assert(chars_le(key(out[i - 1]), key(out[j - 1])));
        }
    }
}

/// Following another voice channel, or none, drops every participant of
/// the one followed before; selecting the channel already followed keeps
/// them. Leaving voice altogether follows no channel and lists nobody.
pub proof fn law_channel_change_clears_participants(
    o: PluginState,
    n: PluginState,
    channel_id: Option<String>,
    guild_id: Option<String>,
    effects: Seq<PluginEffect>,
)
    requires
        rpc_event_handled(o, n, RpcEvent::VoiceChannelSelect { channel_id, guild_id }, effects),
    ensures
        normalized_channel(opt_chars(channel_id)) != opt_chars(o.subscribed_voice_channel)
            ==> n.voice_participants@ == Map::<Seq<char>, VoiceParticipant>::empty(),
        normalized_channel(opt_chars(channel_id)) == opt_chars(o.subscribed_voice_channel)
            ==> n.voice_participants@ == o.voice_participants@,
        channel_id is None ==> n.subscribed_voice_channel is None && (o.subscribed_voice_channel is Some
            ==> n.voice_participants@ == Map::<Seq<char>, VoiceParticipant>::empty()),
{
}

} // verus!

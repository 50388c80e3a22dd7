//! What the plugin knows of Discord between events: cached guilds,
//! channels and sounds, the requests still waiting for an answer, the
//! followed voice channel and its participants; and how each event from
//! Discord's RPC connection changes that and what it sets off.

use vstd::prelude::*;
use crate::channels::{
    build_guild_list, channel_cache_guild, channel_info_entries, filter_voice_channels,
    guild_entry, opt_chars, voice_channel_entries, ChannelRecord, GuildInfo, GuildRecord,
    VoiceChannelInfo,
};
use crate::participants::{
    is_participant_listing, participant_from, participants_from, VoiceParticipant, VoiceParticipants,
    VoiceStateRecord,
};
use crate::soundboard::{
    filter_soundboard_sounds, kept_sounds, sound_cache_guild, sound_guild_key, sound_guild_key_of,
    SoundboardSound,
};
use crate::str_map::StrMap;
use crate::text::{contains_str, has_substring, same_chars, trim, trim_str};

verus! {

/// A soundboard request waiting for Discord's answer: who asked, for which
/// guild.
pub struct PendingSoundboardRequest {
    pub instance_id: String,
    pub guild_id: String,
}

/// A channel listing request waiting for Discord's answer: who asked, for
/// which guild.
pub struct PendingVoiceChannelRequest {
    pub instance_id: String,
    pub guild_id: String,
}

/// The toggle buttons whose state follows the user's own voice settings.
#[derive(Clone, Copy, Debug, PartialEq, Eq, Structural)]
pub enum VoiceToggle {
    Mute,
    Deafen,
}

/// The state index a toggle button shows: 1 when active, else 0.
pub fn toggle_state_index(active: bool) -> (r: u16)
    ensures
        r == (if active { 1u16 } else { 0u16 }),
{
    if active {
        1
    } else {
        0
    }
}

/// What handling an event sets off, in order.
pub enum PluginEffect {
    /// Show these participants, already ordered, in the volume controls.
    BroadcastVoiceParticipants(Vec<VoiceParticipant>),
    /// Stop following the voice states of this channel.
    Unsubscribe(String),
    /// Follow the voice states of this channel.
    Subscribe(String),
    /// Ask Discord which voice channel the user is in.
    RequestSelectedVoiceChannel,
    /// Ask Discord for this channel's details.
    RequestChannelDetails(String),
    /// Show the toggle as on or off.
    SetToggleState(VoiceToggle, bool),
    /// Answer an instance's soundboard request.
    SendSoundsToInstance { instance_id: String, guild_id: String, sounds: Vec<SoundboardSound> },
    /// Answer an instance's channel listing request.
    SendChannelsToInstance { instance_id: String, guild_id: String, channels: Vec<VoiceChannelInfo> },
    /// Forget the stored access token and save the settings.
    ClearAccessToken,
    /// Forget the signed-in user.
    ClearAuthenticatedUser,
    /// Connect to Discord again, later.
    ScheduleReconnect,
}

/// An item from Discord's RPC connection, in plain values.
pub enum RpcEvent {
    Error { code: i64, message: String },
    VoiceSettingsUpdate { mute: Option<bool>, deaf: Option<bool> },
    VoiceChannelSelect { channel_id: Option<String>, guild_id: Option<String> },
    VoiceStateCreate(VoiceStateRecord),
    VoiceStateUpdate(VoiceStateRecord),
    VoiceStateDelete(VoiceStateRecord),
    SoundboardSounds(Vec<SoundboardSound>),
    /// An event the plugin does not act on.
    OtherEvent,
    GetVoiceSettings { mute: Option<bool>, deaf: Option<bool> },
    GetSelectedVoiceChannel(Option<ChannelRecord>),
    GetChannel(ChannelRecord),
    GetGuilds(Vec<GuildRecord>),
    GetSoundboardSounds { nonce: Option<String>, sounds: Vec<SoundboardSound> },
    GetChannels { nonce: Option<String>, channels: Vec<ChannelRecord> },
    /// A command answer the plugin does not act on.
    OtherCommand,
    SocketClosed,
}

/// The error code Discord gives when a command is not supported.
pub const UNSUPPORTED_COMMAND_CODE: i64 = 4002;

/// The error code Discord gives when the access token is refused.
pub const INVALID_TOKEN_CODE: i64 = 4006;

/// The message stored when Discord cannot list soundboard sounds.
pub open spec fn quick_select_unsupported() -> Seq<char> {
    "Quick Select is not supported by this Discord RPC client. Use Manual Entry below."@
}

/// Whether an error is Discord refusing the soundboard listing commands.
pub open spec fn is_soundboard_unsupported(code: i64, message: Seq<char>) -> bool {
    code == UNSUPPORTED_COMMAND_CODE && (has_substring(message, "REQUEST_SOUNDBOARD_SOUNDS"@)
        || has_substring(message, "GET_SOUNDBOARD_SOUNDS"@))
}

/// A channel id as the plugin follows it: trimmed, and none when blank.
pub open spec fn normalized_channel(channel_id: Option<Seq<char>>) -> Option<Seq<char>> {
    match channel_id {
        Some(c) => if trim(c).len() > 0 {
            Some(trim(c))
        } else {
            None
        },
        None => None,
    }
}

pub(crate) fn copy_sounds(v: &Vec<SoundboardSound>) -> (r: Vec<SoundboardSound>)
    ensures
        r@ == v@,
{
    let mut r: Vec<SoundboardSound> = Vec::new();
    let mut i: usize = 0;
    while i < v.len()
        invariant
            i <= v.len(),
            r@ == v@.take(i as int),
        decreases v.len() - i,
    {
        let s = &v[i];
        let emoji = match &s.emoji_name {
            Some(e) => Some(e.clone()),
            None => None,
        };
        r.push(
            SoundboardSound {
                sound_id: s.sound_id.clone(),
                name: s.name.clone(),
                emoji_name: emoji,
                guild_id: s.guild_id.clone(),
            },
        );
        i = i + 1;
        assert(r@ =~= v@.take(i as int));
    }
    assert(v@.take(v.len() as int) =~= v@);
    r
}

pub(crate) fn copy_channels(v: &Vec<VoiceChannelInfo>) -> (r: Vec<VoiceChannelInfo>)
    ensures
        r@ == v@,
{
    let mut r: Vec<VoiceChannelInfo> = Vec::new();
    let mut i: usize = 0;
    while i < v.len()
        invariant
            i <= v.len(),
            r@ == v@.take(i as int),
        decreases v.len() - i,
    {
        let c = &v[i];
        r.push(VoiceChannelInfo { channel_id: c.channel_id.clone(), name: c.name.clone() });
        i = i + 1;
        assert(r@ =~= v@.take(i as int));
    }
    assert(v@.take(v.len() as int) =~= v@);
    r
}

fn opt_clone(o: &Option<String>) -> (r: Option<String>)
    ensures
        r == *o,
{
    match o {
        Some(s) => Some(s.clone()),
        None => None,
    }
}

fn opt_same(a: &Option<String>, b: &Option<String>) -> (r: bool)
    ensures
        r == (opt_chars(*a) == opt_chars(*b)),
{
    match (a, b) {
        (Some(x), Some(y)) => same_chars(x.as_str(), y.as_str()),
        (None, None) => true,
        _ => false,
    }
}

/// The events of a change of followed channel from `prev` to `next`: none
/// when it is no change; else the cleared participants are shown, the old
/// channel is dropped and the new one followed.
pub open spec fn subscription_effects(
    prev: Option<Seq<char>>,
    next: Option<Seq<char>>,
    effects: Seq<PluginEffect>,
) -> bool {
    if next == prev {
        effects.len() == 0
    } else {
        &&& effects.len() == 1 + (if prev is Some {
            1int
        } else {
            0
        }) + (if next is Some {
            1int
        } else {
            0
        })
        &&& effects[0] matches PluginEffect::BroadcastVoiceParticipants(v) && v@.len() == 0
        &&& prev matches Some(p) ==> (effects[1] matches PluginEffect::Unsubscribe(c) && c@ == p)
        &&& next matches Some(q) ==> (effects[effects.len() - 1] matches PluginEffect::Subscribe(c)
            && c@ == q)
    }
}

/// What the plugin knows of Discord between events.
pub struct PluginState {
    /// Soundboard sounds by guild key.
    pub soundboard_sounds: StrMap<Vec<SoundboardSound>>,
    /// Soundboard requests by nonce.
    pub pending_soundboard_requests: StrMap<PendingSoundboardRequest>,
    /// Channel listing requests by nonce.
    pub pending_voice_channel_requests: StrMap<PendingVoiceChannelRequest>,
    pub soundboard_request_error: Option<String>,
    pub available_soundboard_guilds: Vec<GuildInfo>,
    pub guild_request_error: Option<String>,
    /// Voice channels by guild id.
    pub voice_channels: StrMap<Vec<VoiceChannelInfo>>,
    pub voice_channel_request_error: Option<String>,
    pub voice_participants: VoiceParticipants,
    /// The voice channel whose voice states the plugin follows.
    pub subscribed_voice_channel: Option<String>,
}

impl PluginState {
    /// Nothing known yet.
    pub fn new() -> (r: Self)
        ensures
            r.soundboard_sounds@ == Map::<Seq<char>, Vec<SoundboardSound>>::empty(),
            r.pending_soundboard_requests@ == Map::<Seq<char>, PendingSoundboardRequest>::empty(),
            r.pending_voice_channel_requests@ == Map::<Seq<char>, PendingVoiceChannelRequest>::empty(),
            r.soundboard_request_error is None,
            r.available_soundboard_guilds@.len() == 0,
            r.guild_request_error is None,
            r.voice_channels@ == Map::<Seq<char>, Vec<VoiceChannelInfo>>::empty(),
            r.voice_channel_request_error is None,
            r.voice_participants@ == Map::<Seq<char>, VoiceParticipant>::empty(),
            r.subscribed_voice_channel is None,
    {
        PluginState {
            soundboard_sounds: StrMap::new(),
            pending_soundboard_requests: StrMap::new(),
            pending_voice_channel_requests: StrMap::new(),
            soundboard_request_error: None,
            available_soundboard_guilds: Vec::new(),
            guild_request_error: None,
            voice_channels: StrMap::new(),
            voice_channel_request_error: None,
            voice_participants: VoiceParticipants::new(),
            subscribed_voice_channel: None,
        }
    }

    /// Drops the cached sounds of a guild.
    pub fn clear_soundboard_sounds_for_guild(&mut self, guild_id: &str)
        ensures
            final(self).soundboard_sounds@ == old(self).soundboard_sounds@.remove(guild_id@),
            final(self).soundboard_request_error == old(self).soundboard_request_error,
            final(self).available_soundboard_guilds == old(self).available_soundboard_guilds,
            final(self).guild_request_error == old(self).guild_request_error,
            final(self).voice_channels == old(self).voice_channels,
            final(self).voice_channel_request_error == old(self).voice_channel_request_error,
            keeps_pending(*old(self), *final(self)),
            keeps_voice(*old(self), *final(self)),
    {
        self.soundboard_sounds.remove(guild_id);
    }

    /// Records that the soundboard request with `nonce` was made by
    /// `instance_id` for `guild_id`.
    pub fn register_pending_soundboard_request(&mut self, nonce: &str, instance_id: &str, guild_id: &str)
        ensures
            soundboard_request_registered(*old(self), *final(self), nonce@, instance_id@, guild_id@),
    {
        let req = PendingSoundboardRequest {
            instance_id: String::from_str(instance_id),
            guild_id: String::from_str(guild_id),
        };
        self.pending_soundboard_requests.insert(String::from_str(nonce), req);
        assert(self.pending_soundboard_requests@.remove(nonce@) =~= old(self).pending_soundboard_requests@.remove(nonce@));
    }

    /// Takes the soundboard request with `nonce`, if one is waiting.
    pub fn unregister_pending_soundboard_request(&mut self, nonce: &str) -> (r: Option<PendingSoundboardRequest>)
        ensures
            soundboard_request_taken(*old(self), *final(self), nonce@, r),
    {
        self.pending_soundboard_requests.remove(nonce)
    }

    /// Forgets every waiting soundboard request.
    pub fn clear_pending_soundboard_requests(&mut self)
        ensures
            final(self).pending_soundboard_requests@ == Map::<Seq<char>, PendingSoundboardRequest>::empty(),
            final(self).pending_voice_channel_requests == old(self).pending_voice_channel_requests,
            keeps_caches(*old(self), *final(self)),
            keeps_voice(*old(self), *final(self)),
    {
        self.pending_soundboard_requests.clear();
    }

    /// Records that the channel listing request with `nonce` was made by
    /// `instance_id` for `guild_id`.
    pub fn register_pending_voice_channel_request(&mut self, nonce: &str, instance_id: &str, guild_id: &str)
        ensures
            voice_channel_request_registered(*old(self), *final(self), nonce@, instance_id@, guild_id@),
    {
        let req = PendingVoiceChannelRequest {
            instance_id: String::from_str(instance_id),
            guild_id: String::from_str(guild_id),
        };
        self.pending_voice_channel_requests.insert(String::from_str(nonce), req);
        assert(self.pending_voice_channel_requests@.remove(nonce@) =~= old(self).pending_voice_channel_requests@.remove(nonce@));
    }

    /// Takes the channel listing request with `nonce`, if one is waiting.
    pub fn unregister_pending_voice_channel_request(&mut self, nonce: &str) -> (r: Option<PendingVoiceChannelRequest>)
        ensures
            voice_channel_request_taken(*old(self), *final(self), nonce@, r),
    {
        self.pending_voice_channel_requests.remove(nonce)
    }

    /// Forgets every waiting channel listing request.
    pub fn clear_pending_voice_channel_requests(&mut self)
        ensures
            final(self).pending_voice_channel_requests@ == Map::<Seq<char>, PendingVoiceChannelRequest>::empty(),
            final(self).pending_soundboard_requests == old(self).pending_soundboard_requests,
            keeps_caches(*old(self), *final(self)),
            keeps_voice(*old(self), *final(self)),
    {
        self.pending_voice_channel_requests.clear();
    }

    /// Forgets the error of the last channel listing, as a new listing is
    /// asked for.
    pub fn clear_voice_channel_request_error(&mut self)
        ensures
            final(self).voice_channel_request_error is None,
            final(self).soundboard_sounds == old(self).soundboard_sounds,
            final(self).soundboard_request_error == old(self).soundboard_request_error,
            final(self).available_soundboard_guilds == old(self).available_soundboard_guilds,
            final(self).guild_request_error == old(self).guild_request_error,
            final(self).voice_channels == old(self).voice_channels,
            keeps_pending(*old(self), *final(self)),
            keeps_voice(*old(self), *final(self)),
    {
        self.voice_channel_request_error = None;
    }

    /// Stores the guild list and the error of the last guild request.
    pub fn broadcast_soundboard_guilds(&mut self, guilds: Vec<GuildInfo>, error: Option<String>)
        ensures
            final(self).available_soundboard_guilds == guilds,
            final(self).guild_request_error == error,
            final(self).soundboard_sounds == old(self).soundboard_sounds,
            final(self).voice_channels == old(self).voice_channels,
            final(self).voice_participants == old(self).voice_participants,
            final(self).subscribed_voice_channel == old(self).subscribed_voice_channel,
    {
        self.available_soundboard_guilds = guilds;
        self.guild_request_error = error;
    }

    /// Caches a channel listing: its voice channels go under the guild it
    /// was asked for (else that of its first channel), and the error of the
    /// last listing becomes `error`. Returns the voice channels.
    pub fn cache_voice_channels_response(
        &mut self,
        requested_guild_id: Option<String>,
        channels: Vec<ChannelRecord>,
        error: Option<String>,
    ) -> (r: Vec<VoiceChannelInfo>)
        ensures
            channel_info_entries(r@) == voice_channel_entries(channels@),
            match channel_cache_guild(opt_chars(requested_guild_id), channels@) {
                Some(g) => final(self).voice_channels@.contains_key(g) && final(self).voice_channels@[g]@ == r@
                    && final(self).voice_channels@.remove(g) == old(self).voice_channels@.remove(g),
                None => final(self).voice_channels@ == old(self).voice_channels@,
            },
            final(self).voice_channel_request_error == error,
            final(self).voice_participants == old(self).voice_participants,
            final(self).subscribed_voice_channel == old(self).subscribed_voice_channel,
            final(self).soundboard_sounds == old(self).soundboard_sounds,
            final(self).soundboard_request_error == old(self).soundboard_request_error,
            final(self).available_soundboard_guilds == old(self).available_soundboard_guilds,
            final(self).guild_request_error == old(self).guild_request_error,
            keeps_pending(*old(self), *final(self)),
    {
        let (cache_guild_id, filtered) = match &requested_guild_id {
            Some(g) => filter_voice_channels(Some(g.as_str()), channels),
            None => filter_voice_channels(None, channels),
        };
        if let Some(guild_id) = cache_guild_id {
            let copy = copy_channels(&filtered);
            let ghost g = guild_id@;
            self.voice_channels.insert(guild_id, copy);
            assert(self.voice_channels@.remove(g) =~= old(self).voice_channels@.remove(g));
        }
        self.voice_channel_request_error = error;
        filtered
    }

    /// Caches a sound listing: the sounds kept for the guild asked for go
    /// under it (else under the guild key of the first sound), and the error
    /// of the last listing becomes `error`. Returns the kept sounds.
    pub fn cache_soundboard_response(
        &mut self,
        requested_guild_id: Option<String>,
        sounds: Vec<SoundboardSound>,
        error: Option<String>,
    ) -> (r: Vec<SoundboardSound>)
        ensures
            r@ == kept_sounds(opt_chars(requested_guild_id), sounds@),
            match sound_cache_guild(opt_chars(requested_guild_id), sounds@) {
                Some(g) => final(self).soundboard_sounds@.contains_key(g) && final(self).soundboard_sounds@[g]@ == r@
                    && final(self).soundboard_sounds@.remove(g) == old(self).soundboard_sounds@.remove(g),
                None => final(self).soundboard_sounds@ == old(self).soundboard_sounds@,
            },
            final(self).soundboard_request_error == error,
            final(self).voice_participants == old(self).voice_participants,
            final(self).subscribed_voice_channel == old(self).subscribed_voice_channel,
            final(self).available_soundboard_guilds == old(self).available_soundboard_guilds,
            final(self).guild_request_error == old(self).guild_request_error,
            final(self).voice_channels == old(self).voice_channels,
            final(self).voice_channel_request_error == old(self).voice_channel_request_error,
            keeps_pending(*old(self), *final(self)),
    {
        let (cache_guild_id, filtered) = match &requested_guild_id {
            Some(g) => filter_soundboard_sounds(Some(g.as_str()), sounds),
            None => filter_soundboard_sounds(None, sounds),
        };
        if let Some(guild_id) = cache_guild_id {
            let copy = copy_sounds(&filtered);
            let ghost g = guild_id@;
            self.soundboard_sounds.insert(guild_id, copy);
            assert(self.soundboard_sounds@.remove(g) =~= old(self).soundboard_sounds@.remove(g));
        }
        self.soundboard_request_error = error;
        filtered
    }

    /// The participants, ordered by name ignoring case.
    pub fn current_voice_participants(&self) -> (r: Vec<VoiceParticipant>)
        ensures
            is_participant_listing(r@, self.voice_participants@),
    {
        self.voice_participants.sorted()
    }

    /// The participant with this user id.
    pub fn current_voice_participant(&self, user_id: &str) -> (r: Option<VoiceParticipant>)
        ensures
            match r {
                Some(p) => self.voice_participants@.contains_key(user_id@)
                    && self.voice_participants@[user_id@] == p,
                None => !self.voice_participants@.contains_key(user_id@),
            },
    {
        match self.voice_participants.get(user_id) {
            Some(p) => Some(p.duplicate()),
            None => None,
        }
    }

    /// The voice channel the plugin follows.
    pub fn current_subscribed_voice_channel(&self) -> (r: Option<String>)
        ensures
            r == self.subscribed_voice_channel,
    {
        opt_clone(&self.subscribed_voice_channel)
    }

    /// Applies a volume and local mute this client set for a user; when the
    /// user is present, the participants are to be shown again.
    pub fn apply_local_user_voice_update(&mut self, user_id: &str, volume: Option<i32>, mute: Option<bool>) -> (effects: Vec<PluginEffect>)
        ensures
            old(self).voice_participants@.contains_key(user_id@) ==> final(self).voice_participants@
                == old(self).voice_participants@.insert(
                user_id@,
                crate::participants::locally_updated(old(self).voice_participants@[user_id@], volume, mute),
            ) && effects.len() == 1,
            old(self).voice_participants@.contains_key(user_id@) ==> (effects@[0] matches
                PluginEffect::BroadcastVoiceParticipants(l) && is_participant_listing(
                l@,
                final(self).voice_participants@,
            )),
            !old(self).voice_participants@.contains_key(user_id@) ==> final(self).voice_participants@
                == old(self).voice_participants@ && effects.len() == 0,
            final(self).subscribed_voice_channel == old(self).subscribed_voice_channel,
            keeps_caches(*old(self), *final(self)),
            keeps_pending(*old(self), *final(self)),
    {
        let found = self.voice_participants.apply_local_user_voice_update(user_id, volume, mute);
        let mut effects: Vec<PluginEffect> = Vec::new();
        if found {
            effects.push(PluginEffect::BroadcastVoiceParticipants(self.voice_participants.sorted()));
        }
        effects
    }

    /// Forgets every participant; they are to be shown again, now none.
    pub fn clear_voice_participants(&mut self) -> (e: PluginEffect)
        ensures
            final(self).voice_participants@ == Map::<Seq<char>, VoiceParticipant>::empty(),
            e matches PluginEffect::BroadcastVoiceParticipants(v) && v.len() == 0,
            final(self).subscribed_voice_channel == old(self).subscribed_voice_channel,
            keeps_caches(*old(self), *final(self)),
            keeps_pending(*old(self), *final(self)),
    {
        self.voice_participants.clear();
        PluginEffect::BroadcastVoiceParticipants(Vec::new())
    }

    /// Follows the voice channel `channel_id` (trimmed; none when blank).
    /// When that is the channel already followed, nothing happens.
    /// Otherwise the participants are cleared and shown, the old channel's
    /// voice states are dropped and the new one's followed.
    pub fn sync_voice_channel_subscriptions(&mut self, channel_id: Option<String>) -> (effects: Vec<PluginEffect>)
        ensures
            synced(
                *old(self),
                final(self).subscribed_voice_channel,
                final(self).voice_participants@,
                opt_chars(channel_id),
                effects@,
            ),
            keeps_caches(*old(self), *final(self)),
            keeps_pending(*old(self), *final(self)),
    {
        let normalized = match &channel_id {
            Some(c) => {
                let t = trim_str(c.as_str());
                if t.unicode_len() == 0 {
                    None
                } else {
                    Some(t)
                }
            },
            None => None,
        };
        let mut effects: Vec<PluginEffect> = Vec::new();
        if opt_same(&self.subscribed_voice_channel, &normalized) {
            return effects;
        }
        let previous = opt_clone(&self.subscribed_voice_channel);
        self.subscribed_voice_channel = opt_clone(&normalized);
        self.voice_participants.clear();
        effects.push(PluginEffect::BroadcastVoiceParticipants(Vec::new()));
        if let Some(prev) = previous {
            effects.push(PluginEffect::Unsubscribe(prev));
        }
        if let Some(next) = normalized {
            effects.push(PluginEffect::Subscribe(next));
        }
        effects
    }

    fn handle_error(&mut self, code: i64, message: &String) -> (effects: Vec<PluginEffect>)
        ensures
            error_handled(*old(self), *final(self), code, message@, effects@),
    {
        let mut effects: Vec<PluginEffect> = Vec::new();
        if code == UNSUPPORTED_COMMAND_CODE && (contains_str(message.as_str(), "REQUEST_SOUNDBOARD_SOUNDS")
            || contains_str(message.as_str(), "GET_SOUNDBOARD_SOUNDS")) {
            self.soundboard_request_error = Some(
                String::from_str(
                    "Quick Select is not supported by this Discord RPC client. Use Manual Entry below.",
                ),
            );
            self.pending_soundboard_requests.clear();
        }
        if code == INVALID_TOKEN_CODE {
            effects.push(PluginEffect::ClearAccessToken);
            self.pending_soundboard_requests.clear();
            self.pending_voice_channel_requests.clear();
            effects.push(PluginEffect::ScheduleReconnect);
        }
        effects
    }

    /// The toggle states for the user's own mute and deafen.
    pub fn voice_toggle_effects(mute: Option<bool>, deaf: Option<bool>) -> (effects: Vec<PluginEffect>)
        ensures
            toggles_set(mute, deaf, effects@),
    {
        let m = match mute {
            Some(b) => b,
            None => false,
        };
        let d = match deaf {
            Some(b) => b,
            None => false,
        };
        let mut effects: Vec<PluginEffect> = Vec::new();
        effects.push(PluginEffect::SetToggleState(VoiceToggle::Mute, m || d));
        effects.push(PluginEffect::SetToggleState(VoiceToggle::Deafen, d));
        effects
    }

    fn handle_voice_state_upsert(&mut self, voice: &VoiceStateRecord) -> (effects: Vec<PluginEffect>)
        ensures
            voice_state_upserted(*old(self), *final(self), *voice, effects@),
    {
        let changed = self.voice_participants.upsert(voice);
        let mut effects: Vec<PluginEffect> = Vec::new();
        if changed {
            effects.push(PluginEffect::BroadcastVoiceParticipants(self.voice_participants.sorted()));
        }
        effects
    }

    fn handle_voice_state_delete(&mut self, voice: &VoiceStateRecord) -> (effects: Vec<PluginEffect>)
        ensures
            voice_state_deleted(*old(self), *final(self), *voice, effects@),
    {
        let named = self.voice_participants.remove_user(voice);
        let mut effects: Vec<PluginEffect> = Vec::new();
        if named {
            effects.push(PluginEffect::BroadcastVoiceParticipants(self.voice_participants.sorted()));
        }
        effects
    }

    fn handle_selected_voice_channel(&mut self, channel: Option<ChannelRecord>) -> (effects: Vec<PluginEffect>)
        ensures
            selected_handled(*old(self), *final(self), channel, effects@),
    {
        let channel_id = match &channel {
            Some(c) => Some(c.id.clone()),
            None => None,
        };
        let mut effects = self.sync_voice_channel_subscriptions(channel_id);
        let ghost synced_effects = effects@;
        let ghost after_sync = *self;
        match channel {
            Some(c) => {
                let id = c.id;
                let snapshot: Vec<VoiceStateRecord> = match c.voice_states {
                    Some(v) => v,
                    None => Vec::new(),
                };
                self.voice_participants.replace_from_states(&snapshot);
                effects.push(PluginEffect::BroadcastVoiceParticipants(self.voice_participants.sorted()));
                if snapshot.len() == 0 {
                    effects.push(PluginEffect::RequestChannelDetails(id));
                    assert(effects@.take(effects.len() - 2) =~= synced_effects);
                } else {
                    assert(effects@.take(effects.len() - 1) =~= synced_effects);
                }
            },
            None => {
                assert(effects@.take(effects.len() as int) =~= synced_effects);
            },
        }
        effects
    }

    fn handle_get_channel(&mut self, c: ChannelRecord) -> (effects: Vec<PluginEffect>)
        ensures
            channel_details_handled(*old(self), *final(self), c, effects@),
    {
        let ghost c0 = c;
        let mut effects: Vec<PluginEffect> = Vec::new();
        let current = Some(c.id.clone());
        if opt_same(&self.subscribed_voice_channel, &current) {
            let snapshot: Vec<VoiceStateRecord> = match c.voice_states {
                Some(v) => v,
                None => Vec::new(),
            };
            self.voice_participants.replace_from_states(&snapshot);
            effects.push(PluginEffect::BroadcastVoiceParticipants(self.voice_participants.sorted()));
        }
        effects
    }

    fn handle_get_soundboard_sounds(&mut self, nonce: Option<String>, sounds: Vec<SoundboardSound>) -> (effects: Vec<PluginEffect>)
        ensures
            sounds_answer_handled(*old(self), *final(self), opt_chars(nonce), sounds@, effects@),
    {
        let ghost all = sounds@;
        let pending = match &nonce {
            Some(k) => self.pending_soundboard_requests.remove(k.as_str()),
            None => None,
        };
        let ghost mid = *self;
        let requested = match &pending {
            Some(p) => Some(p.guild_id.clone()),
            None => None,
        };
        let kept = self.cache_soundboard_response(requested, sounds, None);
        let mut effects: Vec<PluginEffect> = Vec::new();
        let ghost kept_view = kept@;
        if let Some(req) = pending {
            effects.push(
                PluginEffect::SendSoundsToInstance {
                    instance_id: req.instance_id,
                    guild_id: req.guild_id,
                    sounds: kept,
                },
            );
        }
        proof {
            let o = *old(self);
            let pend = pending_sounds_for(o, opt_chars(nonce));
            assert(pend == pending);
            assert(sounds_cached(o, *self, opt_chars(requested), all, kept_view));
            assert(pend is Some ==> effects.len() == 1 && (effects@[0] matches PluginEffect::SendSoundsToInstance { instance_id, guild_id, sounds: sent } && instance_id == pend->0.instance_id && guild_id == pend->0.guild_id && sent@ == kept_view));
        }
        effects
    }

    fn handle_get_channels(&mut self, nonce: Option<String>, channels: Vec<ChannelRecord>) -> (effects: Vec<PluginEffect>)
        ensures
            channels_answer_handled(*old(self), *final(self), opt_chars(nonce), channels@, effects@),
    {
        let ghost all = channels@;
        let pending = match &nonce {
            Some(k) => self.pending_voice_channel_requests.remove(k.as_str()),
            None => None,
        };
        let requested = match &pending {
            Some(p) => Some(p.guild_id.clone()),
            None => None,
        };
        let kept = self.cache_voice_channels_response(requested, channels, None);
        let mut effects: Vec<PluginEffect> = Vec::new();
        let ghost kept_view = kept@;
        if let Some(req) = pending {
            effects.push(
                PluginEffect::SendChannelsToInstance {
                    instance_id: req.instance_id,
                    guild_id: req.guild_id,
                    channels: kept,
                },
            );
        }
        proof {
            let o = *old(self);
            let pend = pending_channels_for(o, opt_chars(nonce));
            assert(pend == pending);
            let req_spec = match pend {
                Some(p) => Some(p.guild_id@),
                None => None,
            };
            assert(channels_cached(o, *self, opt_chars(requested), all, kept_view));
            assert(channels_cached(o, *self, req_spec, all, kept_view));
            assert(channels_cached(o, *self, requested_channels_guild(o, opt_chars(nonce)), all, kept_view));
            assert(pend is Some ==> effects.len() == 1 && (effects@[0] matches PluginEffect::SendChannelsToInstance { instance_id, guild_id, channels: sent } && instance_id == pend->0.instance_id && guild_id == pend->0.guild_id && sent@ == kept_view));
            assert(channels_answer_handled(o, *self, opt_chars(nonce), all, effects@));
        }
        effects
    }

    /// Handles one item from Discord's RPC connection: updates what the
    /// plugin knows and returns what the item sets off, in order.
    pub fn handle_rpc_event(&mut self, event: RpcEvent) -> (effects: Vec<PluginEffect>)
        ensures
            rpc_event_handled(*old(self), *final(self), event, effects@),
    {
        let ghost e = event;
        match event {
            RpcEvent::Error { code, message } => self.handle_error(code, &message),
            RpcEvent::VoiceSettingsUpdate { mute, deaf } => Self::voice_toggle_effects(mute, deaf),
            RpcEvent::GetVoiceSettings { mute, deaf } => Self::voice_toggle_effects(mute, deaf),
            RpcEvent::VoiceChannelSelect { channel_id, guild_id } => {
                let is_some = channel_id.is_some();
                let copy = opt_clone(&channel_id);
                let mut effects = self.sync_voice_channel_subscriptions(copy);
                let ghost synced_effects = effects@;
                if is_some {
                    effects.push(PluginEffect::RequestSelectedVoiceChannel);
                    assert(effects@.take(effects.len() - 1) =~= synced_effects);
                } else {
                    assert(effects@.take(effects.len() as int) =~= synced_effects);
                }
                effects
            },
            RpcEvent::VoiceStateCreate(v) => self.handle_voice_state_upsert(&v),
            RpcEvent::VoiceStateUpdate(v) => self.handle_voice_state_upsert(&v),
            RpcEvent::VoiceStateDelete(v) => self.handle_voice_state_delete(&v),
            RpcEvent::SoundboardSounds(sounds) => {
                let ghost all = sounds@;
                let requested = if sounds.len() > 0 {
                    Some(sound_guild_key_of(sounds[0].guild_id.as_str()))
                } else {
                    None
                };
                let kept = self.cache_soundboard_response(requested, sounds, None);
                assert(sounds_cached(*old(self), *self, opt_chars(requested), all, kept@));
                Vec::new()
            },
            RpcEvent::GetSelectedVoiceChannel(channel) => self.handle_selected_voice_channel(channel),
            RpcEvent::GetChannel(c) => self.handle_get_channel(c),
            RpcEvent::GetGuilds(gs) => {
                let guilds = build_guild_list(gs);
                self.available_soundboard_guilds = guilds;
                self.guild_request_error = None;
                Vec::new()
            },
            RpcEvent::GetSoundboardSounds { nonce, sounds } => self.handle_get_soundboard_sounds(nonce, sounds),
            RpcEvent::GetChannels { nonce, channels } => self.handle_get_channels(nonce, channels),
            RpcEvent::SocketClosed => {
                let mut effects: Vec<PluginEffect> = Vec::new();
                self.voice_participants.clear();
                effects.push(PluginEffect::BroadcastVoiceParticipants(Vec::new()));
                effects.push(PluginEffect::ClearAuthenticatedUser);
                self.pending_soundboard_requests.clear();
                self.pending_voice_channel_requests.clear();
                effects.push(PluginEffect::ScheduleReconnect);
                effects
            },
            RpcEvent::OtherEvent => Vec::new(),
            RpcEvent::OtherCommand => Vec::new(),
        }
    }
}

/// The request with `nonce` was recorded as made by `instance_id` for
/// `guild_id`; nothing else changed.
pub open spec fn soundboard_request_registered(o: PluginState, n: PluginState, nonce: Seq<char>, instance_id: Seq<char>, guild_id: Seq<char>) -> bool {
    &&& n.pending_soundboard_requests@.contains_key(nonce)
    &&& n.pending_soundboard_requests@[nonce].instance_id@ == instance_id
    &&& n.pending_soundboard_requests@[nonce].guild_id@ == guild_id
    &&& n.pending_soundboard_requests@.remove(nonce) == o.pending_soundboard_requests@.remove(nonce)
    &&& n.pending_voice_channel_requests == o.pending_voice_channel_requests
    &&& keeps_caches(o, n)
    &&& keeps_voice(o, n)
}

/// The request waiting under `nonce` was taken, as `taken`; nothing else
/// changed.
pub open spec fn soundboard_request_taken(o: PluginState, n: PluginState, nonce: Seq<char>, taken: Option<PendingSoundboardRequest>) -> bool {
    &&& n.pending_soundboard_requests@ == o.pending_soundboard_requests@.remove(nonce)
    &&& taken == (if o.pending_soundboard_requests@.contains_key(nonce) {
        Some(o.pending_soundboard_requests@[nonce])
    } else {
        None
    })
    &&& n.pending_voice_channel_requests == o.pending_voice_channel_requests
    &&& keeps_caches(o, n)
    &&& keeps_voice(o, n)
}

/// The request with `nonce` was recorded as made by `instance_id` for
/// `guild_id`; nothing else changed.
pub open spec fn voice_channel_request_registered(o: PluginState, n: PluginState, nonce: Seq<char>, instance_id: Seq<char>, guild_id: Seq<char>) -> bool {
    &&& n.pending_voice_channel_requests@.contains_key(nonce)
    &&& n.pending_voice_channel_requests@[nonce].instance_id@ == instance_id
    &&& n.pending_voice_channel_requests@[nonce].guild_id@ == guild_id
    &&& n.pending_voice_channel_requests@.remove(nonce) == o.pending_voice_channel_requests@.remove(nonce)
    &&& n.pending_soundboard_requests == o.pending_soundboard_requests
    &&& keeps_caches(o, n)
    &&& keeps_voice(o, n)
}

/// The request waiting under `nonce` was taken, as `taken`; nothing else
/// changed.
pub open spec fn voice_channel_request_taken(o: PluginState, n: PluginState, nonce: Seq<char>, taken: Option<PendingVoiceChannelRequest>) -> bool {
    &&& n.pending_voice_channel_requests@ == o.pending_voice_channel_requests@.remove(nonce)
    &&& taken == (if o.pending_voice_channel_requests@.contains_key(nonce) {
        Some(o.pending_voice_channel_requests@[nonce])
    } else {
        None
    })
    &&& n.pending_soundboard_requests == o.pending_soundboard_requests
    &&& keeps_caches(o, n)
    &&& keeps_voice(o, n)
}

/// The caches are as they were.
pub open spec fn keeps_caches(o: PluginState, n: PluginState) -> bool {
    &&& n.soundboard_sounds == o.soundboard_sounds
    &&& n.soundboard_request_error == o.soundboard_request_error
    &&& n.available_soundboard_guilds == o.available_soundboard_guilds
    &&& n.guild_request_error == o.guild_request_error
    &&& n.voice_channels == o.voice_channels
    &&& n.voice_channel_request_error == o.voice_channel_request_error
}

/// The waiting requests are as they were.
pub open spec fn keeps_pending(o: PluginState, n: PluginState) -> bool {
    &&& n.pending_soundboard_requests == o.pending_soundboard_requests
    &&& n.pending_voice_channel_requests == o.pending_voice_channel_requests
}

/// The followed channel and its participants are as they were.
pub open spec fn keeps_voice(o: PluginState, n: PluginState) -> bool {
    &&& n.voice_participants == o.voice_participants
    &&& n.subscribed_voice_channel == o.subscribed_voice_channel
}

/// A sound listing was cached with no error: `kept` went under the guild it
/// belongs to; nothing else changed but the sound cache and its error.
pub open spec fn sounds_cached(
    o: PluginState,
    n: PluginState,
    requested: Option<Seq<char>>,
    sounds: Seq<SoundboardSound>,
    kept: Seq<SoundboardSound>,
) -> bool {
    &&& kept == kept_sounds(requested, sounds)
    &&& match sound_cache_guild(requested, sounds) {
        Some(g) => n.soundboard_sounds@.contains_key(g) && n.soundboard_sounds@[g]@ == kept
            && n.soundboard_sounds@.remove(g) == o.soundboard_sounds@.remove(g),
        None => n.soundboard_sounds@ == o.soundboard_sounds@,
    }
    &&& n.soundboard_request_error is None
    &&& n.available_soundboard_guilds == o.available_soundboard_guilds
    &&& n.guild_request_error == o.guild_request_error
    &&& n.voice_channels == o.voice_channels
    &&& n.voice_channel_request_error == o.voice_channel_request_error
    &&& keeps_voice(o, n)
}

/// A channel listing was cached with no error: `kept` went under the guild
/// it belongs to; nothing else changed but the channel cache and its error.
pub open spec fn channels_cached(
    o: PluginState,
    n: PluginState,
    requested: Option<Seq<char>>,
    channels: Seq<ChannelRecord>,
    kept: Seq<VoiceChannelInfo>,
) -> bool {
    &&& channel_info_entries(kept) == voice_channel_entries(channels)
    &&& match channel_cache_guild(requested, channels) {
        Some(g) => n.voice_channels@.contains_key(g) && n.voice_channels@[g]@ == kept
            && n.voice_channels@.remove(g) == o.voice_channels@.remove(g),
        None => n.voice_channels@ == o.voice_channels@,
    }
    &&& n.voice_channel_request_error is None
    &&& n.soundboard_sounds == o.soundboard_sounds
    &&& n.soundboard_request_error == o.soundboard_request_error
    &&& n.available_soundboard_guilds == o.available_soundboard_guilds
    &&& n.guild_request_error == o.guild_request_error
    &&& keeps_voice(o, n)
}

/// The voice states a channel carries; none when it carries none.
pub open spec fn channel_snapshot(c: ChannelRecord) -> Seq<VoiceStateRecord> {
    match c.voice_states {
        Some(v) => v@,
        None => Seq::empty(),
    }
}

/// How an error from Discord was handled: a refused soundboard listing
/// stores the quick-select message and drops the waiting soundboard
/// requests; a refused token drops every waiting request, and the token is
/// cleared and a reconnection scheduled.
pub open spec fn error_handled(o: PluginState, n: PluginState, code: i64, message: Seq<char>, effects: Seq<PluginEffect>) -> bool {
    let sb = is_soundboard_unsupported(code, message);
    let token = code == INVALID_TOKEN_CODE;
    &&& opt_chars(n.soundboard_request_error) == (if sb {
        Some(quick_select_unsupported())
    } else {
        opt_chars(o.soundboard_request_error)
    })
    &&& !sb ==> n.soundboard_request_error == o.soundboard_request_error
    &&& n.pending_soundboard_requests@ == (if sb || token {
        Map::empty()
    } else {
        o.pending_soundboard_requests@
    })
    &&& n.pending_voice_channel_requests@ == (if token {
        Map::empty()
    } else {
        o.pending_voice_channel_requests@
    })
    &&& token ==> effects.len() == 2 && effects[0] is ClearAccessToken && effects[1] is ScheduleReconnect
    &&& !token ==> effects.len() == 0
    &&& n.soundboard_sounds == o.soundboard_sounds
    &&& n.available_soundboard_guilds == o.available_soundboard_guilds
    &&& n.guild_request_error == o.guild_request_error
    &&& n.voice_channels == o.voice_channels
    &&& n.voice_channel_request_error == o.voice_channel_request_error
    &&& keeps_voice(o, n)
}

/// The toggles follow the user's own voice settings: mute shows when muted
/// or deafened, deafen when deafened; unknown settings count as off.
pub open spec fn toggles_set(mute: Option<bool>, deaf: Option<bool>, effects: Seq<PluginEffect>) -> bool {
    let m = match mute {
        Some(b) => b,
        None => false,
    };
    let d = match deaf {
        Some(b) => b,
        None => false,
    };
    &&& effects.len() == 2
    &&& effects[0] == PluginEffect::SetToggleState(VoiceToggle::Mute, m || d)
    &&& effects[1] == PluginEffect::SetToggleState(VoiceToggle::Deafen, d)
}

/// The participants once the channel `channel_id` is followed: unchanged
/// when it was followed already, else none.
pub open spec fn participants_after_sync(o: PluginState, channel_id: Option<Seq<char>>) -> Map<Seq<char>, VoiceParticipant> {
    if normalized_channel(channel_id) == opt_chars(o.subscribed_voice_channel) {
        o.voice_participants@
    } else {
        Map::empty()
    }
}

/// Following the channel `channel_id`: the channel followed becomes its
/// trimmed id, and a change clears the participants.
pub open spec fn synced(o: PluginState, n_sub: Option<String>, n_participants: Map<Seq<char>, VoiceParticipant>, channel_id: Option<Seq<char>>, effects: Seq<PluginEffect>) -> bool {
    let next = normalized_channel(channel_id);
    &&& opt_chars(n_sub) == next
    &&& subscription_effects(opt_chars(o.subscribed_voice_channel), next, effects)
    &&& n_participants == participants_after_sync(o, channel_id)
}

/// Discord's answer naming the user's voice channel: it is followed, and
/// its voice states become the participants, which are shown; when it came
/// without any, the channel's details are asked for.
pub open spec fn selected_handled(o: PluginState, n: PluginState, channel: Option<ChannelRecord>, effects: Seq<PluginEffect>) -> bool {
    let channel_id = match channel {
        Some(c) => Some(c.id@),
        None => None,
    };
    let tail = match channel {
        Some(c) => if channel_snapshot(c).len() == 0 { 2int } else { 1int },
        None => 0int,
    };
    &&& effects.len() >= tail
    &&& synced(
        o,
        n.subscribed_voice_channel,
        if channel is Some {
            participants_after_sync(o, channel_id)
        } else {
            n.voice_participants@
        },
        channel_id,
        effects.take(effects.len() - tail),
    )
    &&& channel matches Some(c) ==> {
        &&& n.voice_participants@ == participants_from(channel_snapshot(c))
        &&& effects[effects.len() - tail] matches PluginEffect::BroadcastVoiceParticipants(v) && is_participant_listing(v@, n.voice_participants@)
        &&& channel_snapshot(c).len() == 0 ==> (effects[effects.len() - 1] matches PluginEffect::RequestChannelDetails(id) && id@ == c.id@)
    }
    &&& keeps_caches(o, n)
    &&& keeps_pending(o, n)
}

/// How the plugin answers an item from Discord: the new state and what it
/// sets off, for each kind of item.
pub open spec fn rpc_event_handled(o: PluginState, n: PluginState, event: RpcEvent, effects: Seq<PluginEffect>) -> bool {
    match event {
        RpcEvent::Error { code, message } => error_handled(o, n, code, message@, effects),
        RpcEvent::VoiceSettingsUpdate { mute, deaf } => n == o && toggles_set(mute, deaf, effects),
        RpcEvent::GetVoiceSettings { mute, deaf } => n == o && toggles_set(mute, deaf, effects),
        RpcEvent::VoiceChannelSelect { channel_id, guild_id } => channel_select_handled(o, n, opt_chars(channel_id), effects),
        RpcEvent::VoiceStateCreate(v) => voice_state_upserted(o, n, v, effects),
        RpcEvent::VoiceStateUpdate(v) => voice_state_upserted(o, n, v, effects),
        RpcEvent::VoiceStateDelete(v) => voice_state_deleted(o, n, v, effects),
        RpcEvent::SoundboardSounds(sounds) => sounds_event_handled(o, n, sounds@, effects),
        RpcEvent::GetSelectedVoiceChannel(channel) => selected_handled(o, n, channel, effects),
        RpcEvent::GetChannel(c) => channel_details_handled(o, n, c, effects),
        RpcEvent::GetGuilds(gs) => guilds_handled(o, n, gs@, effects),
        RpcEvent::GetSoundboardSounds { nonce, sounds } => sounds_answer_handled(o, n, opt_chars(nonce), sounds@, effects),
        RpcEvent::GetChannels { nonce, channels } => channels_answer_handled(o, n, opt_chars(nonce), channels@, effects),
        RpcEvent::SocketClosed => socket_closed_handled(o, n, effects),
        RpcEvent::OtherEvent => n == o && effects.len() == 0,
        RpcEvent::OtherCommand => n == o && effects.len() == 0,
    }
}

/// The user joined or left a voice channel: it is followed, and when one
/// was joined, Discord is asked which it is.
pub open spec fn channel_select_handled(o: PluginState, n: PluginState, channel_id: Option<Seq<char>>, effects: Seq<PluginEffect>) -> bool {
    let k = if channel_id is Some { effects.len() - 1 } else { effects.len() as int };
    &&& 0 <= k
    &&& synced(o, n.subscribed_voice_channel, n.voice_participants@, channel_id, effects.take(k))
    &&& channel_id is Some ==> effects[effects.len() - 1] is RequestSelectedVoiceChannel
    &&& keeps_caches(o, n)
    &&& keeps_pending(o, n)
}

/// A voice state's user left: the participant is removed and the rest shown.
pub open spec fn voice_state_deleted(o: PluginState, n: PluginState, v: VoiceStateRecord, effects: Seq<PluginEffect>) -> bool {
    &&& n.voice_participants@ == (match v.user {
        Some(u) => o.voice_participants@.remove(u.id@),
        None => o.voice_participants@,
    })
    &&& v.user is Some ==> effects.len() == 1 && (effects[0] matches PluginEffect::BroadcastVoiceParticipants(l) && is_participant_listing(l@, n.voice_participants@))
    &&& v.user is None ==> effects.len() == 0
    &&& n.subscribed_voice_channel == o.subscribed_voice_channel
    &&& keeps_caches(o, n)
    &&& keeps_pending(o, n)
}

/// The guild a pushed sound listing belongs to: that of its first sound.
pub open spec fn pushed_sounds_guild(sounds: Seq<SoundboardSound>) -> Option<Seq<char>> {
    if sounds.len() > 0 {
        Some(sound_guild_key(sounds[0].guild_id@))
    } else {
        None
    }
}

/// Discord pushed a sound listing: it is cached under its guild.
pub open spec fn sounds_event_handled(o: PluginState, n: PluginState, sounds: Seq<SoundboardSound>, effects: Seq<PluginEffect>) -> bool {
    &&& sounds_cached(o, n, pushed_sounds_guild(sounds), sounds, kept_sounds(pushed_sounds_guild(sounds), sounds))
    &&& keeps_pending(o, n)
    &&& effects.len() == 0
}

/// Discord answered with a channel's details: when it is the followed
/// channel, its voice states become the participants, which are shown;
/// else nothing happens.
pub open spec fn channel_details_handled(o: PluginState, n: PluginState, c: ChannelRecord, effects: Seq<PluginEffect>) -> bool {
    if opt_chars(o.subscribed_voice_channel) == Some(c.id@) {
        &&& n.voice_participants@ == participants_from(channel_snapshot(c))
        &&& effects.len() == 1
        &&& effects[0] matches PluginEffect::BroadcastVoiceParticipants(l) && is_participant_listing(l@, n.voice_participants@)
        &&& n.subscribed_voice_channel == o.subscribed_voice_channel
        &&& keeps_caches(o, n)
        &&& keeps_pending(o, n)
    } else {
        n == o && effects.len() == 0
    }
}

/// Discord listed the user's guilds: they become the guild list, and the
/// guild error is cleared.
pub open spec fn guilds_handled(o: PluginState, n: PluginState, gs: Seq<GuildRecord>, effects: Seq<PluginEffect>) -> bool {
    &&& crate::channels::is_guild_list_of(n.available_soundboard_guilds@, gs)
    &&& n.guild_request_error is None
    &&& n.soundboard_sounds == o.soundboard_sounds
    &&& n.soundboard_request_error == o.soundboard_request_error
    &&& n.voice_channels == o.voice_channels
    &&& n.voice_channel_request_error == o.voice_channel_request_error
    &&& keeps_voice(o, n)
    &&& keeps_pending(o, n)
    &&& effects.len() == 0
}

/// The soundboard request waiting under `nonce`, if any.
pub open spec fn pending_sounds_for(o: PluginState, nonce: Option<Seq<char>>) -> Option<PendingSoundboardRequest> {
    match nonce {
        Some(k) => if o.pending_soundboard_requests@.contains_key(k) {
            Some(o.pending_soundboard_requests@[k])
        } else {
            None
        },
        None => None,
    }
}

/// The channel listing request waiting under `nonce`, if any.
pub open spec fn pending_channels_for(o: PluginState, nonce: Option<Seq<char>>) -> Option<PendingVoiceChannelRequest> {
    match nonce {
        Some(k) => if o.pending_voice_channel_requests@.contains_key(k) {
            Some(o.pending_voice_channel_requests@[k])
        } else {
            None
        },
        None => None,
    }
}

/// Discord answered a soundboard request: the request waiting under its
/// nonce is taken; the sounds kept for its guild (all, when none waited)
/// are cached; and the instance that asked gets them.
pub open spec fn sounds_answer_handled(o: PluginState, n: PluginState, nonce: Option<Seq<char>>, sounds: Seq<SoundboardSound>, effects: Seq<PluginEffect>) -> bool {
    let pending = pending_sounds_for(o, nonce);
    let requested = match pending {
        Some(p) => Some(p.guild_id@),
        None => None,
    };
    let kept = kept_sounds(requested, sounds);
    &&& n.pending_soundboard_requests@ == (match nonce {
        Some(k) => o.pending_soundboard_requests@.remove(k),
        None => o.pending_soundboard_requests@,
    })
    &&& n.pending_voice_channel_requests == o.pending_voice_channel_requests
    &&& sounds_cached(o, n, requested, sounds, kept)
    &&& pending is Some ==> effects.len() == 1 && (effects[0] matches PluginEffect::SendSoundsToInstance { instance_id, guild_id, sounds: sent } && instance_id == pending->0.instance_id && guild_id == pending->0.guild_id && sent@ == kept)
    &&& pending is None ==> effects.len() == 0
}

/// The guild of the channel listing request waiting under `nonce`, if any.
pub open spec fn requested_channels_guild(o: PluginState, nonce: Option<Seq<char>>) -> Option<Seq<char>> {
    match pending_channels_for(o, nonce) {
        Some(p) => Some(p.guild_id@),
        None => None,
    }
}

/// Discord answered a channel listing request: the request waiting under
/// its nonce is taken; the listing's voice channels are cached; and the
/// instance that asked gets them.
pub open spec fn channels_answer_handled(o: PluginState, n: PluginState, nonce: Option<Seq<char>>, channels: Seq<ChannelRecord>, effects: Seq<PluginEffect>) -> bool {
    let pending = pending_channels_for(o, nonce);
    &&& n.pending_voice_channel_requests@ == (match nonce {
        Some(k) => o.pending_voice_channel_requests@.remove(k),
        None => o.pending_voice_channel_requests@,
    })
    &&& n.pending_soundboard_requests == o.pending_soundboard_requests
    &&& exists|kept: Seq<VoiceChannelInfo>| {
        &&& #[trigger] channels_cached(o, n, requested_channels_guild(o, nonce), channels, kept)
        &&& pending is Some ==> effects.len() == 1 && (effects[0] matches PluginEffect::SendChannelsToInstance { instance_id, guild_id, channels: sent } && instance_id == pending->0.instance_id && guild_id == pending->0.guild_id && sent@ == kept)
        &&& pending is None ==> effects.len() == 0
    }
}

/// The connection closed: the participants and every waiting request are
/// dropped; the now empty participants are shown, the signed-in user is
/// forgotten and a reconnection scheduled.
pub open spec fn socket_closed_handled(o: PluginState, n: PluginState, effects: Seq<PluginEffect>) -> bool {
    &&& n.voice_participants@ == Map::<Seq<char>, VoiceParticipant>::empty()
    &&& n.pending_soundboard_requests@ == Map::<Seq<char>, PendingSoundboardRequest>::empty()
    &&& n.pending_voice_channel_requests@ == Map::<Seq<char>, PendingVoiceChannelRequest>::empty()
    &&& n.subscribed_voice_channel == o.subscribed_voice_channel
    &&& keeps_caches(o, n)
    &&& effects.len() == 3
    &&& effects[0] matches PluginEffect::BroadcastVoiceParticipants(l) && l@.len() == 0
    &&& effects[1] is ClearAuthenticatedUser
    &&& effects[2] is ScheduleReconnect
}

/// A voice state added or replaced its user's participant, which is shown.
pub open spec fn voice_state_upserted(o: PluginState, n: PluginState, v: VoiceStateRecord, effects: Seq<PluginEffect>) -> bool {
    &&& n.voice_participants@ == (match participant_from(v) {
        Some(p) => o.voice_participants@.insert(p.user_id@, p),
        None => o.voice_participants@,
    })
    &&& participant_from(v) is Some ==> effects.len() == 1 && (effects[0] matches PluginEffect::BroadcastVoiceParticipants(l) && is_participant_listing(l@, n.voice_participants@))
    &&& participant_from(v) is None ==> effects.len() == 0
    &&& n.subscribed_voice_channel == o.subscribed_voice_channel
    &&& keeps_caches(o, n)
    &&& keeps_pending(o, n)
}

} // verus!

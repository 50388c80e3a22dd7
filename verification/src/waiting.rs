//! Answering a property inspector from the caches while Discord has not
//! answered yet: what the caches hold for a question, and what to do on
//! each look until the wait gives up.

use vstd::prelude::*;
use crate::channels::{real_guilds, GuildInfo, VoiceChannelInfo};
use crate::soundboard::{info_matches, sound_infos, SoundInfo};
use crate::state::{copy_channels, PluginState};

verus! {

/// How many times the caches are looked at before a wait gives up.
pub const WAIT_ATTEMPTS: u32 = 60;

/// The pause between two looks, in milliseconds.
pub const WAIT_INTERVAL_MS: u64 = 250;

/// What the caches hold for a question.
pub enum CacheAnswer<T> {
    /// The answer is there.
    Ready(Vec<T>),
    /// The last request for it failed with this message.
    Failed(String),
    /// Nothing yet.
    Pending,
}

/// What a wait does after one look at the caches.
pub enum WaitStep<T> {
    /// Reply to the property inspector with these items and error.
    Reply { items: Vec<T>, error: Option<String> },
    /// Sleep for `WAIT_INTERVAL_MS` and look again.
    Sleep,
}

/// The step after look number `attempt` (counted from 0) found `answer`:
/// an answer or an error is replied at once, nothing yet means another
/// sleep, and once `WAIT_ATTEMPTS` looks have found nothing the wait
/// replies `timeout` as its error.
pub fn wait_step<T>(attempt: u32, answer: CacheAnswer<T>, timeout: &str) -> (r: WaitStep<T>)
    ensures
        attempt >= WAIT_ATTEMPTS ==> (r matches WaitStep::Reply { items, error }
            && items@.len() == 0 && error is Some && error->0@ == timeout@),
        attempt < WAIT_ATTEMPTS ==> match answer {
            CacheAnswer::Ready(v) => r matches WaitStep::Reply { items, error } && items == v && error is None,
            CacheAnswer::Failed(m) => r matches WaitStep::Reply { items, error }
                && items@.len() == 0 && error == Some(m),
            CacheAnswer::Pending => r is Sleep,
        },
{
    if attempt >= WAIT_ATTEMPTS {
        return WaitStep::Reply { items: Vec::new(), error: Some(timeout.to_string()) };
    }
    match answer {
        CacheAnswer::Ready(v) => WaitStep::Reply { items: v, error: None },
        CacheAnswer::Failed(m) => WaitStep::Reply { items: Vec::new(), error: Some(m) },
        CacheAnswer::Pending => WaitStep::Sleep,
    }
}

/// The error a guild-list wait gives up with.
pub fn guilds_timeout() -> (r: String)
    ensures
        r@ == "Timed out waiting for guild list from Discord RPC."@,
{
    String::from_str("Timed out waiting for guild list from Discord RPC.")
}

/// The error a soundboard-sounds wait gives up with.
pub fn sounds_timeout() -> (r: String)
    ensures
        r@ == "Timed out waiting for soundboard sounds from Discord RPC."@,
{
    String::from_str("Timed out waiting for soundboard sounds from Discord RPC.")
}

/// The error a channel-listing wait gives up with.
pub fn channels_timeout() -> (r: String)
    ensures
        r@ == "Timed out waiting for guild channels from Discord RPC."@,
{
    String::from_str("Timed out waiting for guild channels from Discord RPC.")
}

fn copy_guilds(v: &Vec<GuildInfo>) -> (r: Vec<GuildInfo>)
    ensures
        r@ == v@,
{
    let mut r: Vec<GuildInfo> = Vec::new();
    let mut i: usize = 0;
    while i < v.len()
        invariant
            i <= v.len(),
            r@ == v@.take(i as int),
        decreases v.len() - i,
    {
        let g = &v[i];
        let icon = match &g.icon_hash {
            Some(h) => Some(h.clone()),
            None => None,
        };
        r.push(GuildInfo { guild_id: g.guild_id.clone(), name: g.name.clone(), icon_hash: icon });
        i = i + 1;
        assert(r@ =~= v@.take(i as int));
    }
    assert(v@.take(v.len() as int) =~= v@);
    r
}

fn error_or_pending<T>(error: &Option<String>) -> (r: CacheAnswer<T>)
    ensures
        match *error {
            Some(e) => r matches CacheAnswer::Failed(m) && m == e,
            None => r is Pending,
        },
{
    match error {
        Some(e) => CacheAnswer::Failed(e.clone()),
        None => CacheAnswer::Pending,
    }
}

impl PluginState {
    /// The soundboard's guild list: the cached guilds if there are any,
    /// else the error of the last guild request, else nothing yet.
    pub fn soundboard_guilds_answer(&self) -> (r: CacheAnswer<GuildInfo>)
        ensures
            self.available_soundboard_guilds@.len() > 0 ==> (r matches CacheAnswer::Ready(v)
                && v@ == self.available_soundboard_guilds@),
            self.available_soundboard_guilds@.len() == 0 ==> match self.guild_request_error {
                Some(e) => r matches CacheAnswer::Failed(m) && m == e,
                None => r is Pending,
            },
    {
        if self.available_soundboard_guilds.len() > 0 {
            CacheAnswer::Ready(copy_guilds(&self.available_soundboard_guilds))
        } else {
            error_or_pending(&self.guild_request_error)
        }
    }

    /// The guild list offered for joining a voice channel: as
    /// `soundboard_guilds_answer`, without the default-sounds pseudo-guild.
    pub fn voice_channel_guilds_answer(&self) -> (r: CacheAnswer<GuildInfo>)
        ensures
            self.available_soundboard_guilds@.len() > 0 ==> (r matches CacheAnswer::Ready(v)
                && v@ == real_guilds(self.available_soundboard_guilds@)),
            self.available_soundboard_guilds@.len() == 0 ==> match self.guild_request_error {
                Some(e) => r matches CacheAnswer::Failed(m) && m == e,
                None => r is Pending,
            },
    {
        if self.available_soundboard_guilds.len() > 0 {
            let all = copy_guilds(&self.available_soundboard_guilds);
            CacheAnswer::Ready(crate::channels::voice_channel_guilds(all))
        } else {
            error_or_pending(&self.guild_request_error)
        }
    }

    /// The sounds of guild `guild_id` as offered to the property inspector:
    /// those cached for it if any are, else the error of the last sound
    /// listing, else nothing yet.
    pub fn sounds_answer(&self, guild_id: &str) -> (r: CacheAnswer<SoundInfo>)
        ensures
            self.soundboard_sounds@.contains_key(guild_id@) ==> (r matches CacheAnswer::Ready(v)
                && v@.len() == self.soundboard_sounds@[guild_id@]@.len()
                && forall|i: int| 0 <= i < v@.len()
                    ==> info_matches(#[trigger] v@[i], self.soundboard_sounds@[guild_id@]@[i])),
            !self.soundboard_sounds@.contains_key(guild_id@) ==> match self.soundboard_request_error {
                Some(e) => r matches CacheAnswer::Failed(m) && m == e,
                None => r is Pending,
            },
    {
        match self.soundboard_sounds.get(guild_id) {
            Some(cached) => CacheAnswer::Ready(sound_infos(cached)),
            None => error_or_pending(&self.soundboard_request_error),
        }
    }

    /// The voice channels of guild `guild_id`: those cached for it if any
    /// are, else the error of the last channel listing, else nothing yet.
    pub fn channels_answer(&self, guild_id: &str) -> (r: CacheAnswer<VoiceChannelInfo>)
        ensures
            self.voice_channels@.contains_key(guild_id@) ==> (r matches CacheAnswer::Ready(v)
                && v@ == self.voice_channels@[guild_id@]@),
            !self.voice_channels@.contains_key(guild_id@) ==> match self.voice_channel_request_error {
                Some(e) => r matches CacheAnswer::Failed(m) && m == e,
                None => r is Pending,
            },
    {
        match self.voice_channels.get(guild_id) {
            Some(cached) => CacheAnswer::Ready(copy_channels(cached)),
            None => error_or_pending(&self.voice_channel_request_error),
        }
    }
}

} // verus!

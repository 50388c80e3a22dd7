//! The participants of the voice channel the plugin follows: built from
//! Discord's voice states, updated by its events and by local changes, and
//! listed by name.

use vstd::prelude::*;
use crate::sorting::{chars_le, is_stable_sort_of, sort_by_keys, stably_sorted};
use crate::str_map::StrMap;
use crate::text::{case_key, case_key_of, chars_of};

verus! {

/// The lowest volume Discord accepts for a user.
pub const MIN_VOLUME: i32 = 0;

/// The highest volume Discord accepts for a user.
pub const MAX_VOLUME: i32 = 200;

/// `v` brought into the range of user volumes.
pub open spec fn clamp_volume(v: int) -> int {
    if v < MIN_VOLUME {
        MIN_VOLUME as int
    } else if v > MAX_VOLUME {
        MAX_VOLUME as int
    } else {
        v
    }
}

/// `v` brought into the range of user volumes, as `i32::clamp(v, 0, 200)`.
pub fn clamp_volume_exec(v: i32) -> (r: i32)
    ensures
        r == clamp_volume(v as int),
{
    if v < MIN_VOLUME {
        MIN_VOLUME
    } else if v > MAX_VOLUME {
        MAX_VOLUME
    } else {
        v
    }
}

/// A user in the voice channel, as the plugin shows it.
#[derive(Clone, Debug)]
pub struct VoiceParticipant {
    pub user_id: String,
    pub name: String,
    pub nick: Option<String>,
    pub volume: i32,
    /// Whether the user cannot be heard, for any of the reasons below.
    pub mute: bool,
    pub avatar_hash: Option<String>,
    pub local_mute: bool,
    pub server_mute: bool,
    pub self_mute: bool,
    pub server_deaf: bool,
    pub self_deaf: bool,
    pub suppress: bool,
}

/// A user is muted when any one of these holds.
pub open spec fn effective_mute(
    local_mute: bool,
    server_mute: bool,
    self_mute: bool,
    server_deaf: bool,
    self_deaf: bool,
    suppress: bool,
) -> bool {
    local_mute || server_mute || self_mute || server_deaf || self_deaf || suppress
}

/// The participant's `mute` agrees with its reasons and its volume lies in
/// range.
pub open spec fn participant_consistent(p: VoiceParticipant) -> bool {
    &&& p.mute == effective_mute(
        p.local_mute,
        p.server_mute,
        p.self_mute,
        p.server_deaf,
        p.self_deaf,
        p.suppress,
    )
    &&& MIN_VOLUME <= p.volume <= MAX_VOLUME
}

fn clone_opt(s: &Option<String>) -> (r: Option<String>)
    ensures
        r == *s,
{
    match s {
        Some(v) => Some(v.clone()),
        None => None,
    }
}

impl VoiceParticipant {
    /// Whether a user with these flags is muted: any one of them mutes.
    pub fn compute_effective_mute(
        local_mute: bool,
        server_mute: bool,
        self_mute: bool,
        server_deaf: bool,
        self_deaf: bool,
        suppress: bool,
    ) -> (r: bool)
        ensures
            r == effective_mute(local_mute, server_mute, self_mute, server_deaf, self_deaf, suppress),
    {
        local_mute || server_mute || self_mute || server_deaf || self_deaf || suppress
    }

    /// Sets `mute` from the reasons for muting.
    pub fn refresh_effective_mute(&mut self)
        ensures
            *final(self) == (VoiceParticipant {
                mute: effective_mute(
                    old(self).local_mute,
                    old(self).server_mute,
                    old(self).self_mute,
                    old(self).server_deaf,
                    old(self).self_deaf,
                    old(self).suppress,
                ),
                ..*old(self)
            }),
    {
        self.mute =
            Self::compute_effective_mute(
                self.local_mute,
                self.server_mute,
                self.self_mute,
                self.server_deaf,
                self.self_deaf,
                self.suppress,
            );
    }

    /// A copy of the participant.
    pub fn duplicate(&self) -> (r: Self)
        ensures
            r == *self,
    {
        VoiceParticipant {
            user_id: self.user_id.clone(),
            name: self.name.clone(),
            nick: clone_opt(&self.nick),
            volume: self.volume,
            mute: self.mute,
            avatar_hash: clone_opt(&self.avatar_hash),
            local_mute: self.local_mute,
            server_mute: self.server_mute,
            self_mute: self.self_mute,
            server_deaf: self.server_deaf,
            self_deaf: self.self_deaf,
            suppress: self.suppress,
        }
    }
}

/// The user a voice state is about.
pub struct VoiceUser {
    pub id: String,
    pub username: String,
    pub avatar: Option<String>,
}

/// A voice state as Discord reports it, in plain values.
pub struct VoiceStateRecord {
    pub user: Option<VoiceUser>,
    pub nick: String,
    /// The volume Discord reports, rounded to a whole number.
    pub volume: i32,
    /// Muted by this client.
    pub mute: bool,
    pub server_mute: bool,
    pub self_mute: bool,
    pub server_deaf: bool,
    pub self_deaf: bool,
    pub suppress: bool,
}

/// The participant a voice state describes, if it names its user.
pub open spec fn participant_from(v: VoiceStateRecord) -> Option<VoiceParticipant> {
    match v.user {
        None => None,
        Some(u) => Some(
            VoiceParticipant {
                user_id: u.id,
                name: u.username,
                nick: if v.nick@.len() == 0 {
                    None
                } else {
                    Some(v.nick)
                },
                volume: clamp_volume(v.volume as int) as i32,
                mute: effective_mute(
                    v.mute,
                    v.server_mute,
                    v.self_mute,
                    v.server_deaf,
                    v.self_deaf,
                    v.suppress,
                ),
                avatar_hash: u.avatar,
                local_mute: v.mute,
                server_mute: v.server_mute,
                self_mute: v.self_mute,
                server_deaf: v.server_deaf,
                self_deaf: v.self_deaf,
                suppress: v.suppress,
            },
        ),
    }
}

/// The participant a voice state describes; none when it names no user.
pub fn voice_participant_from_state(voice: &VoiceStateRecord) -> (r: Option<VoiceParticipant>)
    ensures
        r == participant_from(*voice),
        r matches Some(p) ==> participant_consistent(p),
{
    match &voice.user {
        None => None,
        Some(user) => {
            let nick = if voice.nick.unicode_len() == 0 {
                None
            } else {
                Some(voice.nick.clone())
            };
            Some(
                VoiceParticipant {
                    user_id: user.id.clone(),
                    name: user.username.clone(),
                    nick,
                    volume: clamp_volume_exec(voice.volume),
                    mute: VoiceParticipant::compute_effective_mute(
                        voice.mute,
                        voice.server_mute,
                        voice.self_mute,
                        voice.server_deaf,
                        voice.self_deaf,
                        voice.suppress,
                    ),
                    avatar_hash: clone_opt(&user.avatar),
                    local_mute: voice.mute,
                    server_mute: voice.server_mute,
                    self_mute: voice.self_mute,
                    server_deaf: voice.server_deaf,
                    self_deaf: voice.self_deaf,
                    suppress: voice.suppress,
                },
            )
        },
    }
}

/// The participants a list of voice states gives, by user id: a later state
/// for the same user replaces an earlier one, and states without a user are
/// passed over.
pub open spec fn participants_from(voices: Seq<VoiceStateRecord>) -> Map<Seq<char>, VoiceParticipant>
    decreases voices.len(),
{
    if voices.len() == 0 {
        Map::empty()
    } else {
        let before = participants_from(voices.drop_last());
        match participant_from(voices.last()) {
            Some(p) => before.insert(p.user_id@, p),
            None => before,
        }
    }
}

/// `p` after this client sets its volume and local mute: the volume clamped
/// into range, the mute recomputed.
pub open spec fn locally_updated(p: VoiceParticipant, volume: Option<i32>, mute: Option<bool>) -> VoiceParticipant {
    let with_volume = match volume {
        Some(v) => VoiceParticipant { volume: clamp_volume(v as int) as i32, ..p },
        None => p,
    };
    match mute {
        Some(m) => VoiceParticipant {
            local_mute: m,
            mute: effective_mute(
                m,
                with_volume.server_mute,
                with_volume.self_mute,
                with_volume.server_deaf,
                with_volume.self_deaf,
                with_volume.suppress,
            ),
            ..with_volume
        },
        None => with_volume,
    }
}

/// The order in which participants are listed: by name, ignoring case.
pub open spec fn name_key(p: VoiceParticipant) -> Seq<char> {
    case_key(p.name@)
}

/// `list` holds every participant of `m` once, ordered by name ignoring
/// case.
pub open spec fn is_participant_listing(list: Seq<VoiceParticipant>, m: Map<Seq<char>, VoiceParticipant>) -> bool {
    &&& list.len() == m.dom().len()
    &&& forall|i: int|
        0 <= i < list.len() ==> m.contains_key(#[trigger] list[i].user_id@) && m[list[i].user_id@] == list[i]
    &&& forall|i: int, j: int|
        0 <= i < list.len() && 0 <= j < list.len() && i != j ==> #[trigger] list[i].user_id@
            != #[trigger] list[j].user_id@
    &&& forall|i: int, j: int|
        0 <= i < j < list.len() ==> chars_le(name_key(#[trigger] list[i]), name_key(#[trigger] list[j]))
}

/// The participants of the followed voice channel, by user id.
pub struct VoiceParticipants {
    map: StrMap<VoiceParticipant>,
}

impl VoiceParticipants {
    /// Each participant is filed under its own user id and is consistent.
    #[verifier::type_invariant]
    pub closed spec fn filed_by_id(self) -> bool {
        forall|k: Seq<char>|
            #[trigger] self.map@.contains_key(k) ==> self.map@[k].user_id@ == k
                && participant_consistent(self.map@[k])
    }

    /// The participants by user id.
    pub closed spec fn view(&self) -> Map<Seq<char>, VoiceParticipant> {
        self.map@
    }

    /// No participants.
    pub fn new() -> (r: Self)
        ensures
            r@ == Map::<Seq<char>, VoiceParticipant>::empty(),
    {
        VoiceParticipants { map: StrMap::new() }
    }

    /// The participant with this user id.
    pub fn get(&self, user_id: &str) -> (r: Option<&VoiceParticipant>)
        ensures
            match r {
                Some(p) => self@.contains_key(user_id@) && self@[user_id@] == *p
                    && participant_consistent(*p),
                None => !self@.contains_key(user_id@),
            },
    {
        proof {
            use_type_invariant(self);
        }
        self.map.get(user_id)
    }

    /// Forgets every participant.
    pub fn clear(&mut self)
        ensures
            final(self)@ == Map::<Seq<char>, VoiceParticipant>::empty(),
    {
        self.map = StrMap::new();
    }

    /// Adds or replaces the participant a voice state describes. Returns
    /// whether the state named a user, that is whether anything changed.
    pub fn upsert(&mut self, voice: &VoiceStateRecord) -> (changed: bool)
        ensures
            changed == participant_from(*voice) is Some,
            match participant_from(*voice) {
                Some(p) => final(self)@ == old(self)@.insert(p.user_id@, p),
                None => final(self)@ == old(self)@,
            },
    {
        proof {
            use_type_invariant(&*self);
        }
        match voice_participant_from_state(voice) {
            Some(p) => {
                let key = p.user_id.clone();
                let mut map = StrMap::new();
                std::mem::swap(&mut map, &mut self.map);
                map.insert(key, p);
                self.map = map;
                true
            },
            None => false,
        }
    }

    /// Removes the user a voice state names. Returns whether the state named
    /// a user.
    pub fn remove_user(&mut self, voice: &VoiceStateRecord) -> (named: bool)
        ensures
            named == voice.user is Some,
            match voice.user {
                Some(u) => final(self)@ == old(self)@.remove(u.id@),
                None => final(self)@ == old(self)@,
            },
    {
        proof {
            use_type_invariant(&*self);
        }
        match &voice.user {
            Some(u) => {
                let mut map = StrMap::new();
                std::mem::swap(&mut map, &mut self.map);
                map.remove(u.id.as_str());
                self.map = map;
                true
            },
            None => false,
        }
    }

    /// Replaces every participant by those the voice states describe.
    pub fn replace_from_states(&mut self, voices: &Vec<VoiceStateRecord>)
        ensures
            final(self)@ == participants_from(voices@),
    {
        let mut fresh = VoiceParticipants::new();
        let mut i: usize = 0;
        while i < voices.len()
            invariant
                i <= voices.len(),
                fresh@ == participants_from(voices@.take(i as int)),
            decreases voices.len() - i,
        {
            assert(voices@.take(i + 1).drop_last() =~= voices@.take(i as int));
            fresh.upsert(&voices[i]);
            i = i + 1;
        }
        assert(voices@.take(voices.len() as int) =~= voices@);
        *self = fresh;
    }

    /// Applies a volume and local mute that this client set for a user.
    /// Returns whether the user is present; when not, nothing changes.
    pub fn apply_local_user_voice_update(
        &mut self,
        user_id: &str,
        volume: Option<i32>,
        mute: Option<bool>,
    ) -> (found: bool)
        ensures
            found == old(self)@.contains_key(user_id@),
            found ==> final(self)@ == old(self)@.insert(
                user_id@,
                locally_updated(old(self)@[user_id@], volume, mute),
            ),
            !found ==> final(self)@ == old(self)@,
    {
        proof {
            use_type_invariant(&*self);
        }
        let current = match self.map.get(user_id) {
            Some(p) => p.duplicate(),
            None => {
                return false;
            },
        };
        let mut updated = current;
        if let Some(v) = volume {
            updated.volume = clamp_volume_exec(v);
        }
        if let Some(m) = mute {
            updated.local_mute = m;
            updated.refresh_effective_mute();
        }
        let key = updated.user_id.clone();
        let mut map = StrMap::new();
        std::mem::swap(&mut map, &mut self.map);
        map.insert(key, updated);
        self.map = map;
        true
    }

    /// Every participant, ordered by name ignoring case.
    pub fn sorted(&self) -> (r: Vec<VoiceParticipant>)
        ensures
            is_participant_listing(r@, self@),
            forall|i: int| 0 <= i < r.len() ==> participant_consistent(#[trigger] r@[i]),
            r.len() == self@.dom().len(),
            forall|i: int|
                0 <= i < r.len() ==> self@.contains_key(#[trigger] r@[i].user_id@) && self@[r@[i].user_id@]
                    == r@[i] && participant_consistent(r@[i]),
            forall|i: int, j: int|
                0 <= i < r.len() && 0 <= j < r.len() && i != j ==> #[trigger] r@[i].user_id@
                    != #[trigger] r@[j].user_id@,
            forall|i: int, j: int|
                0 <= i < j < r.len() ==> chars_le(name_key(#[trigger] r@[i]), name_key(#[trigger] r@[j])),
    {
        proof {
            use_type_invariant(self);
        }
        let keys = self.map.keys();
        let mut items: Vec<VoiceParticipant> = Vec::new();
        let mut sort_keys: Vec<Vec<char>> = Vec::new();
        let mut i: usize = 0;
        while i < keys.len()
            invariant
                self.filed_by_id(),
                i <= keys.len(),
                items.len() == i,
                sort_keys.len() == i,
                forall|j: int| 0 <= j < i ==> #[trigger] items@[j] == self.map@[keys@[j]@],
                forall|j: int| 0 <= j < i ==> #[trigger] sort_keys@[j]@ == name_key(items@[j]),
                forall|j: int| 0 <= j < keys.len() ==> self.map@.contains_key(#[trigger] keys@[j]@),
            decreases keys.len() - i,
        {
            let p = self.map.get(keys[i].as_str()).unwrap().duplicate();
            let k = case_key_of(p.name.as_str());
            items.push(p);
            sort_keys.push(k);
            i = i + 1;
        }
        let ghost input = items@;
        let ghost key = |p: VoiceParticipant| name_key(p);
        let r = sort_by_keys(items, sort_keys, Ghost(key));
        proof {
            let p = choose|q: Seq<int>| #[trigger] is_stable_sort_of(r@, input, key, q);
            assert forall|i: int| 0 <= i < r.len() implies self@.contains_key(#[trigger] r@[i].user_id@)
                && self@[r@[i].user_id@] == r@[i] && participant_consistent(r@[i]) by {
                assert(r@[i] == input[p[i]]);
                assert(self.map@.contains_key(keys@[p[i]]@));
            }
            assert forall|i: int, j: int| 0 <= i < r.len() && 0 <= j < r.len() && i != j implies #[trigger] r@[i].user_id@
                != #[trigger] r@[j].user_id@ by {
                assert(r@[i] == input[p[i]]);
                assert(r@[j] == input[p[j]]);
                assert(self.map@.contains_key(keys@[p[i]]@));
                assert(self.map@.contains_key(keys@[p[j]]@));
                if i < j {
                    assert(p[i] != p[j]);
                } else {
                    assert(p[j] != p[i]);
                }
            }
            assert forall|i: int, j: int| 0 <= i < j < r.len() implies chars_le(
                name_key(#[trigger] r@[i]),
                name_key(#[trigger] r@[j]),
            ) by {
                assert(chars_le(key(r@[i]), key(r@[j])));
            }
        }
        r
    }
}

} // verus!

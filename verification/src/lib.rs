//! Verified core of a Discord control plugin for OpenAction hosts: the
//! state it keeps about voice participants, guilds, channels and soundboard
//! sounds, and the decisions its actions take.

pub mod channels;
pub mod ids;
pub mod laws;
pub mod numbers;
pub mod participants;
pub mod sorting;
pub mod soundboard;
pub mod state;
pub mod str_map;
pub mod text;
pub mod user_volume;
pub mod voice_channel;
pub mod user_stats;
pub mod waiting;

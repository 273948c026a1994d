//! Core of an internet radio broadcaster: the playlist cursor, the playback
//! state engine, the PCM ring between decoder and encoders, the playback
//! clock and the listener bookkeeping of each codec's broadcast.
pub mod clock;
pub mod codec;
pub mod listeners;
pub mod metadata;
pub mod pcm;
pub mod probe;
pub mod random;
pub mod ring;
pub mod schedule;
pub mod seek_time;
pub mod shared;
pub mod state;
pub mod station_state;
pub mod text;
pub mod track;
pub mod track_iterator;

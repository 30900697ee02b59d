//! A Pro Tracker ("MOD") module parser and playback sequencer.
//!
//! The parser interprets a raw byte buffer as a four-channel, 31-sample
//! tracker module without copying the sample data; the sequencer walks the
//! song tick by tick and mixes the four channels into stereo frames.

pub mod effect;
pub mod fraction;
pub mod module;
pub mod notes;
pub mod pattern;
pub mod player;
pub mod sample;

pub use effect::Effect;
pub use fraction::Fractional;
pub use module::Error;
pub use module::ProTrackerModule;
pub use notes::shift_period;
pub use pattern::Line;
pub use pattern::LineIter;
pub use pattern::Note;
pub use pattern::Pattern;
pub use player::Channel;
pub use player::Player;
pub use sample::Sample;
pub use sample::SampleBytesIter;
pub use sample::SampleIter;

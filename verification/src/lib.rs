//! Turns the pixels of an image into a sequence of tones.
//!
//! An image's raw channel bytes are grouped into pixels; each pair of
//! neighbouring pixels gives the tone of one segment of sound, the sum of the
//! products of their channel values; the samples of the resulting waveform are
//! then played back one by one.
pub mod frequency;
pub mod pixels;
pub mod playback;

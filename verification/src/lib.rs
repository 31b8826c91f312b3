//! The decisions of a screen recorder: which picture goes into the file, at
//! which timestamp, which samples are mixed into the audio track, and in which
//! order the file is opened and closed.
//!
//! The encoders, the file and the threads that capture audio are the caller's. It
//! asks what to do, does it, and hands back how it went:
//!
//! - [`start`] opens a recording, step by step;
//! - [`capture`] stages frames, wakes up, pauses and resumes;
//! - [`finish`] closes a recording, step by step.
//!
//! Underneath are the clock ([`timeline`]), the mix ([`audio`]), the place a frame
//! is read at ([`frame`]), the pixel formats ([`format`]) and the bitrate
//! ([`bitrate`]). What their calls promise, whatever they are made of inside, is
//! stated in [`laws`].

pub mod audio;
pub mod bitrate;
pub mod capture;
pub mod clock;
pub mod finish;
pub mod format;
pub mod frame;
pub mod laws;
pub mod start;
pub mod text;
pub mod timeline;

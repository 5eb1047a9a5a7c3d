//! Conversion of text between character encodings.
//!
//! The registry of selectable codecs lives in [`codec`], the conversion itself in
//! [`transcode`], the state of an interactive conversion session in [`session`],
//! and the interface captions in [`i18n`].

pub mod codec;
pub mod transcode;
pub mod i18n;
pub mod session;

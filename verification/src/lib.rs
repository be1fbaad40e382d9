//! A journal of Matrix events.
//!
//! Messages, reactions, stickers and redactions are written out one by one, each as a line of
//! plain text or as a JSON object. The modules here decide what is written, in which order, and
//! what has to be done around it: when to sync, how to log in, how the settings are saved and how
//! another device is verified. The program around them talks to the homeserver and the disk.
pub mod clock;
pub mod device;
pub mod event;
pub mod ids;
pub mod journal;
pub mod json;
pub mod login;
pub mod message;
pub mod queue;
pub mod settings;
pub mod text;

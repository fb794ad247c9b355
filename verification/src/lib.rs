//! The verified core of OxiDS, a driver and client for 3DS capture cards.
//!
//! The library holds everything that decides or computes: how a capture card is picked and
//! set up, how a raw transfer becomes a video and an audio packet, how a picture is turned and
//! painted on one or two screens, where the audio of a packet ends, how polls are counted and
//! throttled, and what the hotkeys do. Talking to the device, the speakers and the windows is
//! left to the program around it.
pub mod audio;
pub mod constants;
pub mod counter;
pub mod device;
pub mod setup;
pub mod transfer;
pub mod video;
pub mod window;

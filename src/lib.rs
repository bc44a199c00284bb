//! Verified core of a headless runtime that streams an arcade emulator: colour conversion,
//! frame scheduling for the encoders, the idle gate, command dispatch, configuration and
//! the bounded queues that join the pipeline stages.
pub mod convert;
pub mod schedule;
pub mod audio;
pub mod clock;
pub mod encoder;
pub mod idle;
pub mod text;
pub mod command;
pub mod config;
pub mod queue;
pub mod emu;
pub mod packed;

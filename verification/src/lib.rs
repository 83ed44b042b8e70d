//! Streaming of 8-bit PCM audio through a PWM output on a two-core
//! microcontroller: the sample arithmetic, the window players, the
//! single-slot channel between the cores, the producer and consumer state
//! machines, and the cell that shares a peripheral with its interrupt handler.

pub mod sample;
pub mod pwm;
pub mod player;
pub mod input;
pub mod shared;
pub mod channel;
pub mod playback;
pub mod storage;
pub mod pipeline;
pub mod ui;
pub mod clock_init;
pub mod timesource;

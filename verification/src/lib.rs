//! Core of a word-guessing puzzle game: letter-correctness scoring with
//! duplicate handling, the cursor/input state machine, a counted pause token,
//! the timed animation-sequencing engine, and the keyboard feedback
//! aggregator. Rendering, asset loading and raw key decoding live outside
//! this crate and talk to it through plain values.

pub mod components;
pub mod score;
pub mod events;
pub mod anim;
pub mod keyboard;
pub mod game;

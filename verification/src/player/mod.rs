//! Player core: the bot's own notion of playback intent.
//!
//! [`state`] is the decision core: one owned `PlayerState`, advanced by
//! `step(state, input, now) -> Vec<Effect>`. [`model`] says what each input
//! does to the player as a function on mathematical values, and [`laws`] and
//! [`outcomes`] prove what holds of that function. [`actor`] is the shell
//! around the core, and [`conduct`] proves what it does with each input and
//! each effect.

pub mod actor;
pub mod conduct;
pub mod laws;
pub mod model;
pub mod outcomes;
pub mod state;

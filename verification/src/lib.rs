//! Game logic of the soup-tending arcade cabinet: the shared application
//! state, the top-level game flow, the reaction mini-game driven by the four
//! lit buttons, the screen plan, and the register programming of the timer
//! that paces the WS2812 LED strip.
//!
//! Everything that touches hardware or waits on time is done by the caller:
//! each task here is a state machine that is handed the outcome of the last
//! action and answers with the next one.
pub mod state;
pub mod leds;
pub mod buttons;
pub mod game;
pub mod display;
pub mod ws2812;

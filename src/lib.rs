// A two-player Pong simulation: the ordered per-frame passes over paddles,
// balls and the score board, and an event log read by independent cursors.

pub mod arena;
pub mod audio;
pub mod bounce;
pub mod components;
pub mod event;
pub mod move_balls;
pub mod paddle;
pub mod pong;
pub mod winner;

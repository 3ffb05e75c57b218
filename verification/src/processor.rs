pub mod admin;
pub mod close;
pub mod helpers;
pub mod initialize;
pub mod rewards;
pub mod stake;

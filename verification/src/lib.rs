//! Track queueing, request handling and playback decisions for the cradle
//! music player, with their behaviour stated as Verus contracts.
mod external;
pub mod metadata;
pub mod track;
pub mod trackmanager;
pub mod protocol;
pub mod server;
pub mod serverstate;
pub mod cli;
pub mod playback;

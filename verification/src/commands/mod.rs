//! What the bot's slash commands decide.

pub mod guild_state;
pub mod play;
pub mod playlist;
pub mod preplay;
pub mod queue;
pub mod youtube_playlist;

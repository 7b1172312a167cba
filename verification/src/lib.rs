pub mod codec;
pub mod game_state;
pub mod packets;

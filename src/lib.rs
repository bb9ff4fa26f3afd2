pub mod flags;
pub mod game;
pub mod items;
pub mod narration;
pub mod parser;
pub mod text;
pub mod world;

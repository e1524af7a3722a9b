pub mod cartridge;
pub mod font;
pub mod instruction;
pub mod laws;
pub mod machine;
pub mod operations;
pub mod output;
pub mod processor;
mod random;
pub mod sprite;

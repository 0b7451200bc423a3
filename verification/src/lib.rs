pub mod bench;
pub mod cli;
pub mod hce;
pub mod lines;
pub mod node;
pub mod plan;
pub mod release;
pub mod text;

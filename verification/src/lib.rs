pub mod engine;
pub mod pos2;
pub mod session;
pub mod utils;

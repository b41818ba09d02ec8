pub mod clock;
pub mod config;
pub mod naming;
pub mod normalize;
pub mod retention;
pub mod retry;
pub mod rotation;
pub mod stamp;

pub mod session;
pub mod workspace;

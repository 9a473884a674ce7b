pub mod debug;
pub mod diagnostics;
pub mod home;

pub mod parser;
pub mod types;

pub use parser::{parse_u8, profile_from_fields, waypoint_fields};
pub use types::{GlideProfile, Waypoint};

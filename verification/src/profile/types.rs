use vstd::prelude::*;
use vstd::string::StringExecFns;

verus! {

/// A point of a route. The coordinates are the bit patterns of `f32`s.
#[derive(Debug, Clone, Copy, PartialEq, Eq, Structural)]
pub struct Waypoint {
    pub x: u32,
    pub y: u32,
}

/// What a `GlideProfile` holds.
pub struct ProfileView {
    pub name: Option<Seq<char>>,
    pub min_level: Option<u8>,
    pub max_level: Option<u8>,
    pub waypoints: Seq<Waypoint>,
}

/// A route profile: its name, level range and waypoints.
#[derive(Debug)]
pub struct GlideProfile {
    pub name: Option<String>,
    pub min_level: Option<u8>,
    pub max_level: Option<u8>,
    pub waypoints: Vec<Waypoint>,
}

impl View for GlideProfile {
    type V = ProfileView;

    open spec fn view(&self) -> ProfileView {
        ProfileView {
            name: match self.name {
                Some(n) => Some(n@),
                None => None,
            },
            min_level: self.min_level,
            max_level: self.max_level,
            waypoints: self.waypoints@,
        }
    }
}

pub open spec fn no_waypoints_message() -> Seq<char> {
    "profile has no waypoints"@
}

impl GlideProfile {
    /// A profile is usable when it has at least one waypoint.
    pub fn validate(&self) -> (r: Result<(), String>)
        ensures
            self.waypoints@.len() > 0 ==> r is Ok,
            self.waypoints@.len() == 0 ==> (r matches Err(e) && e@ == no_waypoints_message()),
    {
        if self.waypoints.len() == 0 {
            return Err(String::from_str("profile has no waypoints"));
        }
        Ok(())
    }
}

} // verus!

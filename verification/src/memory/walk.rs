use vstd::prelude::*;

verus! {

/// The most objects visited while looking for one by its guid.
pub const MAX_OBJECT_STEPS: usize = 4096;

/// The most name-cache nodes visited while looking for a name.
pub const MAX_NAME_STEPS: usize = 16384;

/// What a walk does after visiting a node.
#[derive(Debug, PartialEq, Eq)]
pub enum WalkStep<T> {
    /// The node sought; the walk is over.
    Found(T),
    /// Visit `current()` next.
    Continue,
    /// The list ended, looped, grew too long or could not be read, without the
    /// node sought.
    NotFound,
}

/// Where a walk stands: the guid sought, the node to visit and how many links
/// have been followed.
pub struct WalkView {
    pub guid: u64,
    pub node: usize,
    pub steps: usize,
}

/// A walk along the object manager's linked list for the object with a given guid.
pub struct ObjectWalk {
    target_guid: u64,
    current: usize,
    steps: usize,
}

impl View for ObjectWalk {
    type V = WalkView;

    closed spec fn view(&self) -> WalkView {
        WalkView { guid: self.target_guid, node: self.current, steps: self.steps }
    }
}

/// The link read from a node, with an unreadable one taken as zero.
pub open spec fn link(next: Option<u32>) -> usize {
    match next {
        Some(n) => n as usize,
        None => 0,
    }
}

impl ObjectWalk {
    /// A walk from the first object, whose pointer was read as `first`; there is
    /// none to make when it was unreadable or zero.
    pub fn start(target_guid: u64, first: Option<u32>) -> (r: Option<ObjectWalk>)
        ensures
            match first {
                Some(f) if f != 0 => r matches Some(w) && w@ == WalkView {
                    guid: target_guid,
                    node: f as usize,
                    steps: 0,
                },
                _ => r is None,
            },
    {
        match first {
            Some(f) if f != 0 => Some(ObjectWalk { target_guid, current: f as usize, steps: 0 }),
            _ => None,
        }
    }

    /// The address of the object to visit.
    pub fn current(&self) -> (a: usize)
        ensures
            a == self@.node,
    {
        self.current
    }

    /// How many links the walk has followed.
    pub fn steps(&self) -> (n: usize)
        ensures
            n == self@.steps,
    {
        self.steps
    }

    /// Visits the current object, whose guid was read as `guid` and whose link to the
    /// next object as `next`. A matching guid finds it; otherwise the walk moves to
    /// the next object, and ends when the link is zero, points back at the same
    /// object, or the step limit is reached. A walk already at the limit finds nothing.
    pub fn visit(&mut self, guid: Option<u64>, next: Option<u32>) -> (r: WalkStep<usize>)
        ensures
            old(self)@.steps >= MAX_OBJECT_STEPS ==> r == WalkStep::<usize>::NotFound
                && final(self)@ == old(self)@,
            old(self)@.steps < MAX_OBJECT_STEPS && guid == Some(old(self)@.guid) ==> r == WalkStep::Found(old(self)@.node) && final(self)@
                == old(self)@,
            old(self)@.steps < MAX_OBJECT_STEPS && guid != Some(old(self)@.guid) && (link(next)
                == 0 || link(next) == old(self)@.node) ==> r == WalkStep::<usize>::NotFound
                && final(self)@ == old(self)@,
            old(self)@.steps < MAX_OBJECT_STEPS && guid != Some(old(self)@.guid) && link(next) != 0 && link(next) != old(self)@.node
                ==> final(self)@ == (WalkView {
                guid: old(self)@.guid,
                node: link(next),
                steps: (old(self)@.steps + 1) as usize,
            }) && (r == if old(self)@.steps + 1 < MAX_OBJECT_STEPS {
                WalkStep::<usize>::Continue
            } else {
                WalkStep::<usize>::NotFound
            }),
    {
        if self.steps >= MAX_OBJECT_STEPS {
            return WalkStep::NotFound;
        }
        if let Some(g) = guid {
            if g == self.target_guid {
                return WalkStep::Found(self.current);
            }
        }
        let n: usize = match next {
            Some(v) => v as usize,
            None => 0,
        };
        if n == 0 || n == self.current {
            return WalkStep::NotFound;
        }
        self.current = n;
        self.steps = self.steps + 1;
        if self.steps < MAX_OBJECT_STEPS {
            WalkStep::Continue
        } else {
            WalkStep::NotFound
        }
    }
}

/// Whether a name-cache node may be visited: its address is non-zero, even and not
/// 28, and the step limit has not been reached.
pub open spec fn name_node_live(node: usize, steps: usize) -> bool {
    node != 0 && node & 1 == 0 && node != 28 && steps < MAX_NAME_STEPS
}

/// A walk along the player-name cache for the name of a guid.
pub struct NameWalk {
    guid: u64,
    node: usize,
    steps: usize,
}

impl View for NameWalk {
    type V = WalkView;

    closed spec fn view(&self) -> WalkView {
        WalkView { guid: self.guid, node: self.node, steps: self.steps }
    }
}

impl NameWalk {
    /// A walk from the first node, whose address was read as `first`; there is none
    /// when it was unreadable or zero, or when that node may not be visited.
    pub fn start(guid: u64, first: Option<u32>) -> (r: Option<NameWalk>)
        ensures
            match first {
                Some(f) if f != 0 && name_node_live(f as usize, 0) => r matches Some(w) && w@
                    == WalkView { guid, node: f as usize, steps: 0 },
                _ => r is None,
            },
    {
        match first {
            Some(f) if f != 0 => {
                let node = f as usize;
                if node & 1 == 0 && node != 28 {
                    Some(NameWalk { guid, node, steps: 0 })
                } else {
                    None
                }
            },
            _ => None,
        }
    }

    /// The address of the node to visit.
    pub fn current(&self) -> (a: usize)
        ensures
            a == self@.node,
    {
        self.node
    }

    /// Whether a node whose guid was read as `guid` is the one sought.
    pub fn matches(&self, guid: Option<u64>) -> (b: bool)
        ensures
            b == (guid == Some(self@.guid)),
    {
        match guid {
            Some(g) => g == self.guid,
            None => false,
        }
    }

    /// Visits the current node, whose guid was read as `guid`. When it matches and
    /// `name`, the name read from the node, is non-empty, that name is found. An
    /// unreadable guid ends the walk. Otherwise the walk follows the link `next`
    /// and ends when the link is zero or points back at the node, or when the node
    /// reached may not be visited. A walk on a node that may not be visited finds
    /// nothing.
    pub fn visit(&mut self, guid: Option<u64>, name: Option<String>, next: Option<u32>) -> (r:
        WalkStep<String>)
        ensures
            !name_node_live(old(self)@.node, old(self)@.steps) ==> r == WalkStep::<String>::NotFound
                && final(self)@ == old(self)@,
            name_node_live(old(self)@.node, old(self)@.steps) ==> ({
                let hit = guid == Some(old(self)@.guid) && (name matches Some(n) && n@.len() > 0);
                &&& hit ==> r == WalkStep::Found(name->0) && final(self)@ == old(self)@
                &&& !hit && guid is None ==> r == WalkStep::<String>::NotFound && final(self)@
                    == old(self)@
                &&& !hit && guid is Some && (link(next) == 0 || link(next) == old(self)@.node)
                    ==> r == WalkStep::<String>::NotFound && final(self)@ == old(self)@
                &&& !hit && guid is Some && link(next) != 0 && link(next) != old(self)@.node
                    ==> final(self)@ == (WalkView {
                    guid: old(self)@.guid,
                    node: link(next),
                    steps: (old(self)@.steps + 1) as usize,
                }) && (r == if name_node_live(final(self)@.node, final(self)@.steps) {
                    WalkStep::<String>::Continue
                } else {
                    WalkStep::<String>::NotFound
                })
            }),
    {
        if !(self.node != 0 && self.node & 1 == 0 && self.node != 28 && self.steps
            < MAX_NAME_STEPS) {
            return WalkStep::NotFound;
        }
        if guid.is_none() {
            return WalkStep::NotFound;
        }
        if self.matches(guid) {
            if let Some(n) = name {
                if !n.as_str().is_empty() {
                    return WalkStep::Found(n);
                }
            }
        }
        let n: usize = match next {
            Some(v) => v as usize,
            None => 0,
        };
        if n == 0 || n == self.node {
            return WalkStep::NotFound;
        }
        self.node = n;
        self.steps = self.steps + 1;
        if self.node & 1 == 0 && self.node != 28 && self.steps < MAX_NAME_STEPS {
            WalkStep::Continue
        } else {
            WalkStep::NotFound
        }
    }
}

} // verus!

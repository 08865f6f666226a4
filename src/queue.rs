//! Queue families: which family runs graphics work and which presents.
use vstd::prelude::*;
use vstd::std_specs::hash::group_hash_axioms;

use std::collections::HashSet;

verus! {

broadcast use group_hash_axioms;

/// Queue-capability bit for graphics work.
pub const QUEUE_GRAPHICS: u32 = 0x1;

/// What the engine reads of one queue family of a physical device.
#[derive(Debug, Clone, Copy, PartialEq, Eq, Structural)]
pub struct QueueFamily {
    /// Number of queues in the family.
    pub queue_count: u32,
    /// Capability bits of the family.
    pub queue_flags: u32,
    /// Whether the family can present to the surface.
    pub present_support: bool,
}

impl QueueFamily {
    /// The family has a queue that can run graphics work.
    pub open spec fn spec_graphics(self) -> bool {
        self.queue_count > 0 && self.queue_flags & QUEUE_GRAPHICS == QUEUE_GRAPHICS
    }

    /// The family has a queue that can present.
    pub open spec fn spec_present(self) -> bool {
        self.queue_count > 0 && self.present_support
    }
}

/// The chosen graphics and present queue families.
#[derive(Debug, Clone, Copy, PartialEq, Eq, Structural)]
pub struct FamilyIndices {
    pub graphics: Option<u32>,
    pub present: Option<u32>,
}

/// Scans `families` from index `i` on, on top of the choices `acc` made so far:
/// each family that can do a job becomes its choice, and the scan stops as soon
/// as both jobs have one.
pub open spec fn scan_families(families: Seq<QueueFamily>, i: int, acc: FamilyIndices) -> FamilyIndices
    decreases families.len() - i,
{
    if i < 0 || i >= families.len() {
        acc
    } else {
        let next = FamilyIndices {
            graphics: if families[i].spec_graphics() {
                Some(i as u32)
            } else {
                acc.graphics
            },
            present: if families[i].spec_present() {
                Some(i as u32)
            } else {
                acc.present
            },
        };
        if next.graphics is Some && next.present is Some {
            next
        } else {
            scan_families(families, i + 1, next)
        }
    }
}

impl FamilyIndices {
    /// Chooses the families from what the device reports, in the device's order.
    pub fn new(families: &Vec<QueueFamily>) -> (r: FamilyIndices)
        requires
            families@.len() <= u32::MAX,
        ensures
            r == scan_families(families@, 0, FamilyIndices { graphics: None, present: None }),
    {
        let mut indices = FamilyIndices { graphics: None, present: None };
        let mut i: usize = 0;
        while i < families.len()
            invariant
                i <= families@.len() <= u32::MAX,
                !(indices.graphics is Some && indices.present is Some),
                scan_families(families@, 0, FamilyIndices { graphics: None, present: None })
                    == scan_families(families@, i as int, indices),
            decreases families@.len() - i,
        {
            let family = families[i];
            if family.queue_count > 0 && family.queue_flags & QUEUE_GRAPHICS == QUEUE_GRAPHICS {
                indices.graphics = Some(i as u32);
            }
            if family.queue_count > 0 && family.present_support {
                indices.present = Some(i as u32);
            }
            if indices.is_available() {
                return indices;
            }
            i = i + 1;
        }
        indices
    }

    /// Both families were found.
    pub fn is_available(&self) -> (r: bool)
        ensures
            r == (self.graphics is Some && self.present is Some),
    {
        self.graphics.is_some() && self.present.is_some()
    }

    /// The distinct families to create queues on: both chosen families, or none
    /// when either is missing.
    pub fn get_unique(&self) -> (r: HashSet<u32>)
        ensures
            (self.graphics is Some && self.present is Some) ==> r@ == set![
                self.graphics->Some_0,
                self.present->Some_0,
            ],
            !(self.graphics is Some && self.present is Some) ==> r@ == Set::<u32>::empty(),
    {
        let mut unique: HashSet<u32> = HashSet::new();
        match (self.graphics, self.present) {
            (Some(g), Some(p)) => {
                unique.insert(g);
                unique.insert(p);
                proof {
                    assert(unique@ =~= set![g, p]);
                }
            },
            _ => {},
        }
        unique
    }
}

} // verus!

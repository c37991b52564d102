//! Queue-family resolution: which family serves graphics, compute and
//! presentation on a physical device.

use vstd::prelude::*;
use crate::vk::{has_flags, queue_compute_bit, queue_flags_contain, queue_graphics_bit,
    QUEUE_COMPUTE_BIT, QUEUE_GRAPHICS_BIT};

verus! {

/// What a physical device reports of one queue family, together with the
/// answer of the surface to "can this family present to you?".
#[derive(Clone, Copy, Debug, PartialEq, Eq, Structural)]
pub struct QueueFamily {
    /// The family's `VkQueueFlags`, as the driver reports them.
    pub queue_flags: u32,
    /// Whether the family can present to the surface.
    pub present_support: bool,
}

impl QueueFamily {
    pub open spec fn supports_graphics(self) -> bool {
        has_flags(self.queue_flags, QUEUE_GRAPHICS_BIT)
    }

    pub open spec fn supports_compute(self) -> bool {
        has_flags(self.queue_flags, QUEUE_COMPUTE_BIT)
    }

    /// A combined family offers graphics and compute together.
    pub open spec fn is_combined(self) -> bool {
        self.supports_graphics() && self.supports_compute()
    }
}

/// The family index chosen for each of the three queue roles.
#[derive(Clone, Copy, Debug, PartialEq, Eq, Structural)]
pub struct QueueFamilyIndices {
    pub graphics_family: u32,
    pub compute_family: u32,
    pub present_family: u32,
}

/// What one pass over the families has found for each role so far.
#[derive(Clone, Copy, Debug, PartialEq, Eq, Structural)]
pub struct QueueFamilyScan {
    pub graphics_family: Option<u32>,
    pub compute_family: Option<u32>,
    pub present_family: Option<u32>,
}

/// `k` is the first combined family of `s`.
pub open spec fn is_first_combined(s: Seq<QueueFamily>, k: int) -> bool {
    &&& 0 <= k < s.len()
    &&& s[k].is_combined()
    &&& forall|j: int| 0 <= j < k ==> !(#[trigger] s[j]).is_combined()
}

/// `k` is the first family of `s` that offers compute.
pub open spec fn is_first_compute(s: Seq<QueueFamily>, k: int) -> bool {
    &&& 0 <= k < s.len()
    &&& s[k].supports_compute()
    &&& forall|j: int| 0 <= j < k ==> !(#[trigger] s[j]).supports_compute()
}

/// `k` is the first family of `s` that can present.
pub open spec fn is_first_present(s: Seq<QueueFamily>, k: int) -> bool {
    &&& 0 <= k < s.len()
    &&& s[k].present_support
    &&& forall|j: int| 0 <= j < k ==> !(#[trigger] s[j]).present_support
}

pub open spec fn has_combined(s: Seq<QueueFamily>) -> bool {
    exists|k: int| 0 <= k < s.len() && (#[trigger] s[k]).is_combined()
}

pub open spec fn has_compute(s: Seq<QueueFamily>) -> bool {
    exists|k: int| 0 <= k < s.len() && (#[trigger] s[k]).supports_compute()
}

pub open spec fn has_present(s: Seq<QueueFamily>) -> bool {
    exists|k: int| 0 <= k < s.len() && (#[trigger] s[k]).present_support
}

impl QueueFamilyScan {
    /// The scan is the one that a full pass over `s` yields.
    ///
    /// Graphics goes to the first combined family. Compute goes to that same
    /// family; only where no family is combined does it fall back to the
    /// first family that offers compute. Presentation goes to the first
    /// family that can present, whatever the other roles got.
    pub open spec fn describes(self, s: Seq<QueueFamily>) -> bool {
        &&& match self.graphics_family {
            Some(g) => is_first_combined(s, g as int),
            None => !has_combined(s),
        }
        &&& if has_combined(s) {
            self.compute_family == self.graphics_family
        } else {
            match self.compute_family {
                Some(c) => is_first_compute(s, c as int),
                None => !has_compute(s),
            }
        }
        &&& match self.present_family {
            Some(p) => is_first_present(s, p as int),
            None => !has_present(s),
        }
    }

    /// All three roles are resolved.
    pub open spec fn is_complete(self) -> bool {
        self.graphics_family is Some && self.compute_family is Some && self.present_family is Some
    }

    /// The indices of a complete scan; `None` while a role is unresolved.
    pub fn complete(&self) -> (r: Option<QueueFamilyIndices>)
        ensures
            r is Some <==> self.is_complete(),
            r matches Some(q) ==> self.graphics_family == Some(q.graphics_family)
                && self.compute_family == Some(q.compute_family)
                && self.present_family == Some(q.present_family),
    {
        match (self.graphics_family, self.compute_family, self.present_family) {
            (Some(graphics_family), Some(compute_family), Some(present_family)) => Some(
                QueueFamilyIndices { graphics_family, compute_family, present_family },
            ),
            _ => None,
        }
    }
}

impl QueueFamilyIndices {
    /// The indices are the ones that resolution over `s` yields: graphics and
    /// compute share the first combined family, presentation has the first
    /// family that can present.
    pub open spec fn resolves(self, s: Seq<QueueFamily>) -> bool {
        &&& is_first_combined(s, self.graphics_family as int)
        &&& self.compute_family == self.graphics_family
        &&& is_first_present(s, self.present_family as int)
    }
}

/// A family index never exceeds what a `u32` holds.
pub open spec fn addressable(s: Seq<QueueFamily>) -> bool {
    s.len() <= u32::MAX
}

proof fn lemma_combined_mask(flags: u32)
    ensures
        has_flags(flags, QUEUE_GRAPHICS_BIT | QUEUE_COMPUTE_BIT) <==> has_flags(
            flags,
            QUEUE_GRAPHICS_BIT,
        ) && has_flags(flags, QUEUE_COMPUTE_BIT),
{
    assert((flags & (1u32 | 2u32) == (1u32 | 2u32)) <==> (flags & 1u32 == 1u32) && (flags & 2u32
        == 2u32)) by (bit_vector);
}

/// Makes one pass over the families of a physical device and reports what it
/// found for each role.
pub fn scan_queue_families(families: &Vec<QueueFamily>) -> (scan: QueueFamilyScan)
    requires
        addressable(families@),
    ensures
        scan.describes(families@),
{
    let combined: u32 = queue_graphics_bit() | queue_compute_bit();
    let compute: u32 = queue_compute_bit();
    let mut scan = QueueFamilyScan { graphics_family: None, compute_family: None, present_family: None };
    let mut i: usize = 0;
    while i < families.len()
        invariant
            i <= families@.len() <= u32::MAX,
            combined == QUEUE_GRAPHICS_BIT | QUEUE_COMPUTE_BIT,
            compute == QUEUE_COMPUTE_BIT,
            scan.describes(families@.take(i as int)),
        decreases families@.len() - i,
    {
        let family = families[i];
        let ghost before = families@.take(i as int);
        let ghost after = families@.take(i + 1);
        proof {
            lemma_combined_mask(family.queue_flags);
            assert(forall|j: int| 0 <= j < i ==> before[j] == after[j]);
            assert(after[i as int] == family);
            assert(has_combined(before) ==> has_combined(after)) by {
                if has_combined(before) {
                    let k = choose|k: int| 0 <= k < before.len() && (#[trigger] before[k]).is_combined();
                    assert(after[k].is_combined());
                }
            }
            assert(has_compute(before) ==> has_compute(after)) by {
                if has_compute(before) {
                    let k = choose|k: int| 0 <= k < before.len() && (#[trigger] before[k]).supports_compute();
                    assert(after[k].supports_compute());
                }
            }
            assert(has_present(before) ==> has_present(after)) by {
                if has_present(before) {
                    let k = choose|k: int| 0 <= k < before.len() && (#[trigger] before[k]).present_support;
                    assert(after[k].present_support);
                }
            }
        }
        let index: u32 = i as u32;
        if queue_flags_contain(family.queue_flags, combined) {
            if scan.graphics_family.is_none() {
                scan.graphics_family = Some(index);
                scan.compute_family = Some(index);
            }
        } else if queue_flags_contain(family.queue_flags, compute) {
            if scan.compute_family.is_none() {
                scan.compute_family = Some(index);
            }
        }
        if family.present_support && scan.present_family.is_none() {
            scan.present_family = Some(index);
        }
        i += 1;
        proof {
            assert(scan.describes(after));
        }
    }
    proof {
        assert(families@.take(i as int) =~= families@);
    }
    scan
}

/// Resolves the three queue roles of a physical device.
///
/// A device on which a role stays unresolved is unsupported, which is an
/// answer and not a fault: the result is `None`.
pub fn find_queue_families(families: &Vec<QueueFamily>) -> (r: Option<QueueFamilyIndices>)
    requires
        addressable(families@),
    ensures
        r is Some <==> has_combined(families@) && has_present(families@),
        r matches Some(q) ==> q.resolves(families@),
{
    scan_queue_families(families).complete()
}

} // verus!

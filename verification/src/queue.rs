//! Queue-family discovery: given the capabilities of each queue family on one
//! device, decide which family indices to use for graphics submission and for
//! presentation, preferring a single family that does both.

use vstd::prelude::*;

verus! {

/// Capabilities of one queue family on one device, as reported by the
/// platform for a particular surface.
#[derive(Clone, Copy, Debug, PartialEq, Eq, Structural)]
pub struct QueueFamily {
    /// The family accepts graphics command submission.
    pub graphics: bool,
    /// The family can present to the surface under negotiation.
    pub present: bool,
}

/// The resolved pair of queue-family indices: one for graphics submission and
/// one for presentation. The two may be equal (a single combined family).
#[derive(Clone, Copy, Debug, PartialEq, Eq, Structural)]
pub struct QueueIndexes {
    pub graphics: u32,
    pub present: u32,
}

/// A family that supports both graphics and presentation.
pub open spec fn combined(f: QueueFamily) -> bool {
    f.graphics && f.present
}

pub open spec fn has_combined(fams: Seq<QueueFamily>) -> bool {
    exists|i: int| 0 <= i < fams.len() && combined(fams[i])
}

pub open spec fn has_graphics(fams: Seq<QueueFamily>) -> bool {
    exists|i: int| 0 <= i < fams.len() && fams[i].graphics
}

pub open spec fn has_present(fams: Seq<QueueFamily>) -> bool {
    exists|i: int| 0 <= i < fams.len() && fams[i].present
}

/// A viable assignment exists: some family can do graphics and some family
/// (possibly another) can present.
pub open spec fn resolvable(fams: Seq<QueueFamily>) -> bool {
    has_graphics(fams) && has_present(fams)
}

/// `i` is the first combined family in the list.
pub open spec fn is_first_combined(fams: Seq<QueueFamily>, i: int) -> bool {
    &&& 0 <= i < fams.len()
    &&& combined(fams[i])
    &&& forall|j: int| 0 <= j < i ==> !combined(fams[j])
}

/// `i` is the last graphics-capable family in the list.
pub open spec fn is_last_graphics(fams: Seq<QueueFamily>, i: int) -> bool {
    &&& 0 <= i < fams.len()
    &&& fams[i].graphics
    &&& forall|j: int| i < j < fams.len() ==> !fams[j].graphics
}

/// `i` is the last presentation-capable family in the list.
pub open spec fn is_last_present(fams: Seq<QueueFamily>, i: int) -> bool {
    &&& 0 <= i < fams.len()
    &&& fams[i].present
    &&& forall|j: int| i < j < fams.len() ==> !fams[j].present
}

/// What the resolver returns for `fams`: the first combined family for both
/// roles when one exists; otherwise the last graphics-capable index paired
/// with the last presentation-capable index.
pub open spec fn is_resolution(fams: Seq<QueueFamily>, r: QueueIndexes) -> bool {
    if has_combined(fams) {
        &&& is_first_combined(fams, r.graphics as int)
        &&& r.present == r.graphics
    } else {
        &&& is_last_graphics(fams, r.graphics as int)
        &&& is_last_present(fams, r.present as int)
    }
}

/// A combined family always wins: whenever some family supports both
/// graphics and presentation, the resolution uses the earliest such family
/// for both roles, whatever separate graphics- or presentation-capable
/// families stand before it in scan order.
pub proof fn lemma_combined_family_wins(fams: Seq<QueueFamily>, r: QueueIndexes)
    requires
        has_combined(fams),
        is_resolution(fams, r),
    ensures
        r.present == r.graphics,
        combined(fams[r.graphics as int]),
        forall|j: int| 0 <= j < r.graphics ==> !combined(fams[j]),
{
}

/// With only disjoint capabilities on offer, the resolution pairs the last
/// graphics-capable index with the last presentation-capable index, in
/// whichever order the two kinds appear.
pub proof fn lemma_disjoint_families_take_last(fams: Seq<QueueFamily>, r: QueueIndexes)
    requires
        !has_combined(fams),
        is_resolution(fams, r),
    ensures
        is_last_graphics(fams, r.graphics as int),
        is_last_present(fams, r.present as int),
{
}

impl QueueIndexes {
    /// Scan the queue families in index order and pick the indices to use.
    /// A family supporting both graphics and presentation is preferred
    /// unconditionally and ends the scan at once; with only disjoint
    /// capabilities, the last index seen of each kind is kept.
    pub fn resolve(families: &Vec<QueueFamily>) -> (r: Option<QueueIndexes>)
        requires
            families@.len() <= u32::MAX,
        ensures
            r is Some <==> resolvable(families@),
            r matches Some(q) ==> is_resolution(families@, q),
    {
        let mut graphics: Option<u32> = None;
        let mut present: Option<u32> = None;
        let n = families.len();
        let mut i: usize = 0;
        while i < n
            invariant
                n == families@.len(),
                n <= u32::MAX,
                0 <= i <= n,
                forall|j: int| 0 <= j < i ==> !combined(families@[j]),
                graphics is Some <==> exists|j: int| 0 <= j < i && families@[j].graphics,
                graphics matches Some(g) ==> {
                    &&& 0 <= g < i
                    &&& families@[g as int].graphics
                    &&& forall|j: int| g < j < i ==> !families@[j].graphics
                },
                present is Some <==> exists|j: int| 0 <= j < i && families@[j].present,
                present matches Some(p) ==> {
                    &&& 0 <= p < i
                    &&& families@[p as int].present
                    &&& forall|j: int| p < j < i ==> !families@[j].present
                },
            decreases n - i,
        {
            let fam = families[i];
            let mut both = false;
            if fam.graphics {
                graphics = Some(i as u32);
                both = true;
            }
            if fam.present {
                present = Some(i as u32);
                if both {
                    return Some(QueueIndexes { graphics: i as u32, present: i as u32 });
                }
            }
            i = i + 1;
        }
        match (graphics, present) {
            (Some(g), Some(p)) => {
                proof {
                    assert(!has_combined(families@));
                }
                Some(QueueIndexes { graphics: g, present: p })
            },
            _ => {
                proof {
                    assert(!resolvable(families@)) by {
                        if has_graphics(families@) && has_present(families@) {
                            assert(graphics is Some);
                            assert(present is Some);
                        }
                    }
                }
                None
            },
        }
    }

    /// The two indices as an array, graphics first.
    pub fn as_array(&self) -> (r: [u32; 2])
        ensures
            r@ == seq![self.graphics, self.present],
    {
        let r = [self.graphics, self.present];
        proof {
            assert(r@ =~= seq![self.graphics, self.present]);
        }
        r
    }

    /// The distinct family indices, graphics first: one entry when the two
    /// roles share a family, otherwise both.
    pub fn unique_indices(&self) -> (r: Vec<u32>)
        ensures
            self.graphics == self.present ==> r@ == seq![self.graphics],
            self.graphics != self.present ==> r@ == seq![self.graphics, self.present],
    {
        let mut r: Vec<u32> = Vec::new();
        r.push(self.graphics);
        if self.graphics != self.present {
            r.push(self.present);
            proof {
                assert(r@ =~= seq![self.graphics, self.present]);
            }
        } else {
            proof {
                assert(r@ =~= seq![self.graphics]);
            }
        }
        r
    }
}

} // verus!

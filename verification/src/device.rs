//! Physical-device selection: filter the enumerated candidates down to the
//! viable ones (a workable queue assignment, the swapchain extension, and a
//! non-empty format and present-mode list), score the survivors, and pick
//! the best, earliest enumeration order winning ties.

use vstd::prelude::*;

use crate::queue::QueueFamily;
use crate::queue::QueueIndexes;
use crate::queue::is_resolution;
use crate::queue::resolvable;
use crate::surface::SwapChainSupport;

verus! {

/// One enumerated physical device, reduced to what selection reads: its
/// queue families' capabilities, its advertised extension names (as byte
/// strings), its surface capability snapshot, and the properties the score
/// weighs.
pub struct DeviceCandidate {
    pub families: Vec<QueueFamily>,
    pub extensions: Vec<Vec<u8>>,
    pub support: SwapChainSupport,
    pub max_image_dimension_2d: u32,
    pub discrete: bool,
}

/// No enumerated device survived filtering. Fatal: selection cannot proceed.
#[derive(Clone, Copy, Debug, PartialEq, Eq, Structural)]
pub struct NoSuitableDeviceError;

/// The required swapchain-presentation extension name, as bytes:
/// `VK_KHR_swapchain`.
pub open spec fn swapchain_ext_name() -> Seq<u8> {
    seq![86u8, 75, 95, 75, 72, 82, 95, 115, 119, 97, 112, 99, 104, 97, 105, 110]
}

/// `exts` lists `name`.
pub open spec fn spec_has_extension(exts: Seq<Vec<u8>>, name: Seq<u8>) -> bool {
    exists|i: int| 0 <= i < exts.len() && exts[i]@ == name
}

/// A candidate survives filtering: its queue families admit a resolution,
/// it advertises the swapchain extension, and its snapshot's format and
/// present-mode lists are both non-empty.
pub open spec fn spec_viable(c: DeviceCandidate) -> bool {
    &&& resolvable(c.families@)
    &&& spec_has_extension(c.extensions@, swapchain_ext_name())
    &&& c.support.formats@.len() > 0
    &&& c.support.present_modes@.len() > 0
}

/// The selection score of a candidate: its maximum 2D image dimension
/// limit, plus a fixed bonus for a discrete-class device. The weighting is
/// the crate's one scoring policy; swap this function to change it.
pub open spec fn spec_score(c: DeviceCandidate) -> int {
    c.max_image_dimension_2d + (if c.discrete { 1000int } else { 0int })
}

/// `i` is the index selection must return for `cs`: a viable candidate of
/// maximal score, the earliest such when scores tie.
pub open spec fn is_selected(cs: Seq<DeviceCandidate>, i: int) -> bool {
    &&& 0 <= i < cs.len()
    &&& spec_viable(cs[i])
    &&& forall|j: int|
        0 <= j < cs.len() && spec_viable(#[trigger] cs[j]) ==> spec_score(cs[j]) <= spec_score(cs[i])
    &&& forall|j: int|
        0 <= j < i && spec_viable(#[trigger] cs[j]) ==> spec_score(cs[j]) < spec_score(cs[i])
}

/// A candidate that does not advertise the swapchain extension is never the
/// selected device, whatever its score.
pub proof fn lemma_missing_extension_never_selected(cs: Seq<DeviceCandidate>, i: int)
    requires
        is_selected(cs, i),
    ensures
        spec_has_extension(cs[i].extensions@, swapchain_ext_name()),
{
}

/// Byte-wise equality of two byte strings.
fn bytes_eq(a: &Vec<u8>, b: &Vec<u8>) -> (r: bool)
    ensures
        r == (a@ == b@),
{
    if a.len() != b.len() {
        return false;
    }
    let n = a.len();
    let mut i: usize = 0;
    while i < n
        invariant
            n == a@.len(),
            n == b@.len(),
            0 <= i <= n,
            forall|j: int| 0 <= j < i ==> a@[j] == b@[j],
        decreases n - i,
    {
        if a[i] != b[i] {
            return false;
        }
        i = i + 1;
    }
    proof {
        assert(a@ =~= b@);
    }
    true
}

/// Whether `exts` lists `name`.
fn has_extension(exts: &Vec<Vec<u8>>, name: &Vec<u8>) -> (r: bool)
    ensures
        r == spec_has_extension(exts@, name@),
{
    let n = exts.len();
    let mut i: usize = 0;
    while i < n
        invariant
            n == exts@.len(),
            0 <= i <= n,
            forall|j: int| 0 <= j < i ==> exts@[j]@ != name@,
        decreases n - i,
    {
        if bytes_eq(&exts[i], name) {
            return true;
        }
        i = i + 1;
    }
    false
}

/// The required swapchain extension name, `VK_KHR_swapchain`, as bytes.
pub fn swapchain_extension_name() -> (r: Vec<u8>)
    ensures
        r@ == swapchain_ext_name(),
{
    let r: Vec<u8> = vec![86u8, 75, 95, 75, 72, 82, 95, 115, 119, 97, 112, 99, 104, 97, 105, 110];
    proof {
        assert(r@ =~= swapchain_ext_name());
    }
    r
}

/// Score a candidate under the crate's scoring policy.
pub fn device_score(c: &DeviceCandidate) -> (r: u64)
    ensures
        r as int == spec_score(*c),
{
    c.max_image_dimension_2d as u64 + (if c.discrete { 1000u64 } else { 0u64 })
}

/// Whether a candidate survives filtering.
pub fn viable(c: &DeviceCandidate) -> (r: bool)
    requires
        c.families@.len() <= u32::MAX,
    ensures
        r == spec_viable(*c),
{
    let queues = QueueIndexes::resolve(&c.families);
    if queues.is_none() {
        return false;
    }
    let ext_name = swapchain_extension_name();
    has_extension(&c.extensions, &ext_name) && c.support.formats.len() > 0
        && c.support.present_modes.len() > 0
}

/// Select the device to use: reject every candidate that is not viable,
/// score the rest, and return the index of the best-scoring one (the
/// earliest on a tie) together with its resolved queue selection. Fails
/// exactly when no candidate is viable.
pub fn pick_device(candidates: &Vec<DeviceCandidate>) -> (r: Result<
    (usize, QueueIndexes),
    NoSuitableDeviceError,
>)
    requires
        forall|i: int|
            0 <= i < candidates@.len() ==> (#[trigger] candidates@[i]).families@.len() <= u32::MAX,
    ensures
        r matches Ok((i, q)) ==> {
            &&& is_selected(candidates@, i as int)
            &&& is_resolution(candidates@[i as int].families@, q)
        },
        r is Err <==> (forall|j: int| 0 <= j < candidates@.len() ==> !spec_viable(#[trigger] candidates@[j])),
{
    let n = candidates.len();
    let mut best: Option<(usize, QueueIndexes)> = None;
    let mut best_score: u64 = 0;
    let mut i: usize = 0;
    while i < n
        invariant
            n == candidates@.len(),
            0 <= i <= n,
            forall|k: int|
                0 <= k < candidates@.len() ==> (#[trigger] candidates@[k]).families@.len()
                    <= u32::MAX,
            best is None ==> forall|j: int| 0 <= j < i ==> !spec_viable(#[trigger] candidates@[j]),
            best matches Some((bi, bq)) ==> {
                &&& 0 <= bi < i
                &&& spec_viable(candidates@[bi as int])
                &&& best_score as int == spec_score(candidates@[bi as int])
                &&& is_resolution(candidates@[bi as int].families@, bq)
                &&& forall|j: int|
                    0 <= j < i && spec_viable(#[trigger] candidates@[j]) ==> spec_score(
                        candidates@[j],
                    ) <= best_score as int
                &&& forall|j: int|
                    0 <= j < bi && spec_viable(#[trigger] candidates@[j]) ==> spec_score(
                        candidates@[j],
                    ) < best_score as int
            },
        decreases n - i,
    {
        let c = &candidates[i];
        match QueueIndexes::resolve(&c.families) {
            Some(q) => {
                let ext_name = swapchain_extension_name();
                if has_extension(&c.extensions, &ext_name) && c.support.formats.len() > 0
                    && c.support.present_modes.len() > 0 {
                    let s = device_score(c);
                    let replace = match best {
                        None => true,
                        Some(_) => s > best_score,
                    };
                    if replace {
                        best = Some((i, q));
                        best_score = s;
                    }
                }
            },
            None => {},
        }
        i = i + 1;
    }
    match best {
        Some((bi, bq)) => Ok((bi, bq)),
        None => Err(NoSuitableDeviceError),
    }
}

} // verus!

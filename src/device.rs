//! Choice of the physical device and of the queue family that serves both
//! the compute and the graphics stage and presents to the surface.
use vstd::prelude::*;
use crate::error::SetupError;

verus! {

/// Queue capability flag: graphics.
pub const QUEUE_GRAPHICS: u32 = 0x1;

/// Queue capability flag: compute.
pub const QUEUE_COMPUTE: u32 = 0x2;

/// A queue family as a device reports it: its raw capability flags, and
/// whether it can present to the surface.
#[derive(Debug, Clone, Copy, PartialEq, Eq, Structural)]
pub struct QueueFamily {
    pub flags: u32,
    pub presents: bool,
}

/// The queue families of one physical device, in the order it reports them.
pub struct DeviceQueues {
    pub families: Vec<QueueFamily>,
}

/// The device and family index that were chosen.
#[derive(Debug, Clone, Copy, PartialEq, Eq, Structural)]
pub struct QueueChoice {
    pub device: usize,
    pub family: u32,
}

/// The family runs graphics and compute work and presents.
pub open spec fn family_suitable(f: QueueFamily) -> bool {
    &&& f.flags & (QUEUE_GRAPHICS | QUEUE_COMPUTE) == (QUEUE_GRAPHICS | QUEUE_COMPUTE)
    &&& f.presents
}

pub open spec fn has_suitable_family(fams: Seq<QueueFamily>) -> bool {
    exists|q: int| 0 <= q < fams.len() && family_suitable(#[trigger] fams[q])
}

/// `q` is the first suitable family of `fams`.
pub open spec fn first_suitable_family(fams: Seq<QueueFamily>, q: int) -> bool {
    &&& 0 <= q < fams.len()
    &&& family_suitable(fams[q])
    &&& forall|p: int| 0 <= p < q ==> !family_suitable(#[trigger] fams[p])
}

/// The index of the first suitable queue family, if any.
pub fn find_queue_family(fams: &Vec<QueueFamily>) -> (r: Option<u32>)
    requires
        fams@.len() <= u32::MAX,
    ensures
        match r {
            Some(q) => first_suitable_family(fams@, q as int),
            None => !has_suitable_family(fams@),
        },
{
    let mut i: usize = 0;
    while i < fams.len()
        invariant
            fams@.len() <= u32::MAX,
            i <= fams@.len(),
            forall|p: int| 0 <= p < i ==> !family_suitable(#[trigger] fams@[p]),
        decreases fams@.len() - i,
    {
        let f = fams[i];
        let both = QUEUE_GRAPHICS | QUEUE_COMPUTE;
        if f.flags & both == both && f.presents {
            return Some(i as u32);
        }
        i = i + 1;
    }
    None
}

/// The first device (in the order given) that has a suitable queue family,
/// with the first such family of it.
pub fn select_queue(devices: &Vec<DeviceQueues>) -> (r: Result<QueueChoice, SetupError>)
    requires
        forall|d: int| 0 <= d < devices@.len() ==> (#[trigger] devices@[d]).families@.len() <= u32::MAX,
    ensures
        match r {
            Ok(c) => {
                &&& c.device < devices@.len()
                &&& first_suitable_family(devices@[c.device as int].families@, c.family as int)
                &&& forall|d: int| 0 <= d < c.device ==> !has_suitable_family(#[trigger] devices@[d].families@)
            },
            Err(e) => {
                &&& e == SetupError::NoSuitableDevice
                &&& forall|d: int| 0 <= d < devices@.len() ==> !has_suitable_family(#[trigger] devices@[d].families@)
            },
        },
{
    let mut d: usize = 0;
    while d < devices.len()
        invariant
            d <= devices@.len(),
            forall|k: int| 0 <= k < devices@.len() ==> (#[trigger] devices@[k]).families@.len() <= u32::MAX,
            forall|k: int| 0 <= k < d ==> !has_suitable_family(#[trigger] devices@[k].families@),
        decreases devices@.len() - d,
    {
        match find_queue_family(&devices[d].families) {
            Some(q) => {
                return Ok(QueueChoice { device: d, family: q });
            },
            None => {},
        }
        d = d + 1;
    }
    Err(SetupError::NoSuitableDevice)
}

} // verus!

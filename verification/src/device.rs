//! Device bootstrap decisions: which queue families and which physical device
//! are used, and whether the requested instance layers are available.

use vstd::prelude::*;
use crate::surface::{PresentMode, SurfaceFormat};

verus! {

/// What the policy reads of one queue family: the capability flags it
/// advertises and whether it can present to the target surface.
#[derive(Clone, Copy, Debug, PartialEq, Eq, Structural)]
pub struct QueueFamily {
    pub supports_graphics: bool,
    pub supports_transfer: bool,
    pub supports_present: bool,
}

impl QueueFamily {
    /// A family the graphics work can be submitted to: it must advertise both
    /// graphics and transfer capability.
    pub open spec fn spec_fits_graphics(&self) -> bool {
        self.supports_graphics && self.supports_transfer
    }

    #[verifier::when_used_as_spec(spec_fits_graphics)]
    pub fn fits_graphics(&self) -> (r: bool)
        ensures
            r == self.spec_fits_graphics(),
    {
        self.supports_graphics && self.supports_transfer
    }
}

/// What the policy reads of one physical device when choosing among them.
#[derive(Clone, Debug)]
pub struct DeviceProfile {
    pub queue_families: Vec<QueueFamily>,
    pub formats: Vec<SurfaceFormat>,
    pub present_modes: Vec<PresentMode>,
    pub supports_required_extensions: bool,
    pub supports_required_features: bool,
}

/// Picks the queue family graphics work is submitted to: the first family
/// advertising both graphics and transfer capability.
pub fn select_graphics_queue_family(families: &Vec<QueueFamily>) -> (r: Option<u32>)
    requires
        families@.len() <= u32::MAX,
    ensures
        r is Some <==> exists|i: int| 0 <= i < families@.len() && families@[i].fits_graphics(),
        r matches Some(i) ==> {
            &&& i < families@.len()
            &&& families@[i as int].fits_graphics()
            &&& forall|j: int| 0 <= j < i ==> !families@[j].fits_graphics()
        },
{
    let n = families.len();
    let mut k: usize = 0;
    while k < n
        invariant
            n == families@.len(),
            n <= u32::MAX,
            k <= n,
            forall|j: int| 0 <= j < k ==> !families@[j].fits_graphics(),
        decreases n - k,
    {
        if families[k].fits_graphics() {
            return Some(k as u32);
        }
        k += 1;
    }
    None
}

/// Picks the queue family presentation is submitted to: the first family that
/// can present to the surface.
pub fn select_present_queue_family(families: &Vec<QueueFamily>) -> (r: Option<u32>)
    requires
        families@.len() <= u32::MAX,
    ensures
        r is Some <==> exists|i: int| 0 <= i < families@.len() && families@[i].supports_present,
        r matches Some(i) ==> {
            &&& i < families@.len()
            &&& families@[i as int].supports_present
            &&& forall|j: int| 0 <= j < i ==> !families@[j].supports_present
        },
{
    let n = families.len();
    let mut k: usize = 0;
    while k < n
        invariant
            n == families@.len(),
            n <= u32::MAX,
            k <= n,
            forall|j: int| 0 <= j < k ==> !families@[j].supports_present,
        decreases n - k,
    {
        if families[k].supports_present {
            return Some(k as u32);
        }
        k += 1;
    }
    None
}

/// Whether the device offers every required extension and feature.
pub open spec fn spec_physical_device_support(p: &DeviceProfile) -> bool {
    p.supports_required_extensions && p.supports_required_features
}

#[verifier::when_used_as_spec(spec_physical_device_support)]
pub fn physical_device_support(p: &DeviceProfile) -> (r: bool)
    ensures
        r == spec_physical_device_support(p),
{
    p.supports_required_extensions && p.supports_required_features
}

/// A device the whole pipeline can run on: a graphics family, a present
/// family, at least one surface format, the FIFO present mode, and every
/// required extension and feature.
pub open spec fn spec_device_suitable(p: &DeviceProfile) -> bool {
    &&& exists|i: int| 0 <= i < p.queue_families@.len() && p.queue_families@[i].fits_graphics()
    &&& exists|i: int| 0 <= i < p.queue_families@.len() && p.queue_families@[i].supports_present
    &&& p.formats@.len() > 0
    &&& p.present_modes@.contains(PresentMode::Fifo)
    &&& spec_physical_device_support(p)
}

/// Decides whether one physical device is usable.
pub fn device_suitable(p: &DeviceProfile) -> (r: bool)
    requires
        p.queue_families@.len() <= u32::MAX,
    ensures
        r == spec_device_suitable(p),
{
    let graphics = select_graphics_queue_family(&p.queue_families);
    let present = select_present_queue_family(&p.queue_families);
    let format = crate::surface::select_swapchain_format(&p.formats);
    let mode = crate::surface::select_swapchain_present_mode(&p.present_modes);
    graphics.is_some() && present.is_some() && format.is_some() && mode.is_some()
        && physical_device_support(p)
}

/// Picks the physical device: the first enumerated device that is suitable.
pub fn select_physical_device(profiles: &Vec<DeviceProfile>) -> (r: Option<usize>)
    requires
        forall|i: int|
            0 <= i < profiles@.len() ==> #[trigger] profiles@[i].queue_families@.len() <= u32::MAX,
    ensures
        r is Some <==> exists|i: int| 0 <= i < profiles@.len() && spec_device_suitable(&profiles@[i]),
        r matches Some(i) ==> {
            &&& i < profiles@.len()
            &&& spec_device_suitable(&profiles@[i as int])
            &&& forall|j: int| 0 <= j < i ==> !spec_device_suitable(&profiles@[j])
        },
{
    let n = profiles.len();
    let mut k: usize = 0;
    while k < n
        invariant
            n == profiles@.len(),
            k <= n,
            forall|i: int|
                0 <= i < profiles@.len() ==> #[trigger] profiles@[i].queue_families@.len()
                    <= u32::MAX,
            forall|j: int| 0 <= j < k ==> !spec_device_suitable(&profiles@[j]),
        decreases n - k,
    {
        if device_suitable(&profiles[k]) {
            return Some(k);
        }
        k += 1;
    }
    None
}

/// Whether `name` occurs among the available layer names.
pub open spec fn layer_available(available: Seq<String>, name: Seq<char>) -> bool {
    exists|j: int| 0 <= j < available.len() && available[j]@ == name
}

/// Whether every requested layer name occurs among the available ones.
pub open spec fn spec_all_layers_available(enabled: Seq<String>, available: Seq<String>) -> bool {
    forall|i: int| 0 <= i < enabled.len() ==> layer_available(available, #[trigger] enabled[i]@)
}

/// Decides whether the instance may be created with the requested validation
/// layers: every requested layer must be among those the library reports.
pub fn layers_supported(enabled: &Vec<String>, available: &Vec<String>) -> (r: bool)
    ensures
        r == spec_all_layers_available(enabled@, available@),
{
    let n = enabled.len();
    let m = available.len();
    let mut k: usize = 0;
    while k < n
        invariant
            n == enabled@.len(),
            m == available@.len(),
            k <= n,
            forall|i: int| 0 <= i < k ==> layer_available(available@, #[trigger] enabled@[i]@),
        decreases n - k,
    {
        let mut found = false;
        let mut t: usize = 0;
        while t < m
            invariant
                m == available@.len(),
                t <= m,
                k < n == enabled@.len(),
                found ==> layer_available(available@, enabled@[k as int]@),
                !found ==> forall|j: int| 0 <= j < t ==> available@[j]@ != enabled@[k as int]@,
            decreases m - t,
        {
            if available[t] == enabled[k] {
                found = true;
            }
            t += 1;
        }
        if !found {
            assert(!layer_available(available@, enabled@[k as int]@));
            assert(!spec_all_layers_available(enabled@, available@));
            return false;
        }
        k += 1;
    }
    assert(spec_all_layers_available(enabled@, available@));
    true
}

/// The distinct queue-family indices a logical device is created over: one
/// entry when graphics and present share a family, two otherwise.
pub fn unique_queue_family_indices(graphics: u32, present: u32) -> (r: Vec<u32>)
    ensures
        graphics == present ==> r@ =~= seq![graphics],
        graphics != present ==> r@ =~= seq![graphics, present],
        r@.contains(graphics),
        r@.contains(present),
{
    let mut r: Vec<u32> = Vec::new();
    r.push(graphics);
    if present != graphics {
        r.push(present);
    }
    assert(r@.contains(graphics)) by {
        assert(r@[0] == graphics);
    }
    assert(r@.contains(present)) by {
        if graphics == present {
            assert(r@[0] == present);
        } else {
            assert(r@[1] == present);
        }
    }
    r
}

/// Looks a created queue up by its family index: the first created queue whose
/// family matches.
pub fn find_queue(queue_families: &Vec<u32>, family: u32) -> (r: Option<usize>)
    ensures
        r is Some <==> queue_families@.contains(family),
        r matches Some(i) ==> {
            &&& i < queue_families@.len()
            &&& queue_families@[i as int] == family
            &&& forall|j: int| 0 <= j < i ==> queue_families@[j] != family
        },
{
    let n = queue_families.len();
    let mut k: usize = 0;
    while k < n
        invariant
            n == queue_families@.len(),
            k <= n,
            forall|j: int| 0 <= j < k ==> queue_families@[j] != family,
        decreases n - k,
    {
        if queue_families[k] == family {
            assert(queue_families@.contains(family));
            return Some(k);
        }
        k += 1;
    }
    None
}

} // verus!

//! Negotiation of one GPU instance/device pair shared by the compositor
//! runtime and the GPU backend.
//!
//! Both subsystems must end up holding the same native handles, so the
//! bridge computes, before any native object is created: the exact extension
//! sets to enable (the union of what either side requires, never a subset of
//! either), the API version gates, the layer list, and the graphics queue
//! family. Every failure here is fatal to startup: no valid pairing exists.

use vstd::prelude::*;
use crate::errors::StartupError;
use crate::extensions::{
    contains_extension, portability_enumeration_name, portability_enumeration_extension,
    retain_available, split_ascii_whitespace, split_ws_spec, timeline_semaphore_extension,
    timeline_semaphore_name, union_extensions, validation_layer, validation_layer_name,
};

verus! {

/// Diagnostic instance flags. Validation is requested in debug builds;
/// the debug-utils extension is additionally requested only where the
/// platform tolerates it.
#[derive(Clone, Copy, Debug, PartialEq, Eq, Structural)]
pub struct InstanceFlags {
    pub validation: bool,
    pub debug: bool,
}

/// The diagnostic flags a build requests: validation in debug builds, and
/// debug utilities only where the platform does not reject the extension.
pub fn instance_flags(debug_build: bool, allow_debug_utils: bool) -> (f: InstanceFlags)
    ensures
        f.validation == debug_build,
        f.debug == (debug_build && allow_debug_utils),
{
    InstanceFlags { validation: debug_build, debug: debug_build && allow_debug_utils }
}

/// Everything instance creation needs, computed before any native call.
pub struct InstancePlan {
    /// Extension names to enable: the GPU backend's requirements followed by
    /// the compositor's (duplicates allowed).
    pub enabled_extensions: Vec<Vec<u8>>,
    /// Layer names to enable: the requested layers that the driver offers.
    pub enabled_layers: Vec<Vec<u8>>,
    /// Whether instance creation must pass the enumerate-portability flag
    /// (required exactly when the portability-enumeration extension is
    /// enabled).
    pub enumerate_portability: bool,
    /// The packed API version to create the instance with.
    pub api_version: u32,
}

/// The layers a build requests: the validation layer in debug builds,
/// nothing otherwise.
pub open spec fn requested_layers_spec(validation: bool) -> Seq<Seq<u8>> {
    if validation {
        seq![validation_layer_name()]
    } else {
        Seq::empty()
    }
}

/// Computes the instance-creation plan.
///
/// Fails with `VersionMismatch` exactly when the driver's instance-level API
/// version lies below the target version. Otherwise the plan enables the
/// union of the GPU backend's required instance extensions and the
/// compositor's (reported as one whitespace-separated byte string), keeps
/// the requested layers the driver offers, and asks for portability
/// enumeration exactly when the union requires it.
pub fn plan_instance(
    gpu_required: &Vec<Vec<u8>>,
    compositor_required: &Vec<u8>,
    driver_api_version: u32,
    target_api_version: u32,
    flags: InstanceFlags,
    available_layers: &Vec<Vec<u8>>,
) -> (r: Result<InstancePlan, StartupError>)
    ensures
        r is Err <==> driver_api_version < target_api_version,
        r matches Err(e) ==> e == StartupError::VersionMismatch,
        r matches Ok(p) ==> {
            &&& p.enabled_extensions.deep_view() == gpu_required.deep_view() + split_ws_spec(
                compositor_required@,
            )
            &&& p.enabled_layers.deep_view() == requested_layers_spec(flags.validation).filter(
                |t: Seq<u8>| available_layers.deep_view().contains(t),
            )
            &&& p.enumerate_portability == p.enabled_extensions.deep_view().contains(
                portability_enumeration_name(),
            )
            &&& p.api_version == target_api_version
        },
{
    if driver_api_version < target_api_version {
        return Err(StartupError::VersionMismatch);
    }
    let compositor_names = split_ascii_whitespace(compositor_required);
    let enabled_extensions = union_extensions(gpu_required, &compositor_names);
    let mut requested_layers: Vec<Vec<u8>> = Vec::new();
    if flags.validation {
        requested_layers.push(validation_layer());
    }
    proof {
        assert(requested_layers.deep_view() =~~= requested_layers_spec(flags.validation));
    }
    let enabled_layers = retain_available(&requested_layers, available_layers);
    let portability_name = portability_enumeration_extension();
    let enumerate_portability = contains_extension(&enabled_extensions, &portability_name);
    Ok(
        InstancePlan {
            enabled_extensions,
            enabled_layers,
            enumerate_portability,
            api_version: target_api_version,
        },
    )
}

/// The least graphics-capable queue family index, if any family qualifies.
pub open spec fn first_graphics_family(supports_graphics: Seq<bool>) -> Option<int> {
    if exists|j: int| 0 <= j < supports_graphics.len() && supports_graphics[j] {
        Some(
            choose|j: int|
                0 <= j < supports_graphics.len() && supports_graphics[j] && forall|k: int|
                    0 <= k < j ==> !supports_graphics[k],
        )
    } else {
        None
    }
}

/// Picks the first queue family that advertises graphics capability.
///
/// Fails with `NoGraphicsQueue` exactly when no family qualifies.
pub fn select_graphics_queue_family(supports_graphics: &Vec<bool>) -> (r: Result<
    usize,
    StartupError,
>)
    ensures
        r matches Ok(i) ==> {
            &&& 0 <= i < supports_graphics@.len()
            &&& supports_graphics@[i as int]
            &&& forall|k: int| 0 <= k < i ==> !supports_graphics@[k]
        },
        r is Err <==> (forall|j: int|
            0 <= j < supports_graphics@.len() ==> !supports_graphics@[j]),
        r matches Err(e) ==> e == StartupError::NoGraphicsQueue,
{
    let mut i: usize = 0;
    while i < supports_graphics.len()
        invariant
            i <= supports_graphics@.len(),
            forall|k: int| 0 <= k < i ==> !supports_graphics@[k],
        decreases supports_graphics@.len() - i,
    {
        if supports_graphics[i] {
            return Ok(i);
        }
        i = i + 1;
    }
    Err(StartupError::NoGraphicsQueue)
}

/// Everything logical-device creation needs, computed before any native
/// call. The single queue is created at the chosen family with priority one.
pub struct DevicePlan {
    /// Extension names to enable: the compositor's requirements, then the
    /// GPU backend's, then the force-enabled timeline-semaphore extension.
    pub enabled_extensions: Vec<Vec<u8>>,
    /// The least queue family index advertising graphics capability.
    pub queue_family_index: usize,
}

/// Computes the logical-device plan.
///
/// Fails with `VersionMismatch` exactly when the chosen physical device's
/// API version lies below the target version (a compositor misreport), and
/// otherwise with `NoGraphicsQueue` exactly when no queue family advertises
/// graphics. On success the plan enables the union of the compositor's
/// required device extensions (one whitespace-separated byte string) and the
/// GPU backend's, with timeline-semaphore support force-enabled last, and
/// names the least graphics-capable queue family.
pub fn plan_device(
    compositor_required: &Vec<u8>,
    gpu_required: &Vec<Vec<u8>>,
    device_api_version: u32,
    target_api_version: u32,
    queue_family_supports_graphics: &Vec<bool>,
) -> (r: Result<DevicePlan, StartupError>)
    ensures
        device_api_version < target_api_version <==> r == Err::<
            DevicePlan,
            StartupError,
        >(StartupError::VersionMismatch),
        r == Err::<DevicePlan, StartupError>(StartupError::NoGraphicsQueue) <==> {
            &&& device_api_version >= target_api_version
            &&& forall|j: int|
                0 <= j < queue_family_supports_graphics@.len()
                    ==> !queue_family_supports_graphics@[j]
        },
        r is Ok || r == Err::<DevicePlan, StartupError>(StartupError::VersionMismatch) || r
            == Err::<DevicePlan, StartupError>(StartupError::NoGraphicsQueue),
        r matches Ok(p) ==> {
            &&& p.enabled_extensions.deep_view() == split_ws_spec(compositor_required@)
                + gpu_required.deep_view() + seq![timeline_semaphore_name()]
            &&& p.enabled_extensions.deep_view().contains(timeline_semaphore_name())
            &&& 0 <= p.queue_family_index < queue_family_supports_graphics@.len()
            &&& queue_family_supports_graphics@[p.queue_family_index as int]
            &&& forall|k: int|
                0 <= k < p.queue_family_index ==> !queue_family_supports_graphics@[k]
        },
{
    if device_api_version < target_api_version {
        return Err(StartupError::VersionMismatch);
    }
    let queue_family_index = match select_graphics_queue_family(queue_family_supports_graphics) {
        Ok(i) => i,
        Err(e) => {
            return Err(e);
        },
    };
    let compositor_names = split_ascii_whitespace(compositor_required);
    let mut enabled_extensions = union_extensions(&compositor_names, gpu_required);
    let ghost before_forced = enabled_extensions.deep_view();
    enabled_extensions.push(timeline_semaphore_extension());
    proof {
        assert(enabled_extensions.deep_view() =~~= before_forced.push(timeline_semaphore_name()));
        assert(before_forced.push(timeline_semaphore_name()) =~= split_ws_spec(
            compositor_required@,
        ) + gpu_required.deep_view() + seq![timeline_semaphore_name()]);
        assert(enabled_extensions.deep_view().last() == timeline_semaphore_name());
    }
    Ok(DevicePlan { enabled_extensions, queue_family_index })
}

/// Law: the device plan enables a name exactly when the compositor requires
/// it, the GPU backend requires it, or it is the force-enabled
/// timeline-semaphore extension.
pub proof fn lemma_device_extensions_exact(
    compositor: Seq<Seq<u8>>,
    gpu: Seq<Seq<u8>>,
    x: Seq<u8>,
)
    ensures
        (compositor + gpu + seq![timeline_semaphore_name()]).contains(x) <==> (compositor.contains(
            x,
        ) || gpu.contains(x) || x == timeline_semaphore_name()),
{
    crate::extensions::lemma_union_contains(compositor + gpu, seq![timeline_semaphore_name()], x);
    crate::extensions::lemma_union_contains(compositor, gpu, x);
    assert(seq![timeline_semaphore_name()].contains(x) <==> x == timeline_semaphore_name()) by {
        if seq![timeline_semaphore_name()].contains(x) {
            let i = choose|i: int|
                0 <= i < seq![timeline_semaphore_name()].len() && seq![
                    timeline_semaphore_name(),
                ][i] == x;
            assert(x == timeline_semaphore_name());
        }
        if x == timeline_semaphore_name() {
            assert(seq![timeline_semaphore_name()][0] == x);
        }
    }
}

} // verus!

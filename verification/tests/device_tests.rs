use xrshell::device_bridge::{
    instance_flags, plan_device, plan_instance, select_graphics_queue_family, InstanceFlags,
};
use xrshell::errors::StartupError;
use xrshell::extensions::{
    contains_extension, retain_available, split_ascii_whitespace, timeline_semaphore_extension,
    union_extensions, validation_layer,
};
use xrshell::version::{
    check_graphics_requirements, vk_make_api_version, vk_version_major, vk_version_minor,
    vk_version_patch, xr_version_of_vk, XrVersion,
};

fn b(s: &str) -> Vec<u8> {
    s.as_bytes().to_vec()
}

#[test]
fn split_whitespace_extension_list() {
    assert_eq!(split_ascii_whitespace(&b("")), Vec::<Vec<u8>>::new());
    assert_eq!(split_ascii_whitespace(&b("  \t\n ")), Vec::<Vec<u8>>::new());
    assert_eq!(split_ascii_whitespace(&b("one")), vec![b("one")]);
    assert_eq!(
        split_ascii_whitespace(&b(" VK_KHR_surface  VK_KHR_external_memory\nVK_EXT_debug ")),
        vec![b("VK_KHR_surface"), b("VK_KHR_external_memory"), b("VK_EXT_debug")]
    );
}

#[test]
fn union_keeps_both_sides_in_order() {
    let u = union_extensions(&vec![b("B"), b("C")], &vec![b("A"), b("B")]);
    assert_eq!(u, vec![b("B"), b("C"), b("A"), b("B")]);
}

#[test]
fn contains_and_retain() {
    let list = vec![b("A"), b("B")];
    assert!(contains_extension(&list, &b("A")));
    assert!(!contains_extension(&list, &b("C")));
    let kept = retain_available(&vec![b("X"), b("A"), b("Y")], &list);
    assert_eq!(kept, vec![b("A")]);
}

#[test]
fn instance_plan_unions_both_requirement_sets() {
    // Compositor requires {A, B}; the GPU backend requires {B, C}: the
    // instance enables exactly {A, B, C} as a set.
    let plan = plan_instance(
        &vec![b("B"), b("C")],
        &b("A B"),
        2,
        1,
        InstanceFlags { validation: false, debug: false },
        &Vec::new(),
    )
    .unwrap();
    assert_eq!(plan.enabled_extensions, vec![b("B"), b("C"), b("A"), b("B")]);
    for name in ["A", "B", "C"] {
        assert!(contains_extension(&plan.enabled_extensions, &b(name)));
    }
    for ext in &plan.enabled_extensions {
        assert!(ext == &b("A") || ext == &b("B") || ext == &b("C"));
    }
    assert_eq!(plan.api_version, 1);
    assert!(!plan.enumerate_portability);
    assert!(plan.enabled_layers.is_empty());
}

#[test]
fn instance_plan_rejects_old_driver() {
    let target = vk_make_api_version(0, 1, 1, 0);
    let driver = vk_make_api_version(0, 1, 0, 0);
    let r = plan_instance(
        &Vec::new(),
        &b(""),
        driver,
        target,
        InstanceFlags { validation: false, debug: false },
        &Vec::new(),
    );
    assert_eq!(r.err(), Some(StartupError::VersionMismatch));
}

#[test]
fn instance_plan_keeps_only_offered_layers() {
    let flags = InstanceFlags { validation: true, debug: false };
    let offered = plan_instance(&Vec::new(), &b(""), 1, 1, flags, &vec![validation_layer()])
        .unwrap();
    assert_eq!(offered.enabled_layers, vec![validation_layer()]);
    let missing = plan_instance(&Vec::new(), &b(""), 1, 1, flags, &Vec::new()).unwrap();
    assert!(missing.enabled_layers.is_empty());
}

#[test]
fn instance_plan_detects_portability_requirement() {
    let plan = plan_instance(
        &Vec::new(),
        &b("VK_KHR_portability_enumeration"),
        1,
        1,
        InstanceFlags { validation: false, debug: false },
        &Vec::new(),
    )
    .unwrap();
    assert!(plan.enumerate_portability);
}

#[test]
fn instance_flags_follow_build_kind() {
    assert_eq!(instance_flags(false, true), InstanceFlags { validation: false, debug: false });
    assert_eq!(instance_flags(true, false), InstanceFlags { validation: true, debug: false });
    assert_eq!(instance_flags(true, true), InstanceFlags { validation: true, debug: true });
}

#[test]
fn device_plan_forces_timeline_semaphore() {
    let plan = plan_device(&b("A B"), &vec![b("B"), b("C")], 1, 1, &vec![true]).unwrap();
    assert_eq!(
        plan.enabled_extensions,
        vec![b("A"), b("B"), b("B"), b("C"), timeline_semaphore_extension()]
    );
    assert!(contains_extension(&plan.enabled_extensions, &timeline_semaphore_extension()));
    assert_eq!(plan.queue_family_index, 0);
}

#[test]
fn device_plan_rejects_misreported_device_version() {
    let r = plan_device(&b(""), &Vec::new(), 1, 2, &vec![true]);
    assert_eq!(r.err(), Some(StartupError::VersionMismatch));
}

#[test]
fn device_plan_needs_a_graphics_queue() {
    let r = plan_device(&b(""), &Vec::new(), 1, 1, &vec![false, false]);
    assert_eq!(r.err(), Some(StartupError::NoGraphicsQueue));
}

#[test]
fn first_graphics_family_wins() {
    assert_eq!(select_graphics_queue_family(&vec![false, true, true]), Ok(1));
    assert_eq!(select_graphics_queue_family(&vec![true]), Ok(0));
    assert_eq!(
        select_graphics_queue_family(&Vec::new()),
        Err(StartupError::NoGraphicsQueue)
    );
}

#[test]
fn vk_version_packing_roundtrip() {
    let v = vk_make_api_version(0, 1, 1, 0);
    assert_eq!(v, (1 << 22) | (1 << 12));
    assert_eq!(vk_version_major(v), 1);
    assert_eq!(vk_version_minor(v), 1);
    assert_eq!(vk_version_patch(v), 0);
    let w = vk_make_api_version(1, 2, 3, 4);
    assert_eq!(vk_version_major(w), 2);
    assert_eq!(vk_version_minor(w), 3);
    assert_eq!(vk_version_patch(w), 4);
}

#[test]
fn xr_version_from_vk_version() {
    let v = vk_make_api_version(0, 1, 1, 7);
    assert_eq!(xr_version_of_vk(v), XrVersion { major: 1, minor: 1, patch: 7 });
}

#[test]
fn version_ordering_is_lexicographic() {
    let a = XrVersion { major: 1, minor: 0, patch: 99 };
    let c = XrVersion { major: 1, minor: 1, patch: 0 };
    assert!(a.lt(&c));
    assert!(!c.lt(&a));
    assert!(!a.lt(&a));
}

#[test]
fn graphics_requirements_gate() {
    let target = XrVersion { major: 1, minor: 1, patch: 0 };
    let min = XrVersion { major: 1, minor: 0, patch: 0 };
    let max = XrVersion { major: 1, minor: 9, patch: 0 };
    assert!(check_graphics_requirements(target, min, max));
    // Below the floor.
    let low = XrVersion { major: 1, minor: 0, patch: 0 };
    let floor = XrVersion { major: 1, minor: 1, patch: 0 };
    assert!(!check_graphics_requirements(low, floor, max));
    // Above the ceiling major.
    let high = XrVersion { major: 2, minor: 0, patch: 0 };
    assert!(!check_graphics_requirements(high, min, max));
}

#[test]
fn well_known_names_spell_out_correctly() {
    assert_eq!(timeline_semaphore_extension(), b"VK_KHR_timeline_semaphore".to_vec());
    assert_eq!(validation_layer(), b"VK_LAYER_KHRONOS_validation".to_vec());
    assert_eq!(
        xrshell::extensions::portability_enumeration_extension(),
        b"VK_KHR_portability_enumeration".to_vec()
    );
    assert_eq!(
        xrshell::extensions::nv_optimus_layer(),
        b"VK_LAYER_NV_optimus".to_vec()
    );
}

#[test]
fn startup_error_messages_are_distinct() {
    let errors = [
        StartupError::VersionMismatch,
        StartupError::ExtensionMissing,
        StartupError::NoGraphicsQueue,
        StartupError::ViewMismatch,
        StartupError::NoBlendModes,
    ];
    for (i, a) in errors.iter().enumerate() {
        for (j, other) in errors.iter().enumerate() {
            if i != j {
                assert_ne!(a.message(), other.message());
            }
        }
    }
}

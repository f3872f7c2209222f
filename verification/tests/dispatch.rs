use jit_dispatch::autotune::{anchor, JitAutotuneKey};
use jit_dispatch::element::{bool_canonical, cast_scalar, ElementType};
use jit_dispatch::kernel::{KernelSettings, StaticKernel, StaticKernelSource};
use jit_dispatch::runtime::{ChannelId, Compiler, Device, Runtime, ServerId};
use jit_dispatch::template::SourceTemplate;
use jit_dispatch::workgroup::{elemwise_workgroup, WorkGroup, WORKGROUP_DEFAULT};

#[test]
fn element_descriptors() {
    assert_eq!(ElementType::F32.name_tag(), "f32");
    assert_eq!(ElementType::I32.name_tag(), "i32");
    assert_eq!(ElementType::U32.name_tag(), "u32");
    assert_eq!(ElementType::F32.byte_size(), 4);
    assert_eq!(ElementType::I32.byte_size(), 4);
    assert_eq!(ElementType::U32.byte_size(), 4);
}

#[test]
fn scalar_cast_saturates_at_target_bounds() {
    assert_eq!(cast_scalar(-1, ElementType::U32), 0);
    assert_eq!(cast_scalar(4294967296, ElementType::U32), 4294967295);
    assert_eq!(cast_scalar(-2147483649, ElementType::I32), -2147483648);
    assert_eq!(cast_scalar(2147483648, ElementType::I32), 2147483647);
    assert_eq!(cast_scalar(55, ElementType::F32), 55);
}

#[test]
fn bool_words_canonicalize_to_zero_or_one() {
    assert_eq!(bool_canonical(0), 0);
    assert_eq!(bool_canonical(1), 1);
    assert_eq!(bool_canonical(900), 1);
    assert_eq!(bool_canonical(-7), 1);
}

#[test]
fn template_substitutes_registered_placeholder() {
    let t = SourceTemplate::new()
        .literal("array<")
        .placeholder("input_elem")
        .literal(">");
    let s = t.register("input_elem", "i32").complete();
    assert_eq!(s, "array<i32>");
}

#[test]
fn template_register_of_missing_key_is_a_no_op() {
    let t = SourceTemplate::new()
        .literal("array<")
        .placeholder("input_elem")
        .literal(">");
    let s = t
        .register("output_elem", "f32")
        .register("input_elem", "u32")
        .complete();
    assert_eq!(s, "array<u32>");
}

#[test]
fn template_first_registration_wins() {
    let t = SourceTemplate::new().placeholder("x");
    let s = t.register("x", "one").register("x", "two").complete();
    assert_eq!(s, "one");
}

#[test]
fn template_unregistered_placeholder_keeps_its_marker() {
    let t = SourceTemplate::new()
        .literal("a ")
        .placeholder("input_elem");
    assert_eq!(t.complete(), "a {{input_elem}}");
}

#[test]
fn cast_kernel_source_binds_both_element_types() {
    let kind = StaticKernelSource::Cast {
        input_elem: ElementType::I32,
        output_elem: ElementType::F32,
    };
    let source = kind.source().complete();
    assert!(source.contains("array<i32>"));
    assert!(source.contains("array<f32>"));
    assert!(source.contains("output[i] = f32(input[i])"));
}

#[test]
fn bool_cast_kernel_source_selects_canonical_values() {
    let kind = StaticKernelSource::BoolCast {
        output_elem: ElementType::F32,
    };
    let source = kind.source().complete();
    assert!(source.contains("array<u32>"));
    assert!(source.contains("array<f32>"));
    assert!(source.contains("select(f32(0), f32(1), input[i] != 0u)"));
}

#[test]
fn workgroup_geometry_covers_all_elements() {
    for &(n, ws) in &[
        (0usize, 32u32),
        (1, 32),
        (31, 32),
        (32, 32),
        (33, 32),
        (1024, 32),
        (1025, 32),
        (1000000, 32),
        (17, 1),
        (100, 7),
    ] {
        let g = elemwise_workgroup(n, ws);
        let total = g.x as u64 * g.y as u64 * g.z as u64;
        assert!(g.x >= 1 && g.y >= 1 && g.z == 1);
        assert!(total * ws as u64 >= n as u64, "under-dispatch for {n} {ws}");
        if n > 0 {
            // Minimal along the second axis: one row fewer would under-cover.
            assert!((g.x as u64 * (g.y as u64 - 1)) * (ws as u64) < n as u64);
        }
    }
}

#[test]
fn workgroup_geometry_of_empty_tensor_is_a_guarded_unit() {
    let g = elemwise_workgroup(0, WORKGROUP_DEFAULT);
    assert_eq!(g, WorkGroup { x: 1, y: 1, z: 1 });
}

#[test]
fn kernel_identity_is_stable_across_equal_requests() {
    let kind = StaticKernelSource::Cast {
        input_elem: ElementType::I32,
        output_elem: ElementType::F32,
    };
    let a = StaticKernel::new(kind, KernelSettings::default(), elemwise_workgroup(64, 32));
    let b = StaticKernel::new(kind, KernelSettings::default(), elemwise_workgroup(64, 32));
    assert_eq!(a.id(), b.id());
}

#[test]
fn kernel_identity_ignores_the_dispatch_grid() {
    let kind = StaticKernelSource::BoolCast {
        output_elem: ElementType::I32,
    };
    let small = StaticKernel::new(kind, KernelSettings::default(), elemwise_workgroup(8, 32));
    let large = StaticKernel::new(
        kind,
        KernelSettings::default(),
        elemwise_workgroup(1000000, 32),
    );
    assert_eq!(small.id(), large.id());
}

#[test]
fn kernel_identity_differs_when_any_parameter_differs() {
    let grid = elemwise_workgroup(64, 32);
    let settings = KernelSettings::default();
    let int_to_float = StaticKernel::new(
        StaticKernelSource::Cast {
            input_elem: ElementType::I32,
            output_elem: ElementType::F32,
        },
        settings,
        grid,
    );
    let float_to_int = StaticKernel::new(
        StaticKernelSource::Cast {
            input_elem: ElementType::F32,
            output_elem: ElementType::I32,
        },
        settings,
        grid,
    );
    let bool_to_float = StaticKernel::new(
        StaticKernelSource::BoolCast {
            output_elem: ElementType::F32,
        },
        settings,
        grid,
    );
    let narrow = KernelSettings {
        workgroup_x: 16,
        ..settings
    };
    let narrow_int_to_float = StaticKernel::new(
        StaticKernelSource::Cast {
            input_elem: ElementType::I32,
            output_elem: ElementType::F32,
        },
        narrow,
        grid,
    );
    assert_ne!(int_to_float.id(), float_to_int.id());
    assert_ne!(int_to_float.id(), bool_to_float.id());
    assert_ne!(int_to_float.id(), narrow_int_to_float.id());
}

#[test]
fn full_precision_runtime_shares_all_but_the_compiler() {
    let rt = Runtime::new(
        Compiler::Wgsl,
        ServerId { index: 3 },
        ChannelId { index: 5 },
        Device { index: 2 },
    );
    let full = rt.full_precision_runtime();
    assert_eq!(full.compiler, Compiler::WgslFullPrecision);
    assert_eq!(full.server, rt.server);
    assert_eq!(full.channel, rt.channel);
    assert_eq!(full.device, rt.device);
    // A full-precision runtime is its own full-precision sibling.
    assert_eq!(full.full_precision_runtime(), full);
    assert_eq!(rt.name(), "wgpu");
    assert_eq!(full.name(), "wgpu-full");
}

#[test]
fn anchor_rounds_up_to_the_next_power_of_two() {
    assert_eq!(anchor(1), 1);
    assert_eq!(anchor(2), 2);
    assert_eq!(anchor(3), 4);
    assert_eq!(anchor(100), 128);
    assert_eq!(anchor(128), 128);
    assert_eq!(anchor(129), 256);
}

#[test]
fn autotune_keys_are_stable_and_shape_derived() {
    let op = StaticKernelSource::Cast {
        input_elem: ElementType::I32,
        output_elem: ElementType::F32,
    };
    // Equal operations and counts give equal keys; nearby counts share the
    // anchored bucket; a different operation or bucket gives another key.
    assert_eq!(JitAutotuneKey::new(op, 100), JitAutotuneKey::new(op, 100));
    assert_eq!(JitAutotuneKey::new(op, 100), JitAutotuneKey::new(op, 128));
    assert_ne!(JitAutotuneKey::new(op, 100), JitAutotuneKey::new(op, 129));
    let other = StaticKernelSource::BoolCast {
        output_elem: ElementType::F32,
    };
    assert_ne!(JitAutotuneKey::new(op, 100), JitAutotuneKey::new(other, 100));
}

#[test]
fn autotune_cache_returns_the_latest_registration() {
    let rt = Runtime::new(
        Compiler::Wgsl,
        ServerId { index: 0 },
        ChannelId { index: 0 },
        Device::default(),
    );
    let mut client = rt.client();
    let op = StaticKernelSource::Cast {
        input_elem: ElementType::I32,
        output_elem: ElementType::F32,
    };
    let key = JitAutotuneKey::new(op, 100);
    assert_eq!(client.autotune_result(key), None);

    let first = StaticKernel::new(op, KernelSettings::default(), elemwise_workgroup(100, 32)).id();
    let narrow = KernelSettings {
        workgroup_x: 16,
        ..KernelSettings::default()
    };
    let second = StaticKernel::new(op, narrow, elemwise_workgroup(100, 32)).id();

    client.register_autotune(key, first);
    assert_eq!(client.autotune_result(key), Some(first));
    client.register_autotune(key, second);
    assert_eq!(client.autotune_result(key), Some(second));

    let other_key = JitAutotuneKey::new(op, 2000);
    assert_eq!(client.autotune_result(other_key), None);
}

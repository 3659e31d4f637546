use faiss_gpu::{
    check_config, ConfigStep, GpuConfig, GpuError, GpuResources, StandardGpuResources,
    TempMemory, NATIVE_OK,
};

const HANDLE: usize = 0x7f00_0000_1000;

fn pool() -> StandardGpuResources {
    StandardGpuResources::new(NATIVE_OK, HANDLE).unwrap()
}

fn takes_any<G: GpuResources>(mut g: G, size: usize) -> usize {
    g.set_temp_memory(size, NATIVE_OK).unwrap();
    g.inner_ptr()
}

fn sendable<T: Send>(_: &T) -> bool {
    true
}

#[test]
fn smoke_detector() {
    StandardGpuResources::new(NATIVE_OK, HANDLE).unwrap();
}

#[test]
fn construction_yields_nonzero_handle_and_default_config() {
    let p = pool();
    assert_ne!(p.inner_ptr(), 0);
    assert_eq!(p.inner_ptr(), HANDLE);
    assert_eq!(
        p.configuration(),
        GpuConfig { temp: TempMemory::EngineDefault, pinned: None }
    );
}

#[test]
fn construction_failure_reports_native_allocation_error() {
    let r = StandardGpuResources::new(3, HANDLE);
    assert_eq!(r.err(), Some(GpuError::NativeAllocation { code: 3 }));
}

#[test]
fn construction_with_null_handle_is_refused() {
    let r = StandardGpuResources::new(NATIVE_OK, 0);
    assert_eq!(r.err(), Some(GpuError::NativeAllocation { code: 0 }));
}

#[test]
fn set_temp_memory_keeps_handle() {
    for s in [0usize, 1, 1 << 20, usize::MAX] {
        let mut p = pool();
        let before = p.inner_ptr();
        p.set_temp_memory(s, NATIVE_OK).unwrap();
        assert_eq!(p.inner_ptr(), before);
    }
}

#[test]
fn set_temp_memory_records_fixed_arena() {
    let mut p = pool();
    p.set_temp_memory(512, NATIVE_OK).unwrap();
    assert_eq!(p.configuration().temp, TempMemory::Fixed(512));
}

#[test]
fn zero_temp_memory_same_as_disabling() {
    let mut a = pool();
    let mut b = pool();
    a.set_pinned_memory(64, NATIVE_OK).unwrap();
    b.set_pinned_memory(64, NATIVE_OK).unwrap();
    a.set_temp_memory(0, NATIVE_OK).unwrap();
    b.no_temp_memory(NATIVE_OK).unwrap();
    assert_eq!(a.configuration(), b.configuration());
    assert_eq!(a.configuration().temp, TempMemory::Disabled);
}

#[test]
fn disable_temp_memory_succeeds_after_construction() {
    let mut p = pool();
    assert_eq!(p.no_temp_memory(NATIVE_OK), Ok(()));
    p.set_temp_memory(1024, NATIVE_OK).unwrap();
    assert_eq!(p.no_temp_memory(NATIVE_OK), Ok(()));
    assert_eq!(p.configuration().temp, TempMemory::Disabled);
}

#[test]
fn fraction_is_passed_through_unvalidated() {
    for f in [0.0f32, 0.25, 1.0, 1.5, -0.5] {
        let mut p = pool();
        assert_eq!(p.set_temp_memory_fraction(f.to_bits(), NATIVE_OK), Ok(()));
        assert_eq!(p.configuration().temp, TempMemory::Fraction(f.to_bits()));
        assert_eq!(p.inner_ptr(), HANDLE);
    }
    let mut p = pool();
    assert_eq!(
        p.set_temp_memory_fraction(2.0f32.to_bits(), 7),
        Err(GpuError::AllocationConfig { step: ConfigStep::TempMemoryFraction, code: 7 })
    );
}

#[test]
fn failed_configuration_keeps_prior_state() {
    let mut p = pool();
    p.set_temp_memory(4096, NATIVE_OK).unwrap();
    p.set_pinned_memory(256, NATIVE_OK).unwrap();
    let before = p.configuration();
    assert_eq!(
        p.no_temp_memory(1),
        Err(GpuError::AllocationConfig { step: ConfigStep::NoTempMemory, code: 1 })
    );
    assert_eq!(
        p.set_temp_memory(8, -2),
        Err(GpuError::AllocationConfig { step: ConfigStep::TempMemory, code: -2 })
    );
    assert_eq!(
        p.set_pinned_memory(8, 5),
        Err(GpuError::AllocationConfig { step: ConfigStep::PinnedMemory, code: 5 })
    );
    assert_eq!(p.configuration(), before);
    assert_eq!(p.inner_ptr(), HANDLE);
}

#[test]
fn check_config_names_the_step() {
    assert_eq!(check_config(ConfigStep::PinnedMemory, NATIVE_OK), Ok(()));
    assert_eq!(
        check_config(ConfigStep::TempMemory, 42),
        Err(GpuError::AllocationConfig { step: ConfigStep::TempMemory, code: 42 })
    );
}

#[test]
fn borrowed_adapter_shares_handle_and_configuration() {
    let mut p = pool();
    let owner_handle = p.inner_ptr();
    {
        let mut b = &mut p;
        assert_eq!(b.inner_ptr(), owner_handle);
        b.set_pinned_memory(1 << 10, NATIVE_OK).unwrap();
        b.set_temp_memory_fraction(0.5f32.to_bits(), NATIVE_OK).unwrap();
        assert_eq!(b.inner_ptr(), owner_handle);
    }
    assert_eq!(p.inner_ptr(), owner_handle);
    assert_eq!(
        p.configuration(),
        GpuConfig { temp: TempMemory::Fraction(0.5f32.to_bits()), pinned: Some(1 << 10) }
    );
}

#[test]
fn one_pool_backs_several_bindings() {
    let mut p = pool();
    let h1 = takes_any(&mut p, 16);
    let h2 = takes_any(&mut p, 32);
    assert_eq!(h1, HANDLE);
    assert_eq!(h2, HANDLE);
    assert_eq!(p.configuration().temp, TempMemory::Fixed(32));
}

#[test]
fn release_without_configuration() {
    let p = pool();
    assert_eq!(p.release(), HANDLE);
}

#[test]
fn pool_can_move_between_threads() {
    let p = pool();
    assert!(sendable(&p));
}

#[test]
fn end_to_end_scenario() {
    let mut p = pool();
    p.set_temp_memory(0, NATIVE_OK).unwrap();
    p.set_pinned_memory(1 << 20, NATIVE_OK).unwrap();
    let h1 = p.inner_ptr();
    let h2 = p.inner_ptr();
    assert_eq!(h1, h2);
    assert_eq!(
        p.configuration(),
        GpuConfig { temp: TempMemory::Disabled, pinned: Some(1 << 20) }
    );
    assert_eq!(p.release(), h1);
}

use surfman::{
    Context, ContextAttributeFlags, ContextAttributes, ContextDescriptor, ContextID,
    ContextIdAllocator, CurrentContext, Device, Error, GLVersion, NativeContext, VersionProbe,
};

fn descriptor(device: &Device, major: u8, minor: u8) -> ContextDescriptor {
    let attributes = ContextAttributes {
        version: GLVersion::new(major, minor),
        flags: ContextAttributeFlags { bits: surfman::attributes::ALPHA },
    };
    device.create_context_descriptor(&attributes).unwrap()
}

fn context_at(device: &Device, ids: &mut ContextIdAllocator, major: u8, handle: usize) -> Context {
    let descriptor = descriptor(device, major, 0);
    let mut probe = device.start_context_probe(&descriptor).unwrap();
    probe.record(handle);
    device.create_context(ids, &descriptor, None, &probe).unwrap()
}

#[test]
fn allocator_counts_from_zero() {
    let mut ids = ContextIdAllocator::new();
    assert!(!ids.is_exhausted());
    assert_eq!(ids.allocate_context_id(), ContextID(0));
    assert_eq!(ids.allocate_context_id(), ContextID(1));
    assert_eq!(ids.allocate_context_id(), ContextID(2));
}

#[test]
fn live_contexts_have_distinct_ids() {
    let device = Device::new();
    let mut ids = ContextIdAllocator::new();
    let first = context_at(&device, &mut ids, 3, 0x1000);
    let second = context_at(&device, &mut ids, 2, 0x2000);
    let third = device
        .create_context_from_native_context(
            &mut ids,
            NativeContext { handle: 0x3000, has_render_target: false },
        )
        .unwrap();
    assert_eq!(device.context_id(&first), ContextID(0));
    assert_eq!(device.context_id(&second), ContextID(1));
    assert_eq!(device.context_id(&third), ContextID(2));
    assert_ne!(device.context_id(&first), device.context_id(&second));
    assert_ne!(device.context_id(&second), device.context_id(&third));
    assert_ne!(device.context_id(&first), device.context_id(&third));
}

#[test]
fn descriptor_echoes_attributes() {
    let device = Device::new();
    let attributes = ContextAttributes {
        version: GLVersion::new(3, 1),
        flags: ContextAttributeFlags {
            bits: surfman::attributes::DEPTH | surfman::attributes::STENCIL,
        },
    };
    let descriptor = device.create_context_descriptor(&attributes).unwrap();
    assert_eq!(descriptor.version(), GLVersion { major: 3, minor: 1 });
    assert_eq!(device.context_descriptor_attributes(&descriptor), attributes);
    let flags = device.context_descriptor_attributes(&descriptor).flags;
    assert!(flags.contains(ContextAttributeFlags { bits: surfman::attributes::DEPTH }));
    assert!(!flags.contains(ContextAttributeFlags { bits: surfman::attributes::ALPHA }));
}

#[test]
fn zeroed_attributes_ask_for_nothing() {
    let attributes = ContextAttributes::zeroed();
    assert_eq!(attributes.version, GLVersion { major: 0, minor: 0 });
    assert_eq!(attributes.flags, ContextAttributeFlags::empty());
    assert_eq!(attributes.flags.bits, 0);
}

#[test]
fn probe_starts_only_for_offered_versions() {
    let device = Device::new();
    for major in 1..=3u8 {
        let probe = device.start_context_probe(&descriptor(&device, major, 0)).unwrap();
        assert_eq!(probe.pending(), Some(major));
        assert_eq!(probe.requested_level(), major);
        assert_eq!(probe.valid_context(), 0);
        assert_eq!(probe.obtained_level(), None);
    }
    assert_eq!(device.start_context_probe(&descriptor(&device, 0, 0)).err(), Some(Error::Failed));
    assert_eq!(device.start_context_probe(&descriptor(&device, 4, 0)).err(), Some(Error::Failed));
    assert_eq!(device.start_context_probe(&descriptor(&device, 255, 0)).err(), Some(Error::Failed));
}

#[test]
fn probe_walks_downward_and_stops_at_first_context() {
    let mut probe = VersionProbe::new(3);
    assert_eq!(probe.pending(), Some(3));
    probe.record(0);
    assert_eq!(probe.pending(), Some(2));
    assert_eq!(probe.obtained_level(), None);
    probe.record(0xbeef);
    assert_eq!(probe.pending(), None);
    assert_eq!(probe.obtained_level(), Some(2));
    assert_eq!(probe.valid_context(), 0xbeef);
    probe.record(0xdead);
    assert_eq!(probe.pending(), None);
    assert_eq!(probe.obtained_level(), Some(2));
    assert_eq!(probe.valid_context(), 0xbeef);
}

#[test]
fn probe_gives_up_below_level_one() {
    let mut probe = VersionProbe::new(2);
    probe.record(0);
    assert_eq!(probe.pending(), Some(1));
    probe.record(0);
    assert_eq!(probe.pending(), None);
    assert_eq!(probe.obtained_level(), None);
    assert_eq!(probe.valid_context(), 0);
    let empty = VersionProbe::new(0);
    assert_eq!(empty.pending(), None);
    assert_eq!(empty.obtained_level(), None);
}

#[test]
fn context_reports_requested_version_at_its_own_level() {
    let device = Device::new();
    let mut ids = ContextIdAllocator::new();
    let descriptor = descriptor(&device, 3, 1);
    let mut probe = device.start_context_probe(&descriptor).unwrap();
    probe.record(0x4000);
    let context = device.create_context(&mut ids, &descriptor, None, &probe).unwrap();
    assert_eq!(device.context_descriptor(&context).version(), GLVersion { major: 3, minor: 1 });
    assert_eq!(
        device.context_descriptor_attributes(&device.context_descriptor(&context)),
        ContextAttributes::zeroed()
    );
    assert_eq!(
        device.native_context(&context),
        NativeContext { handle: 0x4000, has_render_target: false }
    );
    assert!(matches!(device.context_surface_info(&context), Ok(None)));
}

#[test]
fn context_reports_obtained_version_below_requested_level() {
    let device = Device::new();
    let mut ids = ContextIdAllocator::new();
    let descriptor = descriptor(&device, 3, 1);
    let mut probe = device.start_context_probe(&descriptor).unwrap();
    probe.record(0);
    probe.record(0);
    probe.record(0x5000);
    assert_eq!(probe.obtained_level(), Some(1));
    let other = context_at(&device, &mut ids, 2, 0x4000);
    let context = device.create_context(&mut ids, &descriptor, Some(&other), &probe).unwrap();
    assert_eq!(device.context_descriptor(&context).version(), GLVersion { major: 1, minor: 0 });
    assert_eq!(device.context_id(&context), ContextID(1));
    assert_eq!(device.native_context(&context).handle, 0x5000);
}

#[test]
fn create_context_fails_without_native_context() {
    let device = Device::new();
    let mut ids = ContextIdAllocator::new();
    let descriptor = descriptor(&device, 2, 0);
    let mut probe = device.start_context_probe(&descriptor).unwrap();
    probe.record(0);
    probe.record(0);
    assert_eq!(
        device.create_context(&mut ids, &descriptor, None, &probe).err(),
        Some(Error::Failed)
    );
    assert_eq!(Context::create_context(&mut ids, &probe, &descriptor).err(), Some(Error::Failed));
    let unfinished = device.start_context_probe(&descriptor).unwrap();
    assert_eq!(
        device.create_context(&mut ids, &descriptor, None, &unfinished).err(),
        Some(Error::Failed)
    );
    assert_eq!(ids.allocate_context_id(), ContextID(0));
}

#[test]
fn create_context_fails_for_unoffered_or_mismatched_version() {
    let device = Device::new();
    let mut ids = ContextIdAllocator::new();
    let mut probe = VersionProbe::new(4);
    probe.record(0x6000);
    assert_eq!(
        device.create_context(&mut ids, &descriptor(&device, 4, 0), None, &probe).err(),
        Some(Error::Failed)
    );
    let mut probe = VersionProbe::new(2);
    probe.record(0x6000);
    assert_eq!(
        device.create_context(&mut ids, &descriptor(&device, 3, 0), None, &probe).err(),
        Some(Error::Failed)
    );
    assert!(device.create_context(&mut ids, &descriptor(&device, 2, 0), None, &probe).is_ok());
    assert_eq!(ids.allocate_context_id(), ContextID(1));
}

#[test]
fn context_from_native_context() {
    let device = Device::new();
    let mut ids = ContextIdAllocator::new();
    let context = device
        .create_context_from_native_context(
            &mut ids,
            NativeContext { handle: 0x7000, has_render_target: false },
        )
        .unwrap();
    assert_eq!(device.context_id(&context), ContextID(0));
    assert_eq!(device.context_descriptor(&context).version(), GLVersion { major: 0, minor: 0 });
    assert_eq!(
        device.native_context(&context),
        NativeContext { handle: 0x7000, has_render_target: false }
    );
    assert!(matches!(device.context_surface_info(&context), Ok(None)));
    let external = device
        .create_context_from_native_context(
            &mut ids,
            NativeContext { handle: 0x7100, has_render_target: true },
        )
        .unwrap();
    assert_eq!(device.context_id(&external), ContextID(1));
    assert_eq!(
        device.native_context(&external),
        NativeContext { handle: 0x7100, has_render_target: true }
    );
    assert_eq!(device.context_surface_info(&external).err(), Some(Error::ExternalRenderTarget));
    assert_eq!(
        device
            .create_context_from_native_context(
                &mut ids,
                NativeContext { handle: 0, has_render_target: false },
            )
            .err(),
        Some(Error::Failed)
    );
    assert_eq!(ids.allocate_context_id(), ContextID(2));
}

#[test]
fn make_no_context_current_with_nothing_current_succeeds() {
    let device = Device::new();
    let mut current = CurrentContext::new();
    assert_eq!(current.current(), None);
    assert_eq!(device.make_no_context_current(&mut current, true), Ok(()));
    assert_eq!(current.current(), None);
    assert_eq!(device.make_no_context_current(&mut current, false), Ok(()));
    assert_eq!(current.current(), None);
    assert_eq!(Context::make_no_context_current(&mut current, false), Ok(()));
    assert_eq!(current.current(), None);
}

#[test]
fn make_context_current_follows_the_native_answer() {
    let device = Device::new();
    let mut ids = ContextIdAllocator::new();
    let first = context_at(&device, &mut ids, 3, 0x1000);
    let second = context_at(&device, &mut ids, 3, 0x2000);
    let mut current = CurrentContext::new();
    assert_eq!(device.make_context_current(&first, &mut current, false), Err(Error::Failed));
    assert_eq!(current.current(), None);
    assert_eq!(device.make_context_current(&first, &mut current, true), Ok(()));
    assert_eq!(current.current(), Some(ContextID(0)));
    assert_eq!(device.make_context_current(&second, &mut current, false), Err(Error::Failed));
    assert_eq!(current.current(), Some(ContextID(0)));
    assert_eq!(second.make_current(&mut current, true), Ok(()));
    assert_eq!(current.current(), Some(ContextID(1)));
    assert_eq!(device.make_no_context_current(&mut current, false), Err(Error::Failed));
    assert_eq!(current.current(), Some(ContextID(1)));
    assert_eq!(device.make_no_context_current(&mut current, true), Ok(()));
    assert_eq!(current.current(), None);
}

#[test]
fn destroyed_context_cannot_be_made_current() {
    let device = Device::new();
    let mut ids = ContextIdAllocator::new();
    let mut context = context_at(&device, &mut ids, 3, 0x1000);
    assert!(matches!(device.destroy_context(&mut context), Ok(None)));
    assert_eq!(device.native_context(&context).handle, 0);
    assert_eq!(device.context_id(&context), ContextID(0));
    let mut current = CurrentContext::new();
    assert_eq!(device.make_context_current(&context, &mut current, true), Err(Error::Failed));
    assert_eq!(current.current(), None);
    assert!(matches!(device.destroy_context(&mut context), Ok(None)));
    assert_eq!(device.native_context(&context).handle, 0);
}

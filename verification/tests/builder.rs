use xmmap::common_huge_page::CommonMmapBuilderHugePage;
use xmmap::{
    CommonMmapBuilder, GranularityCache, MappingRequest, Mmap, MmapBuilder, MmapError,
    MmapRawDescriptor, RawDescriptor, NO_DESCRIPTOR,
};

#[test]
fn builder_starts_empty() {
    let builder = Mmap::builder();
    assert_eq!(builder.offset(), 0);
    assert_eq!(builder.len(), 0);
    assert!(builder.is_empty());
    assert_eq!(builder.discriptor(), None);
    assert!(!builder.read());
    assert!(!builder.write());
    assert!(!builder.execute());
    assert_eq!(builder.request(), MappingRequest::new());
}

#[test]
fn default_builder_is_the_empty_builder() {
    let builder = MmapBuilder::default();
    assert_eq!(builder.request(), Mmap::builder().request());
    let request = builder.request();
    assert!(!request.huge_page);
    assert!(!request.private);
    assert!(!request.advise_normal);
    assert!(!request.advise_sequential);
    assert!(!request.advise_random);
    assert!(!request.advise_willneed);
    assert!(!request.advise_dontneed);
    assert!(!request.map_stack);
    assert!(!request.map_populate);
    assert!(!request.huge_page_1gb);
    assert!(!request.copy_on_write);
}

#[test]
fn common_setters_change_one_option_each() {
    let builder = Mmap::builder()
        .set_offset(4096)
        .set_len(100)
        .set_discriptor(RawDescriptor(7))
        .set_read(true)
        .set_write(true)
        .set_execute(true);
    assert_eq!(builder.offset(), 4096);
    assert_eq!(builder.len(), 100);
    assert!(!builder.is_empty());
    assert_eq!(builder.discriptor(), Some(RawDescriptor(7)));
    assert!(builder.read());
    assert!(builder.write());
    assert!(builder.execute());
    let builder = builder.set_write(false);
    assert!(builder.read());
    assert!(!builder.write());
    assert!(builder.execute());
    assert_eq!(builder.offset(), 4096);
}

#[test]
fn extra_setters_change_one_option_each() {
    let base = Mmap::builder().request();
    let request = Mmap::builder().set_huge_page(true).request();
    assert_eq!(request, MappingRequest { huge_page: true, ..base });
    let request = Mmap::builder().set_private(true).request();
    assert_eq!(request, MappingRequest { private: true, ..base });
    let request = Mmap::builder().set_advise_normal(true).request();
    assert_eq!(request, MappingRequest { advise_normal: true, ..base });
    let request = Mmap::builder().set_advise_sequential(true).request();
    assert_eq!(request, MappingRequest { advise_sequential: true, ..base });
    let request = Mmap::builder().set_advise_random(true).request();
    assert_eq!(request, MappingRequest { advise_random: true, ..base });
    let request = Mmap::builder().set_advise_willneed(true).request();
    assert_eq!(request, MappingRequest { advise_willneed: true, ..base });
    let request = Mmap::builder().set_advise_dontneed(true).request();
    assert_eq!(request, MappingRequest { advise_dontneed: true, ..base });
    let request = Mmap::builder().set_map_stack(true).request();
    assert_eq!(request, MappingRequest { map_stack: true, ..base });
    let request = Mmap::builder().set_map_populate(true).request();
    assert_eq!(request, MappingRequest { map_populate: true, ..base });
    let request = Mmap::builder().set_huge_page_1gb(true).request();
    assert_eq!(request, MappingRequest { huge_page_1gb: true, ..base });
    let request = Mmap::builder().set_copy_on_write(true).request();
    assert_eq!(request, MappingRequest { copy_on_write: true, ..base });
}

#[test]
fn builder_clone_keeps_the_request() {
    let builder = Mmap::builder().set_len(12).set_read(true).set_huge_page(true);
    let copy = builder.clone();
    assert_eq!(copy.request(), builder.request());
    assert_eq!(MmapBuilder::from_request(builder.request()).request(), copy.request());
}

#[test]
fn descriptor_wraps_the_native_identifier() {
    let from_fd = RawDescriptor::from(5i32);
    assert_eq!(from_fd, RawDescriptor(5));
    let from_handle = RawDescriptor::from(0x1234isize);
    assert_eq!(from_handle.0, 0x1234);
    assert_eq!(*from_handle.as_ref(), 0x1234);
    assert_eq!(from_handle.raw_descriptor(), from_handle);
    assert_eq!(RawDescriptor::from(-1i32).0, NO_DESCRIPTOR);
}

#[test]
fn only_platform_failures_carry_a_code() {
    assert_eq!(MmapError::PlatformFailure(12).os_code(), Some(12));
    assert_eq!(MmapError::InvalidAccess.os_code(), None);
    assert_eq!(MmapError::ConflictingAdvice.os_code(), None);
    assert_eq!(MmapError::InvalidLength.os_code(), None);
    assert_eq!(MmapError::PrivilegeAcquisitionFailure.os_code(), None);
    assert_eq!(MmapError::NoHandleAvailable.os_code(), None);
}

#[test]
fn cache_keeps_the_first_published_value() {
    let mut cache = GranularityCache::new();
    assert_eq!(cache.get(), None);
    assert_eq!(cache.to_word(), 0);
    assert_eq!(cache.publish(4096), 4096);
    assert_eq!(cache.get(), Some(4096));
    assert_eq!(cache.publish(65536), 4096);
    assert_eq!(cache.get(), Some(4096));
    assert_eq!(cache.to_word(), 4096);
}

#[test]
fn cache_publishes_nothing_for_a_probe_of_zero() {
    let mut cache = GranularityCache::new();
    assert_eq!(cache.publish(0), 0);
    assert_eq!(cache.get(), None);
    assert_eq!(cache.publish(8192), 8192);
    assert_eq!(cache.get(), Some(8192));
}

#[test]
fn cache_round_trips_through_a_shared_word() {
    assert_eq!(GranularityCache::from_word(0).get(), None);
    let cache = GranularityCache::from_word(16384);
    assert_eq!(cache.get(), Some(16384));
    assert_eq!(GranularityCache::from_word(cache.to_word()), cache);
}

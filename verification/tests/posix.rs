use xmmap::access::posix_protection;
use xmmap::advice::{has_conflict, validate};
use xmmap::bits::set_bits;
use xmmap::common_huge_page::CommonMmapBuilderHugePage;
use xmmap::unix::{host, plan, posix_flags};
use xmmap::{
    CommonMmapBuilder, MappingRequest, Mmap, MmapError, Platform, Progress, RawDescriptor, Region,
    Session, SysCall,
};

fn posix() -> Platform {
    Platform::Posix(host(4096))
}

#[test]
fn host_platform_carries_the_constants_of_the_system() {
    let platform = host(4096);
    assert_eq!(platform.page_size, 4096);
    assert_eq!(platform.protection.read, libc::PROT_READ);
    assert_eq!(platform.protection.write, libc::PROT_WRITE);
    assert_eq!(platform.protection.execute, libc::PROT_EXEC);
    assert_eq!(platform.flags.shared, libc::MAP_SHARED);
    assert_eq!(platform.flags.private, libc::MAP_PRIVATE);
    assert_eq!(platform.flags.anonymous, libc::MAP_ANON);
    assert_eq!(platform.flags.populate, libc::MAP_POPULATE);
    assert_eq!(platform.flags.stack, libc::MAP_STACK);
    assert_eq!(platform.flags.huge_2mb, libc::MAP_HUGE_2MB);
    assert_eq!(platform.flags.huge_1gb, libc::MAP_HUGE_1GB);
    assert_eq!(platform.advice.normal, libc::MADV_NORMAL);
    assert_eq!(platform.advice.random, libc::MADV_RANDOM);
    assert_eq!(platform.advice.sequential, libc::MADV_SEQUENTIAL);
    assert_eq!(platform.advice.willneed, libc::MADV_WILLNEED);
    assert_eq!(platform.advice.dontneed, libc::MADV_DONTNEED);
    assert_eq!(platform.protection.read, 1);
    assert_eq!(platform.protection.write, 2);
    assert_eq!(platform.protection.execute, 4);
    assert_eq!(platform.flags.shared, 1);
    assert_eq!(platform.flags.private, 2);
    assert_eq!(platform.advice.dontneed, 4);
    assert!(Platform::Posix(platform).is_well_formed());
    assert!(!Platform::Posix(host(0)).is_well_formed());
}

#[test]
fn protection_has_four_expressible_combinations() {
    let bits = host(4096).protection;
    assert_eq!(posix_protection(&bits, true, false, false), Ok(libc::PROT_READ));
    assert_eq!(posix_protection(&bits, true, true, false), Ok(libc::PROT_READ | libc::PROT_WRITE));
    assert_eq!(posix_protection(&bits, true, false, true), Ok(libc::PROT_READ | libc::PROT_EXEC));
    assert_eq!(
        posix_protection(&bits, true, true, true),
        Ok(libc::PROT_READ | libc::PROT_WRITE | libc::PROT_EXEC)
    );
    assert_eq!(posix_protection(&bits, true, true, true), Ok(7));
}

#[test]
fn protection_without_read_is_invalid() {
    let bits = host(4096).protection;
    assert_eq!(posix_protection(&bits, false, false, false), Err(MmapError::InvalidAccess));
    assert_eq!(posix_protection(&bits, false, true, false), Err(MmapError::InvalidAccess));
    assert_eq!(posix_protection(&bits, false, false, true), Err(MmapError::InvalidAccess));
    assert_eq!(posix_protection(&bits, false, true, true), Err(MmapError::InvalidAccess));
}

#[test]
fn write_without_read_fails_to_build() {
    let built = Mmap::builder().set_len(10).set_write(true).build(&posix());
    assert_eq!(built, Err(MmapError::InvalidAccess));
    let built = Mmap::builder()
        .set_len(10)
        .set_write(true)
        .set_execute(true)
        .set_advise_willneed(true)
        .set_advise_dontneed(true)
        .build(&posix());
    assert_eq!(built, Err(MmapError::InvalidAccess));
    let built = Mmap::builder().set_len(10).build(&posix());
    assert_eq!(built, Err(MmapError::InvalidAccess));
}

#[test]
fn both_residency_hints_fail_to_build() {
    let built = Mmap::builder()
        .set_len(10)
        .set_read(true)
        .set_advise_willneed(true)
        .set_advise_dontneed(true)
        .build(&posix());
    assert_eq!(built, Err(MmapError::ConflictingAdvice));
}

#[test]
fn two_pattern_hints_fail_to_build() {
    let base = Mmap::builder().set_len(10).set_read(true);
    let built = base.clone().set_advise_normal(true).set_advise_sequential(true).build(&posix());
    assert_eq!(built, Err(MmapError::ConflictingAdvice));
    let built = base.clone().set_advise_normal(true).set_advise_random(true).build(&posix());
    assert_eq!(built, Err(MmapError::ConflictingAdvice));
    let built = base.clone().set_advise_sequential(true).set_advise_random(true).build(&posix());
    assert_eq!(built, Err(MmapError::ConflictingAdvice));
    let built = base.set_advise_sequential(true).set_advise_willneed(true).build(&posix());
    assert!(built.is_ok());
}

#[test]
fn conflicts_are_found_among_the_hints() {
    let none = MappingRequest::new();
    assert!(!has_conflict(&none));
    assert!(!has_conflict(&MappingRequest { advise_willneed: true, advise_random: true, ..none }));
    assert!(has_conflict(&MappingRequest { advise_willneed: true, advise_dontneed: true, ..none }));
    assert!(has_conflict(&MappingRequest { advise_normal: true, advise_random: true, ..none }));
}

#[test]
fn hints_combine_into_one_word() {
    let codes = host(4096).advice;
    let none = MappingRequest::new();
    assert_eq!(validate(&codes, &none), Ok(0));
    assert_eq!(validate(&codes, &MappingRequest { advise_normal: true, ..none }), Ok(libc::MADV_NORMAL));
    assert_eq!(validate(&codes, &MappingRequest { advise_random: true, ..none }), Ok(libc::MADV_RANDOM));
    assert_eq!(
        validate(&codes, &MappingRequest { advise_sequential: true, ..none }),
        Ok(libc::MADV_SEQUENTIAL)
    );
    assert_eq!(validate(&codes, &MappingRequest { advise_willneed: true, ..none }), Ok(libc::MADV_WILLNEED));
    assert_eq!(validate(&codes, &MappingRequest { advise_dontneed: true, ..none }), Ok(libc::MADV_DONTNEED));
    assert_eq!(
        validate(&codes, &MappingRequest { advise_dontneed: true, advise_random: true, ..none }),
        Ok(libc::MADV_DONTNEED | libc::MADV_RANDOM)
    );
    assert_eq!(
        validate(&codes, &MappingRequest { advise_dontneed: true, advise_random: true, ..none }),
        Ok(5)
    );
    assert_eq!(
        validate(&codes, &MappingRequest { advise_dontneed: true, advise_willneed: true, ..none }),
        Err(MmapError::ConflictingAdvice)
    );
}

#[test]
fn bits_are_set_only_where_asked() {
    assert_eq!(set_bits(0b0101, true, 0b0010), 0b0111);
    assert_eq!(set_bits(0b0101, false, 0b0010), 0b0101);
    assert_eq!(set_bits(0, true, 0x20), 0x20);
}

#[test]
fn flags_follow_the_request() {
    let flags = host(4096).flags;
    let backed = MappingRequest { descriptor: Some(RawDescriptor(3)), ..MappingRequest::new() };
    assert_eq!(posix_flags(&flags, &backed), libc::MAP_SHARED);
    assert_eq!(posix_flags(&flags, &MappingRequest { private: true, ..backed }), libc::MAP_PRIVATE);
    assert_eq!(posix_flags(&flags, &MappingRequest::new()), libc::MAP_SHARED | libc::MAP_ANON);
    assert_eq!(
        posix_flags(&flags, &MappingRequest { map_populate: true, ..backed }),
        libc::MAP_SHARED | libc::MAP_POPULATE
    );
    assert_eq!(
        posix_flags(&flags, &MappingRequest { map_stack: true, ..backed }),
        libc::MAP_SHARED | libc::MAP_STACK
    );
    assert_eq!(
        posix_flags(&flags, &MappingRequest { huge_page: true, ..backed }),
        libc::MAP_SHARED | libc::MAP_HUGE_2MB
    );
    assert_eq!(
        posix_flags(&flags, &MappingRequest { huge_page: true, huge_page_1gb: true, ..backed }),
        libc::MAP_SHARED | libc::MAP_HUGE_1GB
    );
    assert_eq!(posix_flags(&flags, &MappingRequest { huge_page_1gb: true, ..backed }), libc::MAP_SHARED);
    assert_eq!(
        posix_flags(
            &flags,
            &MappingRequest {
                private: true,
                map_populate: true,
                map_stack: true,
                huge_page: true,
                ..MappingRequest::new()
            }
        ),
        libc::MAP_PRIVATE | libc::MAP_POPULATE | libc::MAP_ANON | libc::MAP_STACK | libc::MAP_HUGE_2MB
    );
}

#[test]
fn file_request_translates_to_one_mapping_call() {
    let session = Mmap::builder()
        .set_offset(500)
        .set_len(100)
        .set_discriptor(RawDescriptor(9))
        .set_read(true)
        .build(&posix())
        .unwrap();
    assert_eq!(
        session.pending(),
        SysCall::Mmap { len: 600, protection: libc::PROT_READ, flags: libc::MAP_SHARED, fd: 9, offset: 0 }
    );
    match &session {
        Session::Posix(plan) => {
            assert_eq!(plan.geometry.aligned_offset, 0);
            assert_eq!(plan.geometry.visible_offset, 500);
            assert_eq!(plan.geometry.aligned_len, 600);
            assert_eq!(plan.geometry.len, 100);
            assert_eq!(plan.advice, 0);
        }
        other => panic!("unexpected session {:?}", other),
    }
}

#[test]
fn anonymous_request_passes_the_sentinel() {
    let session = Mmap::builder().set_len(8192).set_read(true).set_write(true).build(&posix()).unwrap();
    assert_eq!(
        session.pending(),
        SysCall::Mmap {
            len: 8192,
            protection: libc::PROT_READ | libc::PROT_WRITE,
            flags: libc::MAP_SHARED | libc::MAP_ANON,
            fd: -1,
            offset: 0,
        }
    );
}

#[test]
fn plan_keeps_the_advice_for_later() {
    let request = MappingRequest {
        len: 10,
        read: true,
        advise_sequential: true,
        advise_willneed: true,
        ..MappingRequest::new()
    };
    let plan = plan(&host(4096), &request).unwrap();
    assert_eq!(plan.advice, libc::MADV_SEQUENTIAL | libc::MADV_WILLNEED);
    assert_eq!(plan.fd, -1);
    assert_eq!(plan.protection, libc::PROT_READ);
}

#[test]
fn mapped_region_shows_the_requested_range() {
    let session = Mmap::builder()
        .set_offset(4096 + 500)
        .set_len(100)
        .set_discriptor(RawDescriptor(9))
        .set_read(true)
        .build(&posix())
        .unwrap();
    assert_eq!(
        session.pending(),
        SysCall::Mmap { len: 600, protection: 1, flags: 1, fd: 9, offset: 4096 }
    );
    match session.advance(Ok(0x7000_0000)) {
        Progress::Done(Ok(mapping)) => {
            assert_eq!(mapping.len(), 100);
            assert!(!mapping.is_empty());
            assert_eq!(mapping.as_slice(), Region { base: 0x7000_0000, offset: 500, len: 100 });
            let layout = mapping.layout();
            assert_eq!(layout.base, 0x7000_0000);
            assert_eq!(layout.aligned_len, 600);
            assert_eq!(layout.visible_offset, 500);
            assert_eq!(layout.len, 100);
            assert_eq!(layout.handle, None);
        }
        other => panic!("unexpected progress {:?}", other),
    }
}

#[test]
fn failed_mapping_call_reports_the_code_of_the_system() {
    let session = Mmap::builder().set_len(100).set_read(true).build(&posix()).unwrap();
    match session.advance(Err(12)) {
        Progress::Done(Err(error)) => assert_eq!(error, MmapError::PlatformFailure(12)),
        other => panic!("unexpected progress {:?}", other),
    }
}

#[test]
fn empty_request_maps_one_byte_and_shows_none() {
    let session = Mmap::builder().set_read(true).build(&posix()).unwrap();
    match session.pending() {
        SysCall::Mmap { len, .. } => assert_eq!(len, 1),
        other => panic!("unexpected call {:?}", other),
    }
    match session.advance(Ok(0x1000)) {
        Progress::Done(Ok(mapping)) => {
            assert_eq!(mapping.len(), 0);
            assert!(mapping.is_empty());
            assert_eq!(mapping.as_slice().len, 0);
            assert_eq!(mapping.layout().aligned_len, 1);
        }
        other => panic!("unexpected progress {:?}", other),
    }
}

#[test]
fn huge_page_request_keeps_its_visible_length() {
    let len: usize = 2 * 1024 * 1024 - 1;
    let session = Mmap::builder()
        .set_read(true)
        .set_write(true)
        .set_len(len)
        .set_huge_page(true)
        .build(&posix())
        .unwrap();
    assert_eq!(
        session.pending(),
        SysCall::Mmap {
            len,
            protection: libc::PROT_READ | libc::PROT_WRITE,
            flags: libc::MAP_SHARED | libc::MAP_ANON | libc::MAP_HUGE_2MB,
            fd: -1,
            offset: 0,
        }
    );
    match &session {
        Session::Posix(plan) => {
            assert_eq!(plan.geometry.reserved_len(2 * 1024 * 1024), Some(2 * 1024 * 1024))
        }
        other => panic!("unexpected session {:?}", other),
    }
    match session.advance(Ok(0x4000_0000)) {
        Progress::Done(Ok(mapping)) => assert_eq!(mapping.len(), len),
        other => panic!("unexpected progress {:?}", other),
    }
}

#[test]
fn huge_page_offset_is_aligned_to_the_huge_page_on_build() {
    let session = Mmap::builder()
        .set_read(true)
        .set_offset(0x20_0000 + 4096)
        .set_len(10)
        .set_discriptor(RawDescriptor(4))
        .set_huge_page(true)
        .build(&posix())
        .unwrap();
    match session.pending() {
        SysCall::Mmap { len, offset, .. } => {
            assert_eq!(offset, 0x20_0000);
            assert_eq!(len, 4096 + 10);
        }
        other => panic!("unexpected call {:?}", other),
    }
}

#[test]
fn length_that_cannot_be_aligned_fails_to_build() {
    let built = Mmap::builder().set_read(true).set_offset(1).set_len(usize::MAX).build(&posix());
    assert_eq!(built, Err(MmapError::InvalidLength));
    let built = Mmap::builder()
        .set_read(true)
        .set_offset(1)
        .set_len(usize::MAX)
        .set_advise_normal(true)
        .set_advise_random(true)
        .build(&posix());
    assert_eq!(built, Err(MmapError::ConflictingAdvice));
}

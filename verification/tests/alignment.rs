use xmmap::alignment::resolve;
use xmmap::granularity::{
    posix_granularity, windows_granularity, HUGE_PAGE_1GB, HUGE_PAGE_2MB,
};
use xmmap::unix::host;
use xmmap::{Geometry, MappingRequest, MmapError};

#[test]
fn unaligned_offset_is_rounded_down_to_the_page() {
    let geometry = resolve(500, 100, 4096).unwrap();
    assert_eq!(geometry.aligned_offset, 0);
    assert_eq!(geometry.visible_offset, 500);
    assert_eq!(geometry.aligned_len, 600);
    assert!(geometry.aligned_len >= 600);
    assert_eq!(geometry.len, 100);
}

#[test]
fn offset_past_the_first_page_keeps_its_remainder() {
    let geometry = resolve(3 * 4096 + 17, 4096, 4096).unwrap();
    assert_eq!(
        geometry,
        Geometry { aligned_offset: 3 * 4096, aligned_len: 4096 + 17, visible_offset: 17, len: 4096 }
    );
    assert_eq!(geometry.aligned_offset + geometry.visible_offset as u64, 3 * 4096 + 17);
    assert_eq!(geometry.aligned_offset % 4096, 0);
}

#[test]
fn aligned_offset_is_left_alone() {
    let geometry = resolve(8192, 10, 4096).unwrap();
    assert_eq!(
        geometry,
        Geometry { aligned_offset: 8192, aligned_len: 10, visible_offset: 0, len: 10 }
    );
}

#[test]
fn empty_range_is_promoted_to_one_byte() {
    let geometry = resolve(0, 0, 4096).unwrap();
    assert_eq!(geometry.aligned_len, 1);
    assert_eq!(geometry.len, 0);
    assert_eq!(geometry.visible_offset, 0);
}

#[test]
fn empty_range_at_an_unaligned_offset_maps_what_lies_in_front() {
    let geometry = resolve(4096 + 5, 0, 4096).unwrap();
    assert_eq!(
        geometry,
        Geometry { aligned_offset: 4096, aligned_len: 5, visible_offset: 5, len: 0 }
    );
}

#[test]
fn offsets_split_for_every_granularity() {
    let offsets: [u64; 6] = [1, 4095, 4096, 4097, 0x20_0000 + 3, u64::MAX];
    let granularities: [usize; 4] = [1, 4096, 65536, 0x20_0000];
    for offset in offsets {
        for granularity in granularities {
            let geometry = resolve(offset, 10, granularity).unwrap();
            assert_eq!(geometry.aligned_offset + geometry.visible_offset as u64, offset);
            assert_eq!(geometry.aligned_offset % granularity as u64, 0);
            assert!(geometry.visible_offset < granularity);
            assert_eq!(geometry.aligned_len, 10 + geometry.visible_offset);
        }
    }
}

#[test]
fn length_that_does_not_fit_is_invalid() {
    assert_eq!(resolve(1, usize::MAX, 4096), Err(MmapError::InvalidLength));
    assert_eq!(resolve(4095, usize::MAX - 4094, 4096), Err(MmapError::InvalidLength));
    let geometry = resolve(4095, usize::MAX - 4095, 4096).unwrap();
    assert_eq!(geometry.aligned_len, usize::MAX);
    assert_eq!(resolve(4096, usize::MAX, 4096).unwrap().aligned_len, usize::MAX);
}

#[test]
fn reservation_rounds_up_to_whole_pages() {
    let geometry = resolve(500, 100, 4096).unwrap();
    assert_eq!(geometry.reserved_len(4096), Some(4096));
    let geometry = resolve(0, 4096, 4096).unwrap();
    assert_eq!(geometry.reserved_len(4096), Some(4096));
    let geometry = resolve(0, 4097, 4096).unwrap();
    assert_eq!(geometry.reserved_len(4096), Some(8192));
    let geometry = resolve(0, 0, 4096).unwrap();
    assert_eq!(geometry.reserved_len(4096), Some(4096));
    let geometry = resolve(0, usize::MAX, 4096).unwrap();
    assert_eq!(geometry.reserved_len(4096), None);
}

#[test]
fn huge_page_request_reserves_a_whole_huge_page() {
    let len: usize = 2 * 1024 * 1024 - 1;
    let request = MappingRequest { len, read: true, write: true, huge_page: true, ..MappingRequest::new() };
    let platform = host(4096);
    let granularity = posix_granularity(&platform, &request);
    assert_eq!(granularity, 2 * 1024 * 1024);
    let geometry = resolve(request.offset, request.len, granularity).unwrap();
    assert_eq!(geometry.len, len);
    assert_eq!(geometry.aligned_len, len);
    assert_eq!(geometry.reserved_len(granularity), Some(2 * 1024 * 1024));
}

#[test]
fn granularity_follows_the_huge_page_class() {
    let platform = host(4096);
    let plain = MappingRequest::new();
    assert_eq!(posix_granularity(&platform, &plain), 4096);
    let class_only = MappingRequest { huge_page_1gb: true, ..plain };
    assert_eq!(posix_granularity(&platform, &class_only), 4096);
    let huge = MappingRequest { huge_page: true, ..plain };
    assert_eq!(posix_granularity(&platform, &huge), HUGE_PAGE_2MB);
    assert_eq!(HUGE_PAGE_2MB, 2 * 1024 * 1024);
    let huger = MappingRequest { huge_page: true, huge_page_1gb: true, ..plain };
    assert_eq!(posix_granularity(&platform, &huger), HUGE_PAGE_1GB);
    assert_eq!(HUGE_PAGE_1GB, 1024 * 1024 * 1024);
}

#[test]
fn huge_page_offset_is_aligned_to_the_huge_page() {
    let geometry = resolve(0x20_0000 + 4096, 10, HUGE_PAGE_2MB).unwrap();
    assert_eq!(geometry.aligned_offset, 0x20_0000);
    assert_eq!(geometry.visible_offset, 4096);
    assert_eq!(geometry.aligned_len, 4106);
    let geometry = resolve(3, 10, HUGE_PAGE_1GB).unwrap();
    assert_eq!(geometry.aligned_offset, 0);
    assert_eq!(geometry.visible_offset, 3);
}

#[test]
fn handle_platform_granularity_needs_large_page_support() {
    let mut platform = xmmap::WindowsPlatform {
        allocation_granularity: 65536,
        large_page_minimum: 0,
        access: xmmap::platform::ViewAccess { read: 4, all_access: 0xF001F, execute: 0x20, copy: 1, large_pages: 0x2000_0000 },
        protection: xmmap::platform::PageProtection {
            readonly: 2,
            readwrite: 4,
            execute_read: 0x20,
            execute_readwrite: 0x40,
            commit: 0x800_0000,
            large_pages: 0x8000_0000,
        },
        rights: xmmap::platform::HandleRights {
            token_adjust_privileges: 0x20,
            token_query: 8,
            privilege_enabled: 2,
            duplicate_same_access: 2,
        },
    };
    let huge = MappingRequest { huge_page: true, ..MappingRequest::new() };
    assert_eq!(windows_granularity(&platform, &MappingRequest::new()), 65536);
    assert_eq!(windows_granularity(&platform, &huge), 65536);
    platform.large_page_minimum = 0x20_0000;
    assert_eq!(windows_granularity(&platform, &MappingRequest::new()), 65536);
    assert_eq!(windows_granularity(&platform, &huge), 0x20_0000);
}

use iommufd_ioctls::error::IommufdError;
use iommufd_ioctls::ioctl::{
    IoctlReply, IOC_NONE, IOMMUFD_GET_HW_INFO, IOMMUFD_HWPT_INVALIDATE, IOMMU_DESTROY,
    IOMMU_HWPT_ALLOC, IOMMU_IOAS_ALLOC, IOMMU_IOAS_MAP, IOMMU_IOAS_UNMAP, IOMMU_VDEVICE_ALLOC,
    IOMMU_VIOMMU_ALLOC,
};
use iommufd_ioctls::iommu_fd::IommuFd;
use iommufd_ioctls::iommufd_syscall;
use iommufd_ioctls::uapi::{
    iommu_destroy, iommu_hw_info, iommu_hwpt_alloc, iommu_hwpt_invalidate, iommu_ioas_alloc,
    iommu_ioas_map, iommu_ioas_unmap, iommu_vdevice_alloc, iommu_viommu_alloc,
};

fn reply<A>(ret: i32, errno: i32, arg: A) -> IoctlReply<A, ()> {
    IoctlReply { ret, errno, arg, data: None }
}

#[test]
fn test_iommufd_ioctl_code() {
    assert_eq!(IOMMU_DESTROY(), 15232);
    assert_eq!(IOMMU_IOAS_ALLOC(), 15233);
    assert_eq!(IOMMU_IOAS_MAP(), 15237);
    assert_eq!(IOMMU_IOAS_UNMAP(), 15238);
    assert_eq!(IOMMU_HWPT_ALLOC(), 15241);
    assert_eq!(IOMMUFD_GET_HW_INFO(), 15242);
    assert_eq!(IOMMUFD_HWPT_INVALIDATE(), 15245);
    assert_eq!(IOMMU_VIOMMU_ALLOC(), 15248);
    assert_eq!(IOMMU_VDEVICE_ALLOC(), 15249);
}

#[test]
fn codes_are_distinct_and_carry_no_size() {
    let codes = [
        IOMMU_DESTROY(),
        IOMMU_IOAS_ALLOC(),
        IOMMU_IOAS_MAP(),
        IOMMU_IOAS_UNMAP(),
        IOMMU_HWPT_ALLOC(),
        IOMMUFD_GET_HW_INFO(),
        IOMMUFD_HWPT_INVALIDATE(),
        IOMMU_VIOMMU_ALLOC(),
        IOMMU_VDEVICE_ALLOC(),
    ];
    for (i, a) in codes.iter().enumerate() {
        assert!(*a < 0x1_0000);
        for b in &codes[i + 1..] {
            assert_ne!(a, b);
        }
    }
}

#[test]
fn codes_have_no_direction() {
    assert_eq!(IOC_NONE, vmm_sys_util::ioctl::_IOC_NONE);
}

#[test]
fn device_is_opened_for_reading_and_writing() {
    let request = IommuFd::open_request();
    assert_eq!(request.path, "/dev/iommu");
    assert!(request.read);
    assert!(request.write);
}

#[test]
fn opened_device_keeps_its_descriptor() {
    let iommufd = IommuFd::new(Ok(17)).unwrap();
    assert_eq!(iommufd.as_raw_fd(), 17);
}

#[test]
fn failed_open_reports_errno() {
    assert_eq!(IommuFd::new(Err(2)).unwrap_err(), IommufdError::OpenIommufd(2));
}

#[test]
fn destroy_request_names_the_object() {
    let iommufd = IommuFd::new(Ok(4)).unwrap();
    let request = iommufd.destroy_iommufd(33);
    assert_eq!(request.fd, 4);
    assert_eq!(request.code, 15232);
    assert_eq!(request.arg, iommu_destroy { size: 8, id: 33 });
    assert_eq!(request.data, None);
}

#[test]
fn requests_carry_the_callers_arguments() {
    let iommufd = IommuFd::new(Ok(5)).unwrap();

    let ioas_alloc = iommu_ioas_alloc { size: 12, ..Default::default() };
    let request = iommufd.alloc_iommu_ioas(&ioas_alloc);
    assert_eq!((request.fd, request.code, request.arg), (5, 15233, ioas_alloc));

    let map = iommu_ioas_map { size: 40, flags: 7, ioas_id: 1, user_va: 0x1000, length: 0x2000, iova: 0x3000, ..Default::default() };
    let request = iommufd.map_iommu_ioas(&map);
    assert_eq!((request.fd, request.code, request.arg), (5, 15237, map));

    let unmap = iommu_ioas_unmap { size: 24, ioas_id: 1, iova: 0x3000, length: 0x2000 };
    let request = iommufd.unmap_iommu_ioas(&unmap);
    assert_eq!((request.fd, request.code, request.arg), (5, 15238, unmap));

    let hwpt_alloc = iommu_hwpt_alloc { size: 48, pt_id: 3, data_uptr: 0xdead_0000, ..Default::default() };
    let request = iommufd.alloc_iommu_hwpt(&hwpt_alloc, None::<()>);
    assert_eq!((request.fd, request.code, request.arg), (5, 15241, hwpt_alloc));

    let hw_info = iommu_hw_info { size: 40, dev_id: 2, ..Default::default() };
    let request = iommufd.get_hw_info(&hw_info, None::<()>);
    assert_eq!((request.fd, request.code, request.arg), (5, 15242, hw_info));

    let invalidate = iommu_hwpt_invalidate { size: 32, hwpt_id: 6, ..Default::default() };
    let request = iommufd.invalidate_hwpt(&invalidate, Some(3u8));
    assert_eq!((request.fd, request.code, request.arg), (5, 15245, invalidate));
    assert_eq!(request.data, Some(3));

    let viommu_alloc = iommu_viommu_alloc { size: 40, type_: 1, ..Default::default() };
    let request = iommufd.alloc_iommu_viommu(&viommu_alloc, None::<()>);
    assert_eq!((request.fd, request.code, request.arg), (5, 15248, viommu_alloc));

    let vdevice_alloc = iommu_vdevice_alloc { size: 24, virt_id: 8, ..Default::default() };
    let request = iommufd.alloc_iommu_vdevice(&vdevice_alloc);
    assert_eq!((request.fd, request.code, request.arg), (5, 15249, vdevice_alloc));
}

#[test]
fn non_negative_return_values_are_successes() {
    assert_eq!(iommufd_syscall::destroy_iommufd(&reply(0, 5, iommu_destroy::default())), Ok(()));
    assert_eq!(iommufd_syscall::destroy_iommufd(&reply(1, 5, iommu_destroy::default())), Ok(()));
    assert_eq!(iommufd_syscall::map_iommu_ioas(&reply(0, 5, iommu_ioas_map::default())), Ok(()));
}

#[test]
fn each_ioctl_fails_with_its_own_error() {
    assert_eq!(
        iommufd_syscall::destroy_iommufd(&reply(-1, 16, iommu_destroy::default())),
        Err(IommufdError::IommuDestroy(16))
    );
    assert_eq!(
        iommufd_syscall::alloc_iommu_ioas(
            &mut iommu_ioas_alloc::default(),
            &reply(-1, 12, iommu_ioas_alloc::default())
        ),
        Err(IommufdError::IommuIoasAlloc(12))
    );
    assert_eq!(
        iommufd_syscall::map_iommu_ioas(&reply(-1, 14, iommu_ioas_map::default())),
        Err(IommufdError::IommuIoasMap(14))
    );
    assert_eq!(
        iommufd_syscall::unmap_iommu_ioas(
            &mut iommu_ioas_unmap::default(),
            &reply(-1, 2, iommu_ioas_unmap::default())
        ),
        Err(IommufdError::IommuIoasUnmap(2))
    );
    assert_eq!(
        iommufd_syscall::alloc_iommu_hwpt(
            &mut iommu_hwpt_alloc::default(),
            &reply(-1, 95, iommu_hwpt_alloc::default())
        ),
        Err(IommufdError::IommuHwptAlloc(95))
    );
    assert_eq!(
        iommufd_syscall::get_hw_info(
            &mut iommu_hw_info::default(),
            &reply(-1, 22, iommu_hw_info::default())
        ),
        Err(IommufdError::IommuGetHwInfo(22))
    );
    assert_eq!(
        iommufd_syscall::invalidate_hwpt(
            &mut iommu_hwpt_invalidate::default(),
            &reply(-1, 5, iommu_hwpt_invalidate::default())
        ),
        Err(IommufdError::IommuHwptInvalidate(5))
    );
    assert_eq!(
        iommufd_syscall::alloc_iommu_viommu(
            &mut iommu_viommu_alloc::default(),
            &reply(-1, 25, iommu_viommu_alloc::default())
        ),
        Err(IommufdError::IommuViommuAlloc(25))
    );
    assert_eq!(
        iommufd_syscall::alloc_iommu_vdevice(
            &mut iommu_vdevice_alloc::default(),
            &reply(-1, 17, iommu_vdevice_alloc::default())
        ),
        Err(IommufdError::IommuVdeviceAlloc(17))
    );
}

#[test]
fn arguments_become_what_the_kernel_left() {
    let mut alloc_data = iommu_ioas_alloc { size: 12, ..Default::default() };
    let left = iommu_ioas_alloc { size: 12, flags: 0, out_ioas_id: 41 };
    assert_eq!(iommufd_syscall::alloc_iommu_ioas(&mut alloc_data, &reply(0, 0, left)), Ok(()));
    assert_eq!(alloc_data, left);

    let mut unmap = iommu_ioas_unmap { size: 24, ioas_id: 1, iova: 0, length: u64::MAX };
    let left = iommu_ioas_unmap { length: 0x5000, ..unmap };
    assert!(iommufd_syscall::unmap_iommu_ioas(&mut unmap, &reply(-1, 2, left)).is_err());
    assert_eq!(unmap.length, 0x5000);

    let mut vdevice_alloc = iommu_vdevice_alloc::default();
    let left = iommu_vdevice_alloc { out_vdevice_id: 9, ..vdevice_alloc };
    assert_eq!(iommufd_syscall::alloc_iommu_vdevice(&mut vdevice_alloc, &reply(0, 0, left)), Ok(()));
    assert_eq!(vdevice_alloc, left);
}

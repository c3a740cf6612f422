use iommufd_ioctls::uapi::{
    iommu_destroy, iommu_hw_info, iommu_hw_info_arm_smmuv3, iommu_hwpt_alloc,
    iommu_hwpt_arm_smmuv3, iommu_hwpt_vtd_s1, iommu_vdevice_alloc,
};
use iommufd_ioctls::{
    IoctlReply, IommuFd, IommufdError, IommufdHwInfoData, IommufdHwptData, IommufdVDevice,
    IommufdVIommu, S1Destruction,
};
use std::sync::Arc;

const STE: iommu_hwpt_arm_smmuv3 = iommu_hwpt_arm_smmuv3 { ste: [0xa, 0xb] };

fn viommu() -> Arc<IommufdVIommu> {
    Arc::new(IommufdVIommu {
        iommufd: Arc::new(IommuFd::new(Ok(6)).unwrap()),
        viommu_id: 30,
        dev_id: 5,
        s2_hwpt_id: 20,
        bypass_hwpt_id: 40,
        abort_hwpt_id: 50,
    })
}

fn vdevice() -> IommufdVDevice {
    let arg = iommu_vdevice_alloc { out_vdevice_id: 70, ..Default::default() };
    let reply = IoctlReply { ret: 0, errno: 0, arg, data: None };
    match IommufdVDevice::new(viommu(), 8, 0x123).allocated(&reply) {
        Ok(vdevice) => vdevice,
        Err(error) => panic!("{:?}", error),
    }
}

fn hwpt_reply(ret: i32, errno: i32, id: u32) -> IoctlReply<iommu_hwpt_alloc, iommu_hwpt_arm_smmuv3> {
    let arg = iommu_hwpt_alloc { out_hwpt_id: id, ..Default::default() };
    IoctlReply { ret, errno, arg, data: Some(STE) }
}

fn destroy_reply(ret: i32, errno: i32) -> IoctlReply<iommu_destroy, ()> {
    IoctlReply { ret, errno, arg: iommu_destroy::default(), data: None }
}

#[test]
fn vdevice_request() {
    let request = IommufdVDevice::new(viommu(), 8, 0x123).request();
    assert_eq!(request.fd, 6);
    assert_eq!(request.code, 15249);
    assert_eq!(
        request.arg,
        iommu_vdevice_alloc { size: 24, viommu_id: 30, dev_id: 8, out_vdevice_id: 0, virt_id: 0x123 }
    );
}

#[test]
fn new_vdevice_holds_no_page_table() {
    let vdevice = vdevice();
    assert_eq!(vdevice.viommu.viommu_id, 30);
    assert_eq!(vdevice.dev_id, 8);
    assert_eq!(vdevice.virt_id, 0x123);
    assert_eq!(vdevice.vdevice_id, 70);
    assert_eq!(vdevice.s1_hwpt_id, None);
}

#[test]
fn refused_vdevice() {
    let reply = IoctlReply { ret: -1, errno: 17, arg: Default::default(), data: None };
    match IommufdVDevice::new(viommu(), 8, 0x123).allocated(&reply) {
        Ok(_) => panic!("the kernel has refused it"),
        Err(error) => assert_eq!(error, IommufdError::IommuVdeviceAlloc(17)),
    }
}

#[test]
fn s1_hwpt_request() {
    let request = vdevice().allocate_s1_hwpt(&IommufdHwptData::Smmuv3(STE), 0x4000).unwrap();
    assert_eq!(request.fd, 6);
    assert_eq!(request.code, 15241);
    assert_eq!(
        request.arg,
        iommu_hwpt_alloc {
            size: 48,
            dev_id: 8,
            pt_id: 30,
            data_type: 2,
            data_len: 16,
            data_uptr: 0x4000,
            ..Default::default()
        }
    );
    assert_eq!(request.data, Some(STE));
}

#[test]
fn second_s1_hwpt_is_refused() {
    let mut vdevice = vdevice();
    assert_eq!(vdevice.s1_hwpt_allocated(&hwpt_reply(0, 0, 80)), Ok(80));
    assert_eq!(vdevice.s1_hwpt_id, Some(80));
    let refused = Err(IommufdError::S1HwptAlreadyAllocated(70));
    assert_eq!(vdevice.allocate_s1_hwpt(&IommufdHwptData::Smmuv3(STE), 0x4000), refused);
    let vtd = IommufdHwptData::Vtd(iommu_hwpt_vtd_s1::default());
    assert_eq!(vdevice.allocate_s1_hwpt(&vtd, 0x4000), refused);
}

#[test]
fn failed_s1_hwpt_allocation_changes_nothing() {
    let mut vdevice = vdevice();
    assert_eq!(
        vdevice.s1_hwpt_allocated(&hwpt_reply(-1, 12, 80)),
        Err(IommufdError::IommuHwptAlloc(12))
    );
    assert_eq!(vdevice.s1_hwpt_id, None);
}

#[test]
fn s1_hwpt_can_be_destroyed_and_allocated_again() {
    let mut vdevice = vdevice();
    assert_eq!(vdevice.s1_hwpt_allocated(&hwpt_reply(0, 0, 80)), Ok(80));
    let request = match vdevice.destroy_s1_hwpt() {
        S1Destruction::Destroy(request) => request,
        S1Destruction::Finished(result) => panic!("{:?}", result),
    };
    assert_eq!((request.fd, request.code), (6, 15232));
    assert_eq!(request.arg, iommu_destroy { size: 8, id: 80 });
    assert_eq!(vdevice.s1_hwpt_destroyed(&destroy_reply(0, 0)), Ok(()));
    assert_eq!(vdevice.s1_hwpt_id, None);
    assert!(vdevice.allocate_s1_hwpt(&IommufdHwptData::Smmuv3(STE), 0x4000).is_ok());
}

#[test]
fn failed_s1_hwpt_destruction_changes_nothing() {
    let mut vdevice = vdevice();
    assert_eq!(vdevice.s1_hwpt_allocated(&hwpt_reply(0, 0, 80)), Ok(80));
    assert_eq!(
        vdevice.s1_hwpt_destroyed(&destroy_reply(-1, 16)),
        Err(IommufdError::IommuDestroy(16))
    );
    assert_eq!(vdevice.s1_hwpt_id, Some(80));
}

#[test]
fn nothing_to_destroy_without_s1_hwpt() {
    assert_eq!(vdevice().destroy_s1_hwpt(), S1Destruction::Finished(Ok(())));
}

#[test]
fn second_destruction_succeeds_and_asks_for_nothing() {
    let mut vdevice = vdevice();
    assert_eq!(vdevice.s1_hwpt_allocated(&hwpt_reply(0, 0, 80)), Ok(80));
    assert!(matches!(vdevice.destroy_s1_hwpt(), S1Destruction::Destroy(_)));
    assert_eq!(vdevice.s1_hwpt_destroyed(&destroy_reply(0, 0)), Ok(()));
    assert_eq!(vdevice.destroy_s1_hwpt(), S1Destruction::Finished(Ok(())));
    assert_eq!(vdevice.s1_hwpt_id, None);
}

#[test]
fn refused_destruction_can_be_asked_for_again() {
    let mut vdevice = vdevice();
    assert_eq!(vdevice.s1_hwpt_allocated(&hwpt_reply(0, 0, 80)), Ok(80));
    let asked = vdevice.destroy_s1_hwpt();
    assert_eq!(
        vdevice.s1_hwpt_destroyed(&destroy_reply(-1, 16)),
        Err(IommufdError::IommuDestroy(16))
    );
    assert_eq!(vdevice.destroy_s1_hwpt(), asked);
}

#[test]
fn hw_info_request() {
    let data = iommu_hw_info_arm_smmuv3 { flags: 1, ..Default::default() };
    let request = vdevice().get_device_hw_info(&IommufdHwInfoData::Smmuv3(data), 0x6000);
    assert_eq!(request.fd, 6);
    assert_eq!(request.code, 15242);
    assert_eq!(
        request.arg,
        iommu_hw_info { size: 40, dev_id: 8, data_len: 40, data_uptr: 0x6000, ..Default::default() }
    );
    assert_eq!(request.data, Some(data));
}

#[test]
fn hw_info_reply() {
    let left = iommu_hw_info_arm_smmuv3 { idr: [1, 2, 3, 4, 5, 6], iidr: 7, aidr: 8, ..Default::default() };
    let arg = iommu_hw_info { data_type: 2, data_len: 40, out_capabilities: 3, ..Default::default() };

    let mut data = IommufdHwInfoData::Smmuv3(Default::default());
    let reply = IoctlReply { ret: 0, errno: 0, arg, data: Some(left) };
    assert_eq!(IommufdVDevice::device_hw_info_read(&mut data, &reply), Ok(arg));
    assert!(matches!(data, IommufdHwInfoData::Smmuv3(read) if read == left));

    let reply = IoctlReply { ret: -1, errno: 22, arg, data: Some(left) };
    assert_eq!(
        IommufdVDevice::device_hw_info_read(&mut data, &reply),
        Err(IommufdError::IommuGetHwInfo(22))
    );
}

#[test]
fn vdevice_teardown_follows_what_it_holds() {
    let mut vdevice = vdevice();
    assert_eq!(vdevice.teardown().iommufd, *vdevice.viommu.iommufd);
    assert_eq!(vdevice.teardown().ids, vec![70]);
    assert_eq!(vdevice.s1_hwpt_allocated(&hwpt_reply(0, 0, 80)), Ok(80));
    assert_eq!(vdevice.teardown().ids, vec![70, 80]);
    assert_eq!(vdevice.s1_hwpt_destroyed(&destroy_reply(0, 0)), Ok(()));
    assert_eq!(vdevice.teardown().ids, vec![70]);
}

/// Calls `allocate_s1_hwpt` on a kernel that would give out `id`, and notes the id if it does.
fn allocate(vdevice: &mut IommufdVDevice, id: u32, given: &mut Vec<u32>) -> Result<u32, IommufdError> {
    vdevice.allocate_s1_hwpt(&IommufdHwptData::Smmuv3(STE), 0x4000)?;
    given.push(id);
    vdevice.s1_hwpt_allocated(&hwpt_reply(0, 0, id))
}

/// Calls `destroy_s1_hwpt` on a kernel that grants it, and notes the id that is destroyed.
fn destroy(vdevice: &mut IommufdVDevice, destroyed: &mut Vec<u32>) {
    if let S1Destruction::Destroy(request) = vdevice.destroy_s1_hwpt() {
        destroyed.push(request.arg.id);
        assert_eq!(vdevice.s1_hwpt_destroyed(&destroy_reply(0, 0)), Ok(()));
    }
}

#[test]
fn allocations_and_destructions_alternate() {
    let mut vdevice = vdevice();
    let mut given = Vec::new();
    let mut destroyed = Vec::new();
    let refused = Err(IommufdError::S1HwptAlreadyAllocated(70));

    destroy(&mut vdevice, &mut destroyed);
    assert_eq!(allocate(&mut vdevice, 80, &mut given), Ok(80));
    assert_eq!(allocate(&mut vdevice, 81, &mut given), refused);
    assert_eq!(allocate(&mut vdevice, 82, &mut given), refused);
    assert_eq!(vdevice.s1_hwpt_id, Some(80));
    destroy(&mut vdevice, &mut destroyed);
    destroy(&mut vdevice, &mut destroyed);
    assert_eq!(vdevice.s1_hwpt_id, None);
    assert_eq!(allocate(&mut vdevice, 83, &mut given), Ok(83));
    assert_eq!(vdevice.s1_hwpt_id, Some(83));
    assert_eq!(given, vec![80, 83]);
    assert_eq!(destroyed, vec![80]);
}

#[test]
fn each_id_is_destroyed_once_in_a_life() {
    for destroyed_at_the_end in [false, true] {
        let mut vdevice = vdevice();
        let mut given = vec![70];
        let mut destroyed = Vec::new();
        for id in [80, 81, 82] {
            destroy(&mut vdevice, &mut destroyed);
            assert_eq!(allocate(&mut vdevice, id, &mut given), Ok(id));
        }
        if destroyed_at_the_end {
            destroy(&mut vdevice, &mut destroyed);
        }
        let mut teardown = vdevice.teardown();
        while let Some(request) = teardown.request() {
            assert_eq!((request.fd, request.code), (6, 15232));
            destroyed.push(request.arg.id);
            teardown = teardown.destroyed(&destroy_reply(0, 0)).unwrap();
        }
        destroyed.sort();
        assert_eq!(destroyed, given);
    }
}

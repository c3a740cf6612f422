use iommufd_ioctls::uapi::{
    iommu_hwpt_alloc, iommu_hwpt_arm_smmuv3, iommu_hwpt_invalidate, iommu_viommu_alloc,
    iommu_viommu_arm_smmuv3_invalidate, iommu_viommu_tegra241_cmdqv, iommu_destroy,
};
use iommufd_ioctls::{
    CmdqvProbe, IoctlReply, IommuFd, IommufdError, IommufdInvalidateData, IommufdVIommu, Teardown,
    ViommuAction, ViommuBuffers, ViommuCreation, ViommuEvent, ViommuProgress, ViommuStage,
};
use std::sync::Arc;

const BUFFERS: ViommuBuffers = ViommuBuffers { s1_hwpt_data: 0x7000, cmdqv_data: 0x8000 };

fn device() -> Arc<IommuFd> {
    Arc::new(IommuFd::new(Ok(11)).unwrap())
}

fn start() -> ViommuCreation {
    match IommufdVIommu::new(device(), 3, 5, 2) {
        Ok(creation) => creation,
        Err(error) => panic!("{:?}", error),
    }
}

fn pending(progress: ViommuProgress) -> ViommuCreation {
    match progress {
        ViommuProgress::Pending(creation) => creation,
        ViommuProgress::Finished(_) => panic!("the creation has finished"),
    }
}

fn finished(progress: ViommuProgress) -> Result<IommufdVIommu, IommufdError> {
    match progress {
        ViommuProgress::Pending(_) => panic!("the creation has not finished"),
        ViommuProgress::Finished(result) => result,
    }
}

fn hwpt(ret: i32, errno: i32, id: u32) -> ViommuEvent {
    let arg = iommu_hwpt_alloc { out_hwpt_id: id, ..Default::default() };
    ViommuEvent::HwptAllocated(IoctlReply { ret, errno, arg, data: None })
}

fn viommu(ret: i32, errno: i32, id: u32) -> ViommuEvent {
    let arg = iommu_viommu_alloc { out_viommu_id: id, ..Default::default() };
    ViommuEvent::ViommuAllocated(IoctlReply { ret, errno, arg, data: None })
}

fn listing(names: &[&str]) -> ViommuEvent {
    ViommuEvent::DirectoryListed(Some(names.iter().map(|name| name.to_string()).collect()))
}

fn hwpt_request(creation: &ViommuCreation) -> (iommu_hwpt_alloc, Option<iommu_hwpt_arm_smmuv3>) {
    match creation.action(&BUFFERS) {
        ViommuAction::AllocHwpt(request) => {
            assert_eq!(request.fd, 11);
            assert_eq!(request.code, 15241);
            (request.arg, request.data)
        }
        action => panic!("{:?}", action),
    }
}

fn viommu_request(
    creation: &ViommuCreation,
) -> (iommu_viommu_alloc, Option<iommu_viommu_tegra241_cmdqv>) {
    match creation.action(&BUFFERS) {
        ViommuAction::AllocViommu(request) => {
            assert_eq!(request.fd, 11);
            assert_eq!(request.code, 15248);
            (request.arg, request.data)
        }
        action => panic!("{:?}", action),
    }
}

fn created() -> IommufdVIommu {
    let creation = pending(start().advance(hwpt(0, 0, 20)));
    let creation = pending(creation.advance(listing(&["NVDA200C:00"])));
    let creation = pending(creation.advance(viommu(0, 0, 30)));
    let creation = pending(creation.advance(hwpt(0, 0, 40)));
    match finished(creation.advance(hwpt(0, 0, 50))) {
        Ok(viommu) => viommu,
        Err(error) => panic!("{:?}", error),
    }
}

#[test]
fn only_smmuv3_data_is_supported() {
    for data_type in [0, 1, 3, u32::MAX] {
        match IommufdVIommu::new(device(), 3, 5, data_type) {
            Ok(_) => panic!("{} is not supported", data_type),
            Err(error) => assert_eq!(error, IommufdError::UnsupportedS1HwptDataType(data_type)),
        }
    }
    assert_eq!(start().stage, ViommuStage::S2Hwpt);
}

#[test]
fn creation_on_cmdqv_hardware() {
    let creation = start();
    let (arg, data) = hwpt_request(&creation);
    assert_eq!(
        arg,
        iommu_hwpt_alloc { size: 48, flags: 1, dev_id: 5, pt_id: 3, ..Default::default() }
    );
    assert_eq!(data, None);

    let creation = pending(creation.advance(hwpt(0, 0, 20)));
    assert_eq!(creation.action(&BUFFERS), ViommuAction::ListDirectory(CmdqvProbe::AcpiDevices));

    let creation = pending(creation.advance(listing(&["PNP0A08:00", "NVDA200C:00"])));
    let (arg, data) = viommu_request(&creation);
    assert_eq!(
        arg,
        iommu_viommu_alloc {
            size: 40,
            type_: 2,
            dev_id: 5,
            hwpt_id: 20,
            data_len: 16,
            data_uptr: 0x8000,
            ..Default::default()
        }
    );
    assert_eq!(data, Some(iommu_viommu_tegra241_cmdqv::default()));

    let creation = pending(creation.advance(viommu(0, 0, 30)));
    let nested = iommu_hwpt_alloc {
        size: 48,
        dev_id: 5,
        pt_id: 20,
        data_type: 2,
        data_len: 16,
        data_uptr: 0x7000,
        ..Default::default()
    };
    assert_eq!(hwpt_request(&creation), (nested, Some(iommu_hwpt_arm_smmuv3 { ste: [9, 0] })));

    let creation = pending(creation.advance(hwpt(0, 0, 40)));
    assert_eq!(hwpt_request(&creation), (nested, Some(iommu_hwpt_arm_smmuv3 { ste: [1, 0] })));

    let viommu = finished(creation.advance(hwpt(0, 0, 50))).ok().unwrap();
    assert_eq!(viommu.iommufd.as_raw_fd(), 11);
    assert_eq!(viommu.viommu_id, 30);
    assert_eq!(viommu.dev_id, 5);
    assert_eq!(viommu.s2_hwpt_id, 20);
    assert_eq!(viommu.bypass_hwpt_id, 40);
    assert_eq!(viommu.abort_hwpt_id, 50);
}

#[test]
fn creation_on_platform_cmdqv_hardware() {
    let creation = pending(start().advance(hwpt(0, 0, 20)));
    let creation = pending(creation.advance(listing(&["PNP0A08:00"])));
    assert_eq!(creation.action(&BUFFERS), ViommuAction::ListDirectory(CmdqvProbe::PlatformDevices));
    let creation = pending(creation.advance(listing(&["arm-smmu-v3.0.auto", "tegra-cmdqv"])));
    let (arg, data) = viommu_request(&creation);
    assert_eq!(arg.type_, 2);
    assert!(data.is_some());
}

#[test]
fn creation_on_generic_hardware() {
    let creation = pending(start().advance(hwpt(0, 0, 20)));
    let creation = pending(creation.advance(ViommuEvent::DirectoryListed(None)));
    let creation = pending(creation.advance(ViommuEvent::DirectoryListed(None)));
    let (arg, data) = viommu_request(&creation);
    assert_eq!(
        arg,
        iommu_viommu_alloc { size: 40, type_: 1, dev_id: 5, hwpt_id: 20, ..Default::default() }
    );
    assert_eq!(data, None);
}

#[test]
fn creation_stops_at_each_failure() {
    assert_eq!(
        finished(start().advance(hwpt(-1, 22, 20))).err(),
        Some(IommufdError::IommuHwptAlloc(22))
    );

    let at_viommu = || {
        let creation = pending(start().advance(hwpt(0, 0, 20)));
        pending(creation.advance(listing(&["NVDA200C:00"])))
    };
    assert_eq!(
        finished(at_viommu().advance(viommu(-1, 95, 30))).err(),
        Some(IommufdError::IommuViommuAlloc(95))
    );

    let creation = pending(at_viommu().advance(viommu(0, 0, 30)));
    assert_eq!(
        finished(creation.advance(hwpt(-1, 12, 40))).err(),
        Some(IommufdError::IommuHwptAlloc(12))
    );

    let creation = pending(at_viommu().advance(viommu(0, 0, 30)));
    let creation = pending(creation.advance(hwpt(0, 0, 40)));
    assert_eq!(
        finished(creation.advance(hwpt(-1, 28, 50))).err(),
        Some(IommufdError::IommuHwptAlloc(28))
    );
}

#[test]
fn unexpected_events_change_nothing() {
    let creation = pending(start().advance(viommu(0, 0, 30)));
    assert_eq!(creation.stage, ViommuStage::S2Hwpt);
    let creation = pending(creation.advance(listing(&["NVDA200C:00"])));
    assert_eq!(creation.stage, ViommuStage::S2Hwpt);
    let creation = pending(creation.advance(hwpt(0, 0, 20)));
    let creation = pending(creation.advance(hwpt(-1, 22, 21)));
    assert_eq!(
        creation.stage,
        ViommuStage::Hardware { s2_hwpt_id: 20, probe: CmdqvProbe::AcpiDevices }
    );
}

#[test]
fn creation_keeps_its_parameters() {
    let creation = pending(start().advance(hwpt(0, 0, 20)));
    let creation = pending(creation.advance(listing(&["NVDA200C:00"])));
    assert_eq!(creation.iommufd.as_raw_fd(), 11);
    assert_eq!(creation.ioas_id, 3);
    assert_eq!(creation.dev_id, 5);
    assert_eq!(creation.s1_hwpt_data_type, 2);
}

#[test]
fn invalidation_request() {
    let viommu = created();
    let cmd = iommu_viommu_arm_smmuv3_invalidate { cmd: [0x11, 0x22] };
    let request = viommu.invalidate_hwpt(&IommufdInvalidateData::Smmuv3(cmd), 0x9000);
    assert_eq!(request.fd, 11);
    assert_eq!(request.code, 15245);
    assert_eq!(
        request.arg,
        iommu_hwpt_invalidate {
            size: 32,
            hwpt_id: 30,
            data_uptr: 0x9000,
            data_type: 1,
            entry_len: 16,
            entry_num: 1,
            ..Default::default()
        }
    );
    assert_eq!(request.data, Some(cmd));
}

#[test]
fn invalidation_counts_handled_entries() {
    for (entry_num, invalidated) in [(1, true), (0, false), (2, false)] {
        let mut cmd = IommufdInvalidateData::Smmuv3(Default::default());
        let left = iommu_viommu_arm_smmuv3_invalidate { cmd: [7, 8] };
        let arg = iommu_hwpt_invalidate { entry_num, ..Default::default() };
        let reply = IoctlReply { ret: 0, errno: 0, arg, data: Some(left) };
        assert_eq!(IommufdVIommu::hwpt_invalidated(&mut cmd, &reply), Ok(invalidated));
        assert!(matches!(cmd, IommufdInvalidateData::Smmuv3(data) if data == left));
    }
}

#[test]
fn failed_invalidation() {
    let before = iommu_viommu_arm_smmuv3_invalidate { cmd: [1, 2] };
    let mut cmd = IommufdInvalidateData::Smmuv3(before);
    let arg = iommu_hwpt_invalidate { entry_num: 1, ..Default::default() };
    let reply = IoctlReply { ret: -1, errno: 5, arg, data: None };
    assert_eq!(
        IommufdVIommu::hwpt_invalidated(&mut cmd, &reply),
        Err(IommufdError::IommuHwptInvalidate(5))
    );
    assert!(matches!(cmd, IommufdInvalidateData::Smmuv3(data) if data == before));
}

fn destroy_reply(ret: i32, errno: i32) -> IoctlReply<iommu_destroy, ()> {
    IoctlReply { ret, errno, arg: iommu_destroy::default(), data: None }
}

#[test]
fn teardown_destroys_what_was_created() {
    let viommu = created();
    let mut teardown = viommu.teardown();
    let mut destroyed = Vec::new();
    while let Some(request) = teardown.request() {
        assert_eq!(request.fd, 11);
        assert_eq!(request.code, 15232);
        destroyed.push(request.arg.id);
        teardown = teardown.destroyed(&destroy_reply(0, 0)).unwrap();
    }
    assert_eq!(destroyed, vec![30, 20, 40, 50]);
}

#[test]
fn failed_destruction_ends_the_teardown() {
    let viommu = created();
    assert_eq!(
        viommu.teardown().destroyed(&destroy_reply(-1, 22)),
        Err(IommufdError::IommuDestroy(22))
    );

    let teardown = viommu.teardown().destroyed(&destroy_reply(0, 0)).unwrap();
    assert_eq!(teardown.ids, vec![20, 40, 50]);
    assert_eq!(teardown.request().unwrap().arg.id, 20);
    assert_eq!(teardown.request().unwrap().fd, 11);
    assert_eq!(teardown.destroyed(&destroy_reply(-1, 16)), Err(IommufdError::IommuDestroy(16)));
}

#[test]
fn empty_teardown_asks_for_nothing() {
    let iommufd = IommuFd::new(Ok(11)).unwrap();
    assert!(Teardown { iommufd, ids: Vec::new() }.request().is_none());
}

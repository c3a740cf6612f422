//! What is asked for during the life of a vDevice, and what its replies mean, stated of every
//! call.
use crate::error::IommufdError;
use crate::ioctl::{IoctlReply, IoctlRequest};
use crate::teardown::Teardown;
use crate::uapi::{
    iommu_destroy, iommu_hw_info, iommu_hw_info_arm_smmuv3, iommu_hwpt_alloc,
    iommu_hwpt_arm_smmuv3, iommu_vdevice_alloc, IOMMUFD_CMD_DESTROY, IOMMUFD_CMD_GET_HW_INFO,
    IOMMUFD_CMD_HWPT_ALLOC, IOMMUFD_CMD_VDEVICE_ALLOC, IOMMU_HWPT_ALLOC_SIZE,
    IOMMU_HWPT_ARM_SMMUV3_SIZE, IOMMU_HWPT_DATA_ARM_SMMUV3, IOMMU_HW_INFO_ARM_SMMUV3_SIZE,
    IOMMU_HW_INFO_SIZE, IOMMU_VDEVICE_ALLOC_SIZE,
};
use crate::vdevice::{
    IommufdHwInfoData, IommufdHwptData, IommufdVDevice, S1Destruction, VdeviceCreation,
};
use crate::viommu::IommufdVIommu;
use std::sync::Arc;
use vstd::prelude::*;

verus! {

/// A vDevice is asked for behind the vIOMMU, with the device id and the virtual id that were
/// given.
pub proof fn law_vdevice_is_asked_for(
    viommu: Arc<IommufdVIommu>,
    dev_id: u32,
    virt_id: u64,
    creation: VdeviceCreation,
    request: IoctlRequest<iommu_vdevice_alloc, ()>,
)
    requires
        call_ensures(IommufdVDevice::new, (viommu, dev_id, virt_id), creation),
        call_ensures(VdeviceCreation::request, (&creation,), request),
    ensures
        request.fd == viommu.iommufd.fd,
        request.code == 0x3b00 + IOMMUFD_CMD_VDEVICE_ALLOC,
        request.arg.size == IOMMU_VDEVICE_ALLOC_SIZE,
        request.arg.viommu_id == viommu.viommu_id,
        request.arg.dev_id == dev_id,
        request.arg.out_vdevice_id == 0,
        request.arg.virt_id == virt_id,
        request.data is None,
{
}

/// A vDevice that is created has the vIOMMU, the device id and the virtual id that were asked
/// for, the id that the kernel gave out, and no stage-1 page table. It is created unless the
/// return value of the ioctl is negative, and then the error carries the `errno`.
pub proof fn law_created_vdevice(
    viommu: Arc<IommufdVIommu>,
    dev_id: u32,
    virt_id: u64,
    creation: VdeviceCreation,
    reply: IoctlReply<iommu_vdevice_alloc, ()>,
    result: Result<IommufdVDevice, IommufdError>,
)
    requires
        call_ensures(IommufdVDevice::new, (viommu, dev_id, virt_id), creation),
        call_ensures(VdeviceCreation::allocated, (creation, &reply), result),
    ensures
        result is Ok <==> reply.ret >= 0,
        result matches Err(error) ==> error == IommufdError::IommuVdeviceAlloc(reply.errno),
        result matches Ok(vdevice) ==> {
            &&& *vdevice.viommu == *viommu
            &&& vdevice.dev_id == dev_id
            &&& vdevice.virt_id == virt_id
            &&& vdevice.vdevice_id == reply.arg.out_vdevice_id
            &&& vdevice.s1_hwpt_id is None
        },
{
}

/// What a new vDevice asks for is asked for with the device id that it was created with: its
/// stage-1 page table and its hardware information.
pub proof fn law_created_vdevice_speaks_for_its_device(
    viommu: Arc<IommufdVIommu>,
    dev_id: u32,
    virt_id: u64,
    creation: VdeviceCreation,
    reply: IoctlReply<iommu_vdevice_alloc, ()>,
    vdevice: IommufdVDevice,
    ste: iommu_hwpt_arm_smmuv3,
    info: iommu_hw_info_arm_smmuv3,
    data_uptr: u64,
    allocation: Result<IoctlRequest<iommu_hwpt_alloc, iommu_hwpt_arm_smmuv3>, IommufdError>,
    query: IoctlRequest<iommu_hw_info, iommu_hw_info_arm_smmuv3>,
)
    requires
        call_ensures(IommufdVDevice::new, (viommu, dev_id, virt_id), creation),
        call_ensures(
            VdeviceCreation::allocated,
            (creation, &reply),
            Ok::<IommufdVDevice, IommufdError>(vdevice),
        ),
        call_ensures(
            IommufdVDevice::allocate_s1_hwpt,
            (&vdevice, &IommufdHwptData::Smmuv3(ste), data_uptr),
            allocation,
        ),
        call_ensures(
            IommufdVDevice::get_device_hw_info,
            (&vdevice, &IommufdHwInfoData::Smmuv3(info), data_uptr),
            query,
        ),
    ensures
        allocation matches Ok(request) && request.arg.dev_id == dev_id && request.arg.pt_id
            == viommu.viommu_id && request.fd == viommu.iommufd.fd,
        query.arg.dev_id == dev_id,
        query.fd == viommu.iommufd.fd,
{
}

/// For a vDevice without a stage-1 page table, one is asked for with exactly the configuration
/// that was given, both words of it, on the vIOMMU and for the device id of the vDevice.
pub proof fn law_allocation_hands_on_the_configuration(
    vdevice: IommufdVDevice,
    ste: iommu_hwpt_arm_smmuv3,
    data_uptr: u64,
    result: Result<IoctlRequest<iommu_hwpt_alloc, iommu_hwpt_arm_smmuv3>, IommufdError>,
)
    requires
        vdevice.s1_hwpt_id is None,
        call_ensures(
            IommufdVDevice::allocate_s1_hwpt,
            (&vdevice, &IommufdHwptData::Smmuv3(ste), data_uptr),
            result,
        ),
    ensures
        result matches Ok(request) && {
            &&& request.fd == vdevice.viommu.iommufd.fd
            &&& request.code == 0x3b00 + IOMMUFD_CMD_HWPT_ALLOC
            &&& request.arg.size == IOMMU_HWPT_ALLOC_SIZE
            &&& request.arg.flags == 0
            &&& request.arg.dev_id == vdevice.dev_id
            &&& request.arg.pt_id == vdevice.viommu.viommu_id
            &&& request.arg.out_hwpt_id == 0
            &&& request.arg.data_type == IOMMU_HWPT_DATA_ARM_SMMUV3
            &&& request.arg.data_len == IOMMU_HWPT_ARM_SMMUV3_SIZE
            &&& request.arg.data_uptr == data_uptr
            &&& request.arg.fault_id == 0
            &&& request.arg.__reserved == 0
            &&& request.arg.__reserved2 == 0
            &&& request.data matches Some(data) && data.ste@[0] == ste.ste@[0] && data.ste@[1]
                == ste.ste@[1]
        },
{
}

/// A vDevice that holds a stage-1 page table is refused another one, of whatever configuration,
/// with an error that names the vDevice.
pub proof fn law_second_allocation_is_refused(
    vdevice: IommufdVDevice,
    hwpt_data: IommufdHwptData,
    data_uptr: u64,
    result: Result<IoctlRequest<iommu_hwpt_alloc, iommu_hwpt_arm_smmuv3>, IommufdError>,
)
    requires
        vdevice.s1_hwpt_id is Some,
        call_ensures(
            IommufdVDevice::allocate_s1_hwpt,
            (&vdevice, &hwpt_data, data_uptr),
            result,
        ),
    ensures
        result matches Err(error) && error == IommufdError::S1HwptAlreadyAllocated(
            vdevice.vdevice_id,
        ),
{
}

/// The stage-1 page table that the kernel grants is held by the vDevice, and its id is what the
/// allocation returns. A refusal is an error with the `errno`, and leaves the vDevice without
/// one. Nothing else of the vDevice changes.
pub proof fn law_allocation_reply(
    vdevice: &mut IommufdVDevice,
    reply: IoctlReply<iommu_hwpt_alloc, iommu_hwpt_arm_smmuv3>,
    result: Result<u32, IommufdError>,
)
    requires
        old(vdevice).s1_hwpt_id is None,
        call_ensures(IommufdVDevice::s1_hwpt_allocated, (vdevice, &reply), result),
    ensures
        result is Ok <==> reply.ret >= 0,
        result matches Ok(id) ==> id == reply.arg.out_hwpt_id,
        result matches Ok(id) ==> final(vdevice).s1_hwpt_id == Some(id),
        result matches Err(error) ==> error == IommufdError::IommuHwptAlloc(reply.errno),
        result is Err ==> final(vdevice).s1_hwpt_id is None,
        *final(vdevice).viommu == *old(vdevice).viommu,
        final(vdevice).dev_id == old(vdevice).dev_id,
        final(vdevice).virt_id == old(vdevice).virt_id,
        final(vdevice).vdevice_id == old(vdevice).vdevice_id,
{
}

/// The destruction of a stage-1 page table asks for the one that the vDevice holds, on the
/// device of its vIOMMU. With none to destroy it succeeds, and asks for nothing.
pub proof fn law_destruction_is_asked_for(vdevice: IommufdVDevice, destruction: S1Destruction)
    requires
        call_ensures(IommufdVDevice::destroy_s1_hwpt, (&vdevice,), destruction),
    ensures
        match vdevice.s1_hwpt_id {
            Some(id) => destruction matches S1Destruction::Destroy(request) && {
                &&& request.fd == vdevice.viommu.iommufd.fd
                &&& request.code == 0x3b00 + IOMMUFD_CMD_DESTROY
                &&& request.arg.size == 8
                &&& request.arg.id == id
                &&& request.data is None
            },
            None => destruction matches S1Destruction::Finished(result) && result is Ok,
        },
{
}

/// A stage-1 page table that was destroyed is no longer held by the vDevice. One that the kernel
/// refuses to destroy still is, and the error carries the `errno`. Nothing else of the vDevice
/// changes.
pub proof fn law_destruction_reply(
    vdevice: &mut IommufdVDevice,
    reply: IoctlReply<iommu_destroy, ()>,
    result: Result<(), IommufdError>,
)
    requires
        old(vdevice).s1_hwpt_id is Some,
        call_ensures(IommufdVDevice::s1_hwpt_destroyed, (vdevice, &reply), result),
    ensures
        result is Ok <==> reply.ret >= 0,
        result is Ok ==> final(vdevice).s1_hwpt_id is None,
        result matches Err(error) ==> error == IommufdError::IommuDestroy(reply.errno),
        result is Err ==> final(vdevice).s1_hwpt_id == old(vdevice).s1_hwpt_id,
        *final(vdevice).viommu == *old(vdevice).viommu,
        final(vdevice).dev_id == old(vdevice).dev_id,
        final(vdevice).virt_id == old(vdevice).virt_id,
        final(vdevice).vdevice_id == old(vdevice).vdevice_id,
{
}

/// The hardware information is asked for with the device id of the vDevice, on the device of its
/// vIOMMU, and the memory for it holds what the caller has in it.
pub proof fn law_hw_info_is_asked_for(
    vdevice: IommufdVDevice,
    info: iommu_hw_info_arm_smmuv3,
    data_uptr: u64,
    request: IoctlRequest<iommu_hw_info, iommu_hw_info_arm_smmuv3>,
)
    requires
        call_ensures(
            IommufdVDevice::get_device_hw_info,
            (&vdevice, &IommufdHwInfoData::Smmuv3(info), data_uptr),
            request,
        ),
    ensures
        request.fd == vdevice.viommu.iommufd.fd,
        request.code == 0x3b00 + IOMMUFD_CMD_GET_HW_INFO,
        request.arg.size == IOMMU_HW_INFO_SIZE,
        request.arg.flags == 0,
        request.arg.dev_id == vdevice.dev_id,
        request.arg.data_len == IOMMU_HW_INFO_ARM_SMMUV3_SIZE,
        request.arg.data_uptr == data_uptr,
        request.arg.data_type == 0,
        request.arg.out_max_pasid_log2 == 0,
        request.arg.__reserved@ == seq![0u8, 0u8, 0u8],
        request.arg.out_capabilities == 0,
        request.data == Some(info),
{
    assert(request.arg.__reserved@ =~= seq![0u8, 0u8, 0u8]);
}

/// The hardware information that comes back is what the kernel wrote, in the argument and in the
/// caller's memory. A refusal is an error with the `errno`.
pub proof fn law_hw_info_reply(
    info: &mut IommufdHwInfoData,
    reply: IoctlReply<iommu_hw_info, iommu_hw_info_arm_smmuv3>,
    result: Result<iommu_hw_info, IommufdError>,
)
    requires
        *old(info) is Smmuv3,
        call_ensures(IommufdVDevice::device_hw_info_read, (info, &reply), result),
    ensures
        result is Ok <==> reply.ret >= 0,
        result matches Ok(hw_info) ==> hw_info == reply.arg,
        result matches Err(error) ==> error == IommufdError::IommuGetHwInfo(reply.errno),
        reply.data is None ==> *final(info) == *old(info),
        reply.data matches Some(data) ==> *final(info) is Smmuv3 && final(info)->Smmuv3_0 == data,
{
}

/// A vDevice is taken down on the device of its vIOMMU: first the vDevice itself, then the
/// stage-1 page table if it holds one, and nothing else.
pub proof fn law_vdevice_teardown_order(vdevice: IommufdVDevice, teardown: Teardown)
    requires
        call_ensures(IommufdVDevice::teardown, (&vdevice,), teardown),
    ensures
        teardown.iommufd.fd == vdevice.viommu.iommufd.fd,
        teardown.ids@.len() >= 1,
        teardown.ids@[0] == vdevice.vdevice_id,
        match vdevice.s1_hwpt_id {
            Some(id) => teardown.ids@.len() == 2 && teardown.ids@[1] == id,
            None => teardown.ids@.len() == 1,
        },
{
}

} // verus!

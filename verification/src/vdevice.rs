//! Virtual devices behind a virtual IOMMU.
use crate::error::IommufdError;
use crate::ioctl::{IoctlReply, IoctlRequest};
use crate::iommu_fd::IommuFd;
use crate::iommufd_syscall;
use crate::teardown::Teardown;
use crate::uapi::{
    iommu_destroy, iommu_hw_info, iommu_hw_info_arm_smmuv3, iommu_hw_info_vtd, iommu_hwpt_alloc,
    iommu_hwpt_arm_smmuv3, iommu_hwpt_vtd_s1, iommu_vdevice_alloc, IOMMUFD_CMD_GET_HW_INFO,
    IOMMUFD_CMD_HWPT_ALLOC, IOMMUFD_CMD_VDEVICE_ALLOC, IOMMU_HWPT_ALLOC_SIZE,
    IOMMU_HWPT_ARM_SMMUV3_SIZE, IOMMU_HWPT_DATA_ARM_SMMUV3, IOMMU_HW_INFO_ARM_SMMUV3_SIZE,
    IOMMU_HW_INFO_SIZE, IOMMU_VDEVICE_ALLOC_SIZE,
};
use crate::viommu::IommufdVIommu;
use std::sync::Arc;
use vstd::prelude::*;

verus! {

/// What the kernel tells of the hardware behind a device.
#[derive(Debug, Copy, Clone)]
pub enum IommufdHwInfoData {
    Smmuv3(iommu_hw_info_arm_smmuv3),
    Vtd(iommu_hw_info_vtd),
}

/// The configuration of a stage-1 page table.
#[derive(Debug, Copy, Clone)]
pub enum IommufdHwptData {
    Smmuv3(iommu_hwpt_arm_smmuv3),
    Vtd(iommu_hwpt_vtd_s1),
}

/// A virtual device. It holds at most one stage-1 page table.
#[derive(Clone)]
pub struct IommufdVDevice {
    pub viommu: Arc<IommufdVIommu>,
    pub dev_id: u32,
    pub virt_id: u64,
    pub vdevice_id: u32,
    pub s1_hwpt_id: Option<u32>,
}

/// How the destruction of a stage-1 page table begins.
#[derive(Debug, PartialEq, Eq)]
pub enum S1Destruction {
    /// The kernel is to be asked for it.
    Destroy(IoctlRequest<iommu_destroy, ()>),
    /// There is nothing to ask for, and this is the result.
    Finished(Result<(), IommufdError>),
}

/// A virtual device that is being created.
pub struct VdeviceCreation {
    pub viommu: Arc<IommufdVIommu>,
    pub dev_id: u32,
    pub virt_id: u64,
}

impl VdeviceCreation {
    /// The request for the virtual device.
    pub fn request(&self) -> (request: IoctlRequest<iommu_vdevice_alloc, ()>)
        ensures
            request == self.viommu.iommufd.request(
                IOMMUFD_CMD_VDEVICE_ALLOC,
                iommu_vdevice_alloc {
                    size: IOMMU_VDEVICE_ALLOC_SIZE,
                    viommu_id: self.viommu.viommu_id,
                    dev_id: self.dev_id,
                    out_vdevice_id: 0,
                    virt_id: self.virt_id,
                },
                None::<()>,
            ),
    {
        let vdevice_alloc = iommu_vdevice_alloc {
            size: IOMMU_VDEVICE_ALLOC_SIZE,
            viommu_id: self.viommu.viommu_id,
            dev_id: self.dev_id,
            out_vdevice_id: 0,
            virt_id: self.virt_id,
        };
        self.viommu.iommufd.alloc_iommu_vdevice(&vdevice_alloc)
    }

    /// What the reply makes of the creation: a virtual device without a stage-1 page table, or
    /// the error.
    pub open spec fn after(self, reply: IoctlReply<iommu_vdevice_alloc, ()>) -> Result<
        IommufdVDevice,
        IommufdError,
    > {
        match reply.outcome(IommufdError::IommuVdeviceAlloc(reply.errno)) {
            Ok(()) => Ok(
                IommufdVDevice {
                    viommu: self.viommu,
                    dev_id: self.dev_id,
                    virt_id: self.virt_id,
                    vdevice_id: reply.arg.out_vdevice_id,
                    s1_hwpt_id: None,
                },
            ),
            Err(error) => Err(error),
        }
    }

    /// Takes the reply to the request.
    pub fn allocated(self, reply: &IoctlReply<iommu_vdevice_alloc, ()>) -> (result: Result<
        IommufdVDevice,
        IommufdError,
    >)
        ensures
            result == self.after(*reply),
    {
        let mut vdevice_alloc = reply.arg;
        match iommufd_syscall::alloc_iommu_vdevice(&mut vdevice_alloc, reply) {
            Ok(()) => Ok(
                IommufdVDevice {
                    viommu: self.viommu,
                    dev_id: self.dev_id,
                    virt_id: self.virt_id,
                    vdevice_id: vdevice_alloc.out_vdevice_id,
                    s1_hwpt_id: None,
                },
            ),
            Err(error) => Err(error),
        }
    }
}

impl IommufdVDevice {
    /// Starts the creation of a vDevice.
    /// # Arguments
    /// * `viommu` - The vIOMMU instance the vDevice is associated with
    /// * `dev_id` - The device ID of the vDevice
    /// * `virt_id` - The virtual Stream ID of the vDevice
    pub fn new(viommu: Arc<IommufdVIommu>, dev_id: u32, virt_id: u64) -> (creation: VdeviceCreation)
        ensures
            creation == (VdeviceCreation { viommu, dev_id, virt_id }),
    {
        VdeviceCreation { viommu, dev_id, virt_id }
    }

    /// The same device with another stage-1 page table, or with none.
    pub open spec fn with_s1_hwpt(self, s1_hwpt_id: Option<u32>) -> IommufdVDevice {
        IommufdVDevice { s1_hwpt_id, ..self }
    }

    /// The request for a stage-1 page table on the vIOMMU, with its configuration at `data_uptr`.
    pub open spec fn s1_hwpt_request(self, ste: iommu_hwpt_arm_smmuv3, data_uptr: u64) -> IoctlRequest<
        iommu_hwpt_alloc,
        iommu_hwpt_arm_smmuv3,
    > {
        self.viommu.iommufd.request(
            IOMMUFD_CMD_HWPT_ALLOC,
            iommu_hwpt_alloc {
                size: IOMMU_HWPT_ALLOC_SIZE,
                flags: 0,
                dev_id: self.dev_id,
                pt_id: self.viommu.viommu_id,
                out_hwpt_id: 0,
                __reserved: 0,
                data_type: IOMMU_HWPT_DATA_ARM_SMMUV3,
                data_len: IOMMU_HWPT_ARM_SMMUV3_SIZE,
                data_uptr,
                fault_id: 0,
                __reserved2: 0,
            },
            Some(ste),
        )
    }

    /// What is asked of the kernel for a stage-1 page table. A device that holds one already is
    /// refused.
    pub open spec fn s1_hwpt_allocation(
        self,
        hwpt_data: IommufdHwptData,
        data_uptr: u64,
    ) -> Result<IoctlRequest<iommu_hwpt_alloc, iommu_hwpt_arm_smmuv3>, IommufdError> {
        if self.s1_hwpt_id is Some {
            Err(IommufdError::S1HwptAlreadyAllocated(self.vdevice_id))
        } else {
            Ok(self.s1_hwpt_request(hwpt_data->Smmuv3_0, data_uptr))
        }
    }

    /// Allocates the s1 hwpt for the vDevice: the request, with the configuration at the address
    /// `data_uptr`. Stage-1 page tables of a VT-d are not implemented.
    pub fn allocate_s1_hwpt(&self, hwpt_data: &IommufdHwptData, data_uptr: u64) -> (result: Result<
        IoctlRequest<iommu_hwpt_alloc, iommu_hwpt_arm_smmuv3>,
        IommufdError,
    >)
        requires
            self.s1_hwpt_id is Some || hwpt_data is Smmuv3,
        ensures
            result == self.s1_hwpt_allocation(*hwpt_data, data_uptr),
    {
        if self.s1_hwpt_id.is_some() {
            return Err(IommufdError::S1HwptAlreadyAllocated(self.vdevice_id));
        }
        match hwpt_data {
            IommufdHwptData::Smmuv3(data) => {
                let hwpt_alloc = iommu_hwpt_alloc {
                    size: IOMMU_HWPT_ALLOC_SIZE,
                    flags: 0,
                    dev_id: self.dev_id,
                    pt_id: self.viommu.viommu_id,
                    out_hwpt_id: 0,
                    __reserved: 0,
                    data_type: IOMMU_HWPT_DATA_ARM_SMMUV3,
                    data_len: IOMMU_HWPT_ARM_SMMUV3_SIZE,
                    data_uptr,
                    fault_id: 0,
                    __reserved2: 0,
                };
                Ok(self.viommu.iommufd.alloc_iommu_hwpt(&hwpt_alloc, Some(*data)))
            },
            IommufdHwptData::Vtd(_) => vstd::pervasive::unreached(),
        }
    }

    /// What the reply to the request for a stage-1 page table makes of the device.
    pub open spec fn after_s1_allocation(
        self,
        reply: IoctlReply<iommu_hwpt_alloc, iommu_hwpt_arm_smmuv3>,
    ) -> IommufdVDevice {
        match crate::iommufd_syscall::hwpt_outcome(reply) {
            Ok(s1_hwpt_id) => self.with_s1_hwpt(Some(s1_hwpt_id)),
            Err(_) => self,
        }
    }

    /// Takes the reply to the request of [`IommufdVDevice::allocate_s1_hwpt`], and returns the id
    /// of the page table.
    pub fn s1_hwpt_allocated(
        &mut self,
        reply: &IoctlReply<iommu_hwpt_alloc, iommu_hwpt_arm_smmuv3>,
    ) -> (result: Result<u32, IommufdError>)
        requires
            old(self).s1_hwpt_id is None,
        ensures
            result == crate::iommufd_syscall::hwpt_outcome(*reply),
            *final(self) == old(self).after_s1_allocation(*reply),
    {
        match iommufd_syscall::allocated_hwpt(reply) {
            Ok(s1_hwpt_id) => {
                self.s1_hwpt_id = Some(s1_hwpt_id);
                Ok(s1_hwpt_id)
            },
            Err(error) => Err(error),
        }
    }

    /// How the destruction of the stage-1 page table begins: with a request for the one that the
    /// device holds, or, if it holds none, with a success at once.
    pub open spec fn s1_hwpt_destruction(self) -> S1Destruction {
        match self.s1_hwpt_id {
            Some(s1_hwpt_id) => S1Destruction::Destroy(
                self.viommu.iommufd.destroy_request(s1_hwpt_id),
            ),
            None => S1Destruction::Finished(Ok(())),
        }
    }

    /// Destroys the s1 hwpt for the vDevice: the request, or the result if there is nothing to
    /// ask for.
    pub fn destroy_s1_hwpt(&self) -> (destruction: S1Destruction)
        ensures
            destruction == self.s1_hwpt_destruction(),
    {
        match self.s1_hwpt_id {
            Some(s1_hwpt_id) => S1Destruction::Destroy(
                self.viommu.iommufd.destroy_iommufd(s1_hwpt_id),
            ),
            None => S1Destruction::Finished(Ok(())),
        }
    }

    /// What the reply to the request to destroy the stage-1 page table makes of the device.
    pub open spec fn after_s1_destruction(
        self,
        reply: IoctlReply<iommu_destroy, ()>,
    ) -> IommufdVDevice {
        if reply.ret < 0 {
            self
        } else {
            self.with_s1_hwpt(None)
        }
    }

    /// Takes the reply to the request of [`IommufdVDevice::destroy_s1_hwpt`].
    pub fn s1_hwpt_destroyed(&mut self, reply: &IoctlReply<iommu_destroy, ()>) -> (result: Result<
        (),
        IommufdError,
    >)
        requires
            old(self).s1_hwpt_id is Some,
        ensures
            result == reply.outcome(IommufdError::IommuDestroy(reply.errno)),
            *final(self) == old(self).after_s1_destruction(*reply),
    {
        match iommufd_syscall::destroy_iommufd(reply) {
            Ok(()) => {
                self.s1_hwpt_id = None;
                Ok(())
            },
            Err(error) => Err(error),
        }
    }

    /// Gets device hardware information: the request, with the memory for it at the address
    /// `data_uptr`. The information of a VT-d is not implemented.
    pub fn get_device_hw_info(&self, hw_info_data: &IommufdHwInfoData, data_uptr: u64) -> (request:
        IoctlRequest<iommu_hw_info, iommu_hw_info_arm_smmuv3>)
        requires
            hw_info_data is Smmuv3,
        ensures
            request == self.viommu.iommufd.request(
                IOMMUFD_CMD_GET_HW_INFO,
                iommu_hw_info {
                    size: IOMMU_HW_INFO_SIZE,
                    flags: 0,
                    dev_id: self.dev_id,
                    data_len: IOMMU_HW_INFO_ARM_SMMUV3_SIZE,
                    data_uptr,
                    data_type: 0,
                    out_max_pasid_log2: 0,
                    __reserved: [0u8, 0, 0],
                    out_capabilities: 0,
                },
                Some(hw_info_data->Smmuv3_0),
            ),
    {
        let data = match hw_info_data {
            IommufdHwInfoData::Smmuv3(data) => *data,
            IommufdHwInfoData::Vtd(_) => vstd::pervasive::unreached(),
        };
        let hw_info = iommu_hw_info {
            size: IOMMU_HW_INFO_SIZE,
            flags: 0,
            dev_id: self.dev_id,
            data_len: IOMMU_HW_INFO_ARM_SMMUV3_SIZE,
            data_uptr,
            data_type: 0,
            out_max_pasid_log2: 0,
            __reserved: [0u8, 0, 0],
            out_capabilities: 0,
        };
        self.viommu.iommufd.get_hw_info(&hw_info, Some(data))
    }

    /// Takes the reply to the request of [`IommufdVDevice::get_device_hw_info`]. `hw_info_data`
    /// becomes what the kernel left in its place.
    pub fn device_hw_info_read(
        hw_info_data: &mut IommufdHwInfoData,
        reply: &IoctlReply<iommu_hw_info, iommu_hw_info_arm_smmuv3>,
    ) -> (result: Result<iommu_hw_info, IommufdError>)
        requires
            *old(hw_info_data) is Smmuv3,
        ensures
            *final(hw_info_data) == match reply.data {
                Some(data) => IommufdHwInfoData::Smmuv3(data),
                None => *old(hw_info_data),
            },
            result == match reply.outcome(IommufdError::IommuGetHwInfo(reply.errno)) {
                Ok(()) => Ok(reply.arg),
                Err(error) => Err(error),
            },
    {
        if let Some(data) = reply.data {
            *hw_info_data = IommufdHwInfoData::Smmuv3(data);
        }
        let mut hw_info = reply.arg;
        match iommufd_syscall::get_hw_info(&mut hw_info, reply) {
            Ok(()) => Ok(hw_info),
            Err(error) => Err(error),
        }
    }

    /// The kernel objects of a vDevice, in the order in which they are destroyed.
    pub open spec fn objects(self) -> Seq<u32> {
        match self.s1_hwpt_id {
            Some(s1_hwpt_id) => seq![self.vdevice_id, s1_hwpt_id],
            None => seq![self.vdevice_id],
        }
    }

    /// What is to be destroyed when the vDevice is dropped, on the device of its vIOMMU.
    pub fn teardown(&self) -> (teardown: Teardown)
        ensures
            teardown.iommufd == *self.viommu.iommufd,
            teardown.ids@ == self.objects(),
    {
        let mut ids: Vec<u32> = vec![self.vdevice_id];
        if let Some(s1_hwpt_id) = self.s1_hwpt_id {
            ids.push(s1_hwpt_id);
        }
        Teardown { iommufd: IommuFd { fd: self.viommu.iommufd.as_raw_fd() }, ids }
    }
}

} // verus!

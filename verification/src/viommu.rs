//! Virtual IOMMUs: how one is created, used and taken down.
use crate::error::IommufdError;
use crate::hardware::{detect_cmdqv_hardware, get_viommu_type, CmdqvProbe, ProbeStep};
use crate::ioctl::{IoctlReply, IoctlRequest};
use crate::iommu_fd::IommuFd;
use crate::iommufd_syscall;
use crate::teardown::Teardown;
use crate::uapi::{
    iommu_hwpt_alloc, iommu_hwpt_arm_smmuv3, iommu_hwpt_data_type, iommu_hwpt_invalidate,
    iommu_hwpt_vtd_s1_invalidate, iommu_viommu_alloc, iommu_viommu_arm_smmuv3_invalidate,
    iommu_viommu_tegra241_cmdqv, IOMMUFD_CMD_HWPT_ALLOC, IOMMUFD_CMD_HWPT_INVALIDATE,
    IOMMUFD_CMD_VIOMMU_ALLOC, IOMMU_HWPT_ALLOC_NEST_PARENT, IOMMU_HWPT_ALLOC_SIZE,
    IOMMU_HWPT_ARM_SMMUV3_SIZE, IOMMU_HWPT_DATA_ARM_SMMUV3, IOMMU_HWPT_DATA_NONE,
    IOMMU_HWPT_INVALIDATE_SIZE, IOMMU_VIOMMU_ALLOC_SIZE, IOMMU_VIOMMU_ARM_SMMUV3_INVALIDATE_SIZE,
    IOMMU_VIOMMU_INVALIDATE_DATA_ARM_SMMUV3, IOMMU_VIOMMU_TEGRA241_CMDQV_SIZE,
    IOMMU_VIOMMU_TYPE_ARM_SMMUV3, IOMMU_VIOMMU_TYPE_TEGRA241_CMDQV,
};
use std::sync::Arc;
use vstd::prelude::*;

verus! {

/// The valid bit of a stream table entry (SMMUv3 hardware specification, "Stream Table Entry").
pub const SMMU_STE_VALID: u64 = 1 << 0;

/// The configuration of a stream table entry that lets the traffic of a device bypass stage 1.
pub const SMMU_STE_CFG_BYPASS: u64 = 1 << 3;

/// The data of an invalidation.
#[derive(Debug, Copy, Clone)]
pub enum IommufdInvalidateData {
    Smmuv3(iommu_viommu_arm_smmuv3_invalidate),
    Vtd(iommu_hwpt_vtd_s1_invalidate),
}

/// A virtual IOMMU and the kernel objects that belong to it.
#[derive(Clone)]
pub struct IommufdVIommu {
    pub iommufd: Arc<IommuFd>,
    pub viommu_id: u32,
    pub dev_id: u32,
    /// The stage-2 page table that all devices behind this vIOMMU share.
    pub s2_hwpt_id: u32,
    /// The stage-1 page table for the time in which the guest has not set up the vIOMMU.
    pub bypass_hwpt_id: u32,
    /// The stage-1 page table for a vIOMMU that is set up to abort all traffic.
    pub abort_hwpt_id: u32,
}

/// How far the creation of a vIOMMU has come.
#[derive(Debug, Copy, Clone, PartialEq, Eq, Structural)]
pub enum ViommuStage {
    /// The stage-2 page table is to be allocated.
    S2Hwpt,
    /// The hardware is to be looked for in the directory `probe`.
    Hardware { s2_hwpt_id: u32, probe: CmdqvProbe },
    /// The vIOMMU itself is to be allocated.
    Viommu { s2_hwpt_id: u32, viommu_type: u32 },
    /// The bypass page table is to be allocated.
    BypassHwpt { s2_hwpt_id: u32, viommu_id: u32 },
    /// The abort page table is to be allocated.
    AbortHwpt { s2_hwpt_id: u32, viommu_id: u32, bypass_hwpt_id: u32 },
}

/// A vIOMMU that is being created.
pub struct ViommuCreation {
    pub iommufd: Arc<IommuFd>,
    pub ioas_id: u32,
    pub dev_id: u32,
    pub s1_hwpt_data_type: iommu_hwpt_data_type,
    pub stage: ViommuStage,
}

/// Where the caller keeps the memory that it shares with the kernel during the creation of a
/// vIOMMU: the addresses of an `iommu_hwpt_arm_smmuv3` and an `iommu_viommu_tegra241_cmdqv`.
#[derive(Debug, Copy, Clone, PartialEq, Eq, Structural)]
pub struct ViommuBuffers {
    pub s1_hwpt_data: u64,
    pub cmdqv_data: u64,
}

/// What the caller is to do next for a vIOMMU that is being created.
#[derive(Debug, PartialEq, Eq)]
pub enum ViommuAction {
    AllocHwpt(IoctlRequest<iommu_hwpt_alloc, iommu_hwpt_arm_smmuv3>),
    ListDirectory(CmdqvProbe),
    AllocViommu(IoctlRequest<iommu_viommu_alloc, iommu_viommu_tegra241_cmdqv>),
}

/// What came of a [`ViommuAction`].
pub enum ViommuEvent {
    HwptAllocated(IoctlReply<iommu_hwpt_alloc, iommu_hwpt_arm_smmuv3>),
    /// The names of the entries of the directory, or `None` if it cannot be read.
    DirectoryListed(Option<Vec<String>>),
    ViommuAllocated(IoctlReply<iommu_viommu_alloc, iommu_viommu_tegra241_cmdqv>),
}

/// What an event makes of a vIOMMU that is being created.
pub enum ViommuProgress {
    Pending(ViommuCreation),
    Finished(Result<IommufdVIommu, IommufdError>),
}

/// The stream table entry of the bypass page table.
pub open spec fn bypass_ste() -> iommu_hwpt_arm_smmuv3 {
    iommu_hwpt_arm_smmuv3 { ste: [SMMU_STE_CFG_BYPASS | SMMU_STE_VALID, 0] }
}

/// The stream table entry of the abort page table.
pub open spec fn abort_ste() -> iommu_hwpt_arm_smmuv3 {
    iommu_hwpt_arm_smmuv3 { ste: [SMMU_STE_VALID, 0] }
}

impl ViommuCreation {
    /// A vIOMMU is created for ARM SMMUv3 stage-1 data only, and its type is one that the
    /// hardware search can end in.
    pub open spec fn well_formed(self) -> bool {
        &&& self.s1_hwpt_data_type == IOMMU_HWPT_DATA_ARM_SMMUV3
        &&& match self.stage {
            ViommuStage::Viommu { viommu_type, .. } => {
                ||| viommu_type == IOMMU_VIOMMU_TYPE_ARM_SMMUV3
                ||| viommu_type == IOMMU_VIOMMU_TYPE_TEGRA241_CMDQV
            },
            _ => true,
        }
    }

    /// The same creation at another stage.
    pub open spec fn at(self, stage: ViommuStage) -> ViommuCreation {
        ViommuCreation { stage, ..self }
    }

    /// The request for the stage-2 page table: the parent of the nested ones, on the IO address
    /// space.
    pub open spec fn s2_hwpt_request(self) -> IoctlRequest<
        iommu_hwpt_alloc,
        iommu_hwpt_arm_smmuv3,
    > {
        self.iommufd.request(
            IOMMUFD_CMD_HWPT_ALLOC,
            iommu_hwpt_alloc {
                size: IOMMU_HWPT_ALLOC_SIZE,
                flags: IOMMU_HWPT_ALLOC_NEST_PARENT,
                dev_id: self.dev_id,
                pt_id: self.ioas_id,
                out_hwpt_id: 0,
                __reserved: 0,
                data_type: IOMMU_HWPT_DATA_NONE,
                data_len: 0,
                data_uptr: 0,
                fault_id: 0,
                __reserved2: 0,
            },
            None,
        )
    }

    /// The request for a page table nested on `s2_hwpt_id` with the stage-1 configuration `ste`.
    pub open spec fn nested_hwpt_request(
        self,
        s2_hwpt_id: u32,
        ste: iommu_hwpt_arm_smmuv3,
        buffers: ViommuBuffers,
    ) -> IoctlRequest<iommu_hwpt_alloc, iommu_hwpt_arm_smmuv3> {
        self.iommufd.request(
            IOMMUFD_CMD_HWPT_ALLOC,
            iommu_hwpt_alloc {
                size: IOMMU_HWPT_ALLOC_SIZE,
                flags: 0,
                dev_id: self.dev_id,
                pt_id: s2_hwpt_id,
                out_hwpt_id: 0,
                __reserved: 0,
                data_type: self.s1_hwpt_data_type,
                data_len: IOMMU_HWPT_ARM_SMMUV3_SIZE,
                data_uptr: buffers.s1_hwpt_data,
                fault_id: 0,
                __reserved2: 0,
            },
            Some(ste),
        )
    }

    /// The request for the vIOMMU itself, on `s2_hwpt_id`. A CMDQV vIOMMU, and no other, gets a
    /// zeroed buffer in which the kernel tells of the virtual interface.
    pub open spec fn viommu_request(
        self,
        s2_hwpt_id: u32,
        viommu_type: u32,
        buffers: ViommuBuffers,
    ) -> IoctlRequest<iommu_viommu_alloc, iommu_viommu_tegra241_cmdqv> {
        let cmdqv = viommu_type == IOMMU_VIOMMU_TYPE_TEGRA241_CMDQV;
        self.iommufd.request(
            IOMMUFD_CMD_VIOMMU_ALLOC,
            iommu_viommu_alloc {
                size: IOMMU_VIOMMU_ALLOC_SIZE,
                flags: 0,
                type_: viommu_type,
                dev_id: self.dev_id,
                hwpt_id: s2_hwpt_id,
                out_viommu_id: 0,
                data_len: if cmdqv {
                    IOMMU_VIOMMU_TEGRA241_CMDQV_SIZE
                } else {
                    0
                },
                __reserved: 0,
                data_uptr: if cmdqv {
                    buffers.cmdqv_data
                } else {
                    0
                },
            },
            if cmdqv {
                Some(
                    iommu_viommu_tegra241_cmdqv {
                        out_vintf_mmap_offset: 0,
                        out_vintf_mmap_length: 0,
                    },
                )
            } else {
                None
            },
        )
    }

    /// What is to be done next.
    pub open spec fn pending_action(self, buffers: ViommuBuffers) -> ViommuAction {
        match self.stage {
            ViommuStage::S2Hwpt => ViommuAction::AllocHwpt(self.s2_hwpt_request()),
            ViommuStage::Hardware { probe, .. } => ViommuAction::ListDirectory(probe),
            ViommuStage::Viommu { s2_hwpt_id, viommu_type } => ViommuAction::AllocViommu(
                self.viommu_request(s2_hwpt_id, viommu_type, buffers),
            ),
            ViommuStage::BypassHwpt { s2_hwpt_id, .. } => ViommuAction::AllocHwpt(
                self.nested_hwpt_request(s2_hwpt_id, bypass_ste(), buffers),
            ),
            ViommuStage::AbortHwpt { s2_hwpt_id, .. } => ViommuAction::AllocHwpt(
                self.nested_hwpt_request(s2_hwpt_id, abort_ste(), buffers),
            ),
        }
    }

    /// The event is the answer to what is to be done next.
    pub open spec fn expects(self, event: ViommuEvent) -> bool {
        match self.stage {
            ViommuStage::Hardware { .. } => event is DirectoryListed,
            ViommuStage::Viommu { .. } => event is ViommuAllocated,
            _ => event is HwptAllocated,
        }
    }

    /// What an event makes of the creation. One that is not the answer to what is to be done
    /// next changes nothing.
    pub open spec fn after(self, event: ViommuEvent) -> ViommuProgress {
        match (self.stage, event) {
            (ViommuStage::S2Hwpt, ViommuEvent::HwptAllocated(reply)) =>
                match crate::iommufd_syscall::hwpt_outcome(reply) {
                    Ok(s2_hwpt_id) => ViommuProgress::Pending(
                        self.at(
                            ViommuStage::Hardware { s2_hwpt_id, probe: CmdqvProbe::AcpiDevices },
                        ),
                    ),
                    Err(error) => ViommuProgress::Finished(Err(error)),
                },
            (
                ViommuStage::Hardware { s2_hwpt_id, probe },
                ViommuEvent::DirectoryListed(listing),
            ) => ViommuProgress::Pending(
                self.at(
                    match probe.after(listing) {
                        ProbeStep::List(probe) => ViommuStage::Hardware { s2_hwpt_id, probe },
                        ProbeStep::Detected(cmdqv_hardware) => ViommuStage::Viommu {
                            s2_hwpt_id,
                            viommu_type: crate::hardware::viommu_type_for(cmdqv_hardware),
                        },
                    },
                ),
            ),
            (ViommuStage::Viommu { s2_hwpt_id, .. }, ViommuEvent::ViommuAllocated(reply)) =>
                match crate::iommufd_syscall::viommu_outcome(reply) {
                    Ok(viommu_id) => ViommuProgress::Pending(
                        self.at(ViommuStage::BypassHwpt { s2_hwpt_id, viommu_id }),
                    ),
                    Err(error) => ViommuProgress::Finished(Err(error)),
                },
            (
                ViommuStage::BypassHwpt { s2_hwpt_id, viommu_id },
                ViommuEvent::HwptAllocated(reply),
            ) => match crate::iommufd_syscall::hwpt_outcome(reply) {
                Ok(bypass_hwpt_id) => ViommuProgress::Pending(
                    self.at(ViommuStage::AbortHwpt { s2_hwpt_id, viommu_id, bypass_hwpt_id }),
                ),
                Err(error) => ViommuProgress::Finished(Err(error)),
            },
            (
                ViommuStage::AbortHwpt { s2_hwpt_id, viommu_id, bypass_hwpt_id },
                ViommuEvent::HwptAllocated(reply),
            ) => match crate::iommufd_syscall::hwpt_outcome(reply) {
                Ok(abort_hwpt_id) => ViommuProgress::Finished(
                    Ok(
                        IommufdVIommu {
                            iommufd: self.iommufd,
                            viommu_id,
                            dev_id: self.dev_id,
                            s2_hwpt_id,
                            bypass_hwpt_id,
                            abort_hwpt_id,
                        },
                    ),
                ),
                Err(error) => ViommuProgress::Finished(Err(error)),
            },
            _ => ViommuProgress::Pending(self),
        }
    }

    /// A page table nested on `s2_hwpt_id` with the stage-1 configuration `ste`.
    fn request_nested_hwpt(
        &self,
        s2_hwpt_id: u32,
        ste: iommu_hwpt_arm_smmuv3,
        buffers: &ViommuBuffers,
    ) -> (request: IoctlRequest<iommu_hwpt_alloc, iommu_hwpt_arm_smmuv3>)
        ensures
            request == self.nested_hwpt_request(s2_hwpt_id, ste, *buffers),
    {
        let hwpt_alloc = iommu_hwpt_alloc {
            size: IOMMU_HWPT_ALLOC_SIZE,
            flags: 0,
            dev_id: self.dev_id,
            pt_id: s2_hwpt_id,
            out_hwpt_id: 0,
            __reserved: 0,
            data_type: self.s1_hwpt_data_type,
            data_len: IOMMU_HWPT_ARM_SMMUV3_SIZE,
            data_uptr: buffers.s1_hwpt_data,
            fault_id: 0,
            __reserved2: 0,
        };
        self.iommufd.alloc_iommu_hwpt(&hwpt_alloc, Some(ste))
    }

    /// The stage-2 page table.
    fn request_s2_hwpt(&self) -> (request: IoctlRequest<iommu_hwpt_alloc, iommu_hwpt_arm_smmuv3>)
        ensures
            request == self.s2_hwpt_request(),
    {
        let hwpt_alloc = iommu_hwpt_alloc {
            size: IOMMU_HWPT_ALLOC_SIZE,
            flags: IOMMU_HWPT_ALLOC_NEST_PARENT,
            dev_id: self.dev_id,
            pt_id: self.ioas_id,
            out_hwpt_id: 0,
            __reserved: 0,
            data_type: IOMMU_HWPT_DATA_NONE,
            data_len: 0,
            data_uptr: 0,
            fault_id: 0,
            __reserved2: 0,
        };
        self.iommufd.alloc_iommu_hwpt(&hwpt_alloc, None)
    }

    /// The vIOMMU itself.
    fn request_viommu(
        &self,
        s2_hwpt_id: u32,
        viommu_type: u32,
        buffers: &ViommuBuffers,
    ) -> (request: IoctlRequest<iommu_viommu_alloc, iommu_viommu_tegra241_cmdqv>)
        ensures
            request == self.viommu_request(s2_hwpt_id, viommu_type, *buffers),
    {
        let cmdqv: bool = viommu_type == IOMMU_VIOMMU_TYPE_TEGRA241_CMDQV;
        let (data_len, data_uptr): (u32, u64) = if cmdqv {
            (IOMMU_VIOMMU_TEGRA241_CMDQV_SIZE, buffers.cmdqv_data)
        } else {
            (0, 0)
        };
        let data = if cmdqv {
            Some(
                iommu_viommu_tegra241_cmdqv { out_vintf_mmap_offset: 0, out_vintf_mmap_length: 0 },
            )
        } else {
            None
        };
        let viommu_alloc = iommu_viommu_alloc {
            size: IOMMU_VIOMMU_ALLOC_SIZE,
            flags: 0,
            type_: viommu_type,
            dev_id: self.dev_id,
            hwpt_id: s2_hwpt_id,
            out_viommu_id: 0,
            data_len,
            __reserved: 0,
            data_uptr,
        };
        self.iommufd.alloc_iommu_viommu(&viommu_alloc, data)
    }

    /// What the caller is to do next.
    pub fn action(&self, buffers: &ViommuBuffers) -> (action: ViommuAction)
        ensures
            action == self.pending_action(*buffers),
    {
        match self.stage {
            ViommuStage::S2Hwpt => ViommuAction::AllocHwpt(self.request_s2_hwpt()),
            ViommuStage::Hardware { probe, .. } => ViommuAction::ListDirectory(probe),
            ViommuStage::Viommu { s2_hwpt_id, viommu_type } => ViommuAction::AllocViommu(
                self.request_viommu(s2_hwpt_id, viommu_type, buffers),
            ),
            ViommuStage::BypassHwpt { s2_hwpt_id, .. } => {
                let ste = iommu_hwpt_arm_smmuv3 { ste: [SMMU_STE_CFG_BYPASS | SMMU_STE_VALID, 0] };
                ViommuAction::AllocHwpt(self.request_nested_hwpt(s2_hwpt_id, ste, buffers))
            },
            ViommuStage::AbortHwpt { s2_hwpt_id, .. } => {
                let ste = iommu_hwpt_arm_smmuv3 { ste: [SMMU_STE_VALID, 0] };
                ViommuAction::AllocHwpt(self.request_nested_hwpt(s2_hwpt_id, ste, buffers))
            },
        }
    }

    /// Takes what came of the action.
    pub fn advance(self, event: ViommuEvent) -> (progress: ViommuProgress)
        ensures
            progress == self.after(event),
            self.well_formed() ==> match progress {
                ViommuProgress::Pending(creation) => creation.well_formed(),
                ViommuProgress::Finished(_) => true,
            },
    {
        match (self.stage, event) {
            (ViommuStage::S2Hwpt, ViommuEvent::HwptAllocated(reply)) => {
                match iommufd_syscall::allocated_hwpt(&reply) {
                    Ok(s2_hwpt_id) => {
                        let probe = CmdqvProbe::AcpiDevices;
                        self.moved_to(ViommuStage::Hardware { s2_hwpt_id, probe })
                    },
                    Err(error) => ViommuProgress::Finished(Err(error)),
                }
            },
            (
                ViommuStage::Hardware { s2_hwpt_id, probe },
                ViommuEvent::DirectoryListed(listing),
            ) => {
                let stage = match detect_cmdqv_hardware(probe, &listing) {
                    ProbeStep::List(probe) => ViommuStage::Hardware { s2_hwpt_id, probe },
                    ProbeStep::Detected(cmdqv_hardware) => {
                        let viommu_type = get_viommu_type(cmdqv_hardware);
                        ViommuStage::Viommu { s2_hwpt_id, viommu_type }
                    },
                };
                self.moved_to(stage)
            },
            (ViommuStage::Viommu { s2_hwpt_id, .. }, ViommuEvent::ViommuAllocated(reply)) => {
                match iommufd_syscall::allocated_viommu(&reply) {
                    Ok(viommu_id) => self.moved_to(
                        ViommuStage::BypassHwpt { s2_hwpt_id, viommu_id },
                    ),
                    Err(error) => ViommuProgress::Finished(Err(error)),
                }
            },
            (
                ViommuStage::BypassHwpt { s2_hwpt_id, viommu_id },
                ViommuEvent::HwptAllocated(reply),
            ) => {
                match iommufd_syscall::allocated_hwpt(&reply) {
                    Ok(bypass_hwpt_id) => self.moved_to(
                        ViommuStage::AbortHwpt { s2_hwpt_id, viommu_id, bypass_hwpt_id },
                    ),
                    Err(error) => ViommuProgress::Finished(Err(error)),
                }
            },
            (
                ViommuStage::AbortHwpt { s2_hwpt_id, viommu_id, bypass_hwpt_id },
                ViommuEvent::HwptAllocated(reply),
            ) => {
                match iommufd_syscall::allocated_hwpt(&reply) {
                    Ok(abort_hwpt_id) => ViommuProgress::Finished(
                        Ok(
                            IommufdVIommu {
                                iommufd: self.iommufd,
                                viommu_id,
                                dev_id: self.dev_id,
                                s2_hwpt_id,
                                bypass_hwpt_id,
                                abort_hwpt_id,
                            },
                        ),
                    ),
                    Err(error) => ViommuProgress::Finished(Err(error)),
                }
            },
            _ => ViommuProgress::Pending(self),
        }
    }

    /// The creation goes on at another stage.
    fn moved_to(self, stage: ViommuStage) -> (progress: ViommuProgress)
        ensures
            progress == ViommuProgress::Pending(self.at(stage)),
    {
        ViommuProgress::Pending(ViommuCreation { stage, ..self })
    }
}

impl IommufdVIommu {
    /// Starts the creation of a vIOMMU.
    /// # Arguments
    /// * `iommufd` - The iommufd instance to use
    /// * `ioas_id` - The IOAS ID to associate with the vIOMMU
    /// * `dev_id` - The device ID of the VFIO device
    /// * `s1_hwpt_data_type` - The s1 hwpt data type
    pub fn new(
        iommufd: Arc<IommuFd>,
        ioas_id: u32,
        dev_id: u32,
        s1_hwpt_data_type: iommu_hwpt_data_type,
    ) -> (result: Result<ViommuCreation, IommufdError>)
        ensures
            result == if s1_hwpt_data_type != IOMMU_HWPT_DATA_ARM_SMMUV3 {
                Err(IommufdError::UnsupportedS1HwptDataType(s1_hwpt_data_type))
            } else {
                Ok(
                    ViommuCreation {
                        iommufd,
                        ioas_id,
                        dev_id,
                        s1_hwpt_data_type,
                        stage: ViommuStage::S2Hwpt,
                    },
                )
            },
            result matches Ok(creation) ==> creation.well_formed(),
    {
        if s1_hwpt_data_type != IOMMU_HWPT_DATA_ARM_SMMUV3 {
            return Err(IommufdError::UnsupportedS1HwptDataType(s1_hwpt_data_type));
        }
        Ok(
            ViommuCreation {
                iommufd,
                ioas_id,
                dev_id,
                s1_hwpt_data_type,
                stage: ViommuStage::S2Hwpt,
            },
        )
    }

    /// The request that invalidates what `entry` says, one entry, found at `data_uptr`.
    pub open spec fn invalidate_request(
        self,
        entry: iommu_viommu_arm_smmuv3_invalidate,
        data_uptr: u64,
    ) -> IoctlRequest<iommu_hwpt_invalidate, iommu_viommu_arm_smmuv3_invalidate> {
        self.iommufd.request(
            IOMMUFD_CMD_HWPT_INVALIDATE,
            iommu_hwpt_invalidate {
                size: IOMMU_HWPT_INVALIDATE_SIZE,
                hwpt_id: self.viommu_id,
                data_uptr,
                data_type: IOMMU_VIOMMU_INVALIDATE_DATA_ARM_SMMUV3,
                entry_len: IOMMU_VIOMMU_ARM_SMMUV3_INVALIDATE_SIZE,
                entry_num: 1,
                __reserved: 0,
            },
            Some(entry),
        )
    }

    /// Invalidates a hwpt entry: the request, with the command at the address `data_uptr`.
    /// Invalidations of a VT-d are not implemented.
    /// # Arguments
    /// * `cmd` - The invalidate data
    pub fn invalidate_hwpt(&self, cmd: &IommufdInvalidateData, data_uptr: u64) -> (request:
        IoctlRequest<iommu_hwpt_invalidate, iommu_viommu_arm_smmuv3_invalidate>)
        requires
            cmd is Smmuv3,
        ensures
            request == self.invalidate_request(cmd->Smmuv3_0, data_uptr),
    {
        let data = match cmd {
            IommufdInvalidateData::Smmuv3(data) => *data,
            IommufdInvalidateData::Vtd(_) => vstd::pervasive::unreached(),
        };
        let hw_invalidate = iommu_hwpt_invalidate {
            size: IOMMU_HWPT_INVALIDATE_SIZE,
            hwpt_id: self.viommu_id,
            data_uptr,
            data_type: IOMMU_VIOMMU_INVALIDATE_DATA_ARM_SMMUV3,
            entry_len: IOMMU_VIOMMU_ARM_SMMUV3_INVALIDATE_SIZE,
            entry_num: 1,
            __reserved: 0,
        };
        self.iommufd.invalidate_hwpt(&hw_invalidate, Some(data))
    }

    /// Takes the reply to the request of [`IommufdVIommu::invalidate_hwpt`]. `cmd` becomes what
    /// the kernel left in its place.
    /// # Returns:
    /// * `Ok(true)` if the entry is invalidated
    /// * `Ok(false)` if the entry is not invalidated
    pub fn hwpt_invalidated(
        cmd: &mut IommufdInvalidateData,
        reply: &IoctlReply<iommu_hwpt_invalidate, iommu_viommu_arm_smmuv3_invalidate>,
    ) -> (result: Result<bool, IommufdError>)
        requires
            *old(cmd) is Smmuv3,
        ensures
            *final(cmd) == match reply.data {
                Some(data) => IommufdInvalidateData::Smmuv3(data),
                None => *old(cmd),
            },
            result == match reply.outcome(IommufdError::IommuHwptInvalidate(reply.errno)) {
                Ok(()) => Ok(reply.arg.entry_num == 1),
                Err(error) => Err(error),
            },
    {
        if let Some(data) = reply.data {
            *cmd = IommufdInvalidateData::Smmuv3(data);
        }
        let mut hw_invalidate = reply.arg;
        match iommufd_syscall::invalidate_hwpt(&mut hw_invalidate, reply) {
            Ok(()) => Ok(hw_invalidate.entry_num == 1),
            Err(error) => Err(error),
        }
    }

    /// The kernel objects of a vIOMMU, in the order in which they are destroyed.
    pub open spec fn objects(self) -> Seq<u32> {
        seq![self.viommu_id, self.s2_hwpt_id, self.bypass_hwpt_id, self.abort_hwpt_id]
    }

    /// What is to be destroyed when the vIOMMU is dropped, on the device that it belongs to.
    pub fn teardown(&self) -> (teardown: Teardown)
        ensures
            teardown.iommufd == *self.iommufd,
            teardown.ids@ == self.objects(),
    {
        Teardown {
            iommufd: IommuFd { fd: self.iommufd.as_raw_fd() },
            ids: vec![self.viommu_id, self.s2_hwpt_id, self.bypass_hwpt_id, self.abort_hwpt_id],
        }
    }
}

} // verus!

//! The part of the kernel's iommufd user API that this library speaks.
//!
//! The structures carry the fields of `linux/iommufd.h` under their kernel names, as plain
//! integers. They are values, not memory layouts: whoever issues an ioctl lays them out as the
//! kernel expects. Each `*_SIZE` constant is the size of that layout in bytes, which the kernel
//! wants to be told in the `size`, `data_len` and `entry_len` fields.
use vstd::prelude::*;

verus! {

/// The ioctl type (the "magic") of iommufd.
pub const IOMMUFD_TYPE: u8 = 59;

pub const IOMMUFD_CMD_DESTROY: u32 = 128;

pub const IOMMUFD_CMD_IOAS_ALLOC: u32 = 129;

pub const IOMMUFD_CMD_IOAS_MAP: u32 = 133;

pub const IOMMUFD_CMD_IOAS_UNMAP: u32 = 134;

pub const IOMMUFD_CMD_HWPT_ALLOC: u32 = 137;

pub const IOMMUFD_CMD_GET_HW_INFO: u32 = 138;

pub const IOMMUFD_CMD_HWPT_INVALIDATE: u32 = 141;

pub const IOMMUFD_CMD_VIOMMU_ALLOC: u32 = 144;

pub const IOMMUFD_CMD_VDEVICE_ALLOC: u32 = 145;

/// vIOMMU types, the kernel's `enum iommu_viommu_type`.
pub const IOMMU_VIOMMU_TYPE_DEFAULT: u32 = 0;

pub const IOMMU_VIOMMU_TYPE_ARM_SMMUV3: u32 = 1;

pub const IOMMU_VIOMMU_TYPE_TEGRA241_CMDQV: u32 = 2;

/// The format of the data that describes a nested hardware page table.
#[allow(non_camel_case_types)]
pub type iommu_hwpt_data_type = u32;

pub const IOMMU_HWPT_DATA_NONE: iommu_hwpt_data_type = 0;

pub const IOMMU_HWPT_DATA_ARM_SMMUV3: iommu_hwpt_data_type = 2;

/// Allocate a page table that can be the parent of nested ones.
pub const IOMMU_HWPT_ALLOC_NEST_PARENT: u32 = 1;

/// The format of the entries of a cache invalidation.
pub const IOMMU_VIOMMU_INVALIDATE_DATA_ARM_SMMUV3: u32 = 1;

pub const IOMMU_DESTROY_SIZE: u32 = 8;

pub const IOMMU_HWPT_ALLOC_SIZE: u32 = 48;

pub const IOMMU_HWPT_ARM_SMMUV3_SIZE: u32 = 16;

pub const IOMMU_HW_INFO_SIZE: u32 = 40;

pub const IOMMU_HW_INFO_ARM_SMMUV3_SIZE: u32 = 40;

pub const IOMMU_HWPT_INVALIDATE_SIZE: u32 = 32;

pub const IOMMU_VIOMMU_ARM_SMMUV3_INVALIDATE_SIZE: u32 = 16;

pub const IOMMU_VIOMMU_ALLOC_SIZE: u32 = 40;

pub const IOMMU_VIOMMU_TEGRA241_CMDQV_SIZE: u32 = 16;

pub const IOMMU_VDEVICE_ALLOC_SIZE: u32 = 24;

/// Destroys the object `id`.
#[allow(non_camel_case_types)]
#[derive(Debug, Copy, Clone, PartialEq, Eq, Default)]
pub struct iommu_destroy {
    pub size: u32,
    pub id: u32,
}

/// Allocates an IO address space. The kernel writes `out_ioas_id`.
#[allow(non_camel_case_types)]
#[derive(Debug, Copy, Clone, PartialEq, Eq, Default)]
pub struct iommu_ioas_alloc {
    pub size: u32,
    pub flags: u32,
    pub out_ioas_id: u32,
}

/// Maps user memory into an IO address space.
#[allow(non_camel_case_types)]
#[derive(Debug, Copy, Clone, PartialEq, Eq, Default)]
pub struct iommu_ioas_map {
    pub size: u32,
    pub flags: u32,
    pub ioas_id: u32,
    pub __reserved: u32,
    pub user_va: u64,
    pub length: u64,
    pub iova: u64,
}

/// Unmaps a range of an IO address space. The kernel writes the unmapped `length`.
#[allow(non_camel_case_types)]
#[derive(Debug, Copy, Clone, PartialEq, Eq, Default)]
pub struct iommu_ioas_unmap {
    pub size: u32,
    pub ioas_id: u32,
    pub iova: u64,
    pub length: u64,
}

/// Allocates a hardware page table. The kernel writes `out_hwpt_id`.
#[allow(non_camel_case_types)]
#[derive(Debug, Copy, Clone, PartialEq, Eq, Default)]
pub struct iommu_hwpt_alloc {
    pub size: u32,
    pub flags: u32,
    pub dev_id: u32,
    pub pt_id: u32,
    pub out_hwpt_id: u32,
    pub __reserved: u32,
    pub data_type: u32,
    pub data_len: u32,
    pub data_uptr: u64,
    pub fault_id: u32,
    pub __reserved2: u32,
}

/// The stage-1 configuration of an ARM SMMUv3: the first two words of a stream table entry.
#[allow(non_camel_case_types)]
#[derive(Debug, Copy, Clone, PartialEq, Eq, Default)]
pub struct iommu_hwpt_arm_smmuv3 {
    pub ste: [u64; 2],
}

/// The stage-1 configuration of an Intel VT-d.
#[allow(non_camel_case_types)]
#[derive(Debug, Copy, Clone, PartialEq, Eq, Default)]
pub struct iommu_hwpt_vtd_s1 {
    pub flags: u64,
    pub pgtbl_addr: u64,
    pub addr_width: u32,
    pub __reserved: u32,
}

/// Queries the hardware behind a device. The kernel writes `data_len`, `data_type` and the
/// `out_*` fields. `data_type` is the kernel's `in_data_type` and `out_data_type`, which share
/// their place.
#[allow(non_camel_case_types)]
#[derive(Debug, Copy, Clone, PartialEq, Eq, Default)]
pub struct iommu_hw_info {
    pub size: u32,
    pub flags: u32,
    pub dev_id: u32,
    pub data_len: u32,
    pub data_uptr: u64,
    pub data_type: u32,
    pub out_max_pasid_log2: u8,
    pub __reserved: [u8; 3],
    pub out_capabilities: u64,
}

/// The identification registers of an ARM SMMUv3.
#[allow(non_camel_case_types)]
#[derive(Debug, Copy, Clone, PartialEq, Eq, Default)]
pub struct iommu_hw_info_arm_smmuv3 {
    pub flags: u32,
    pub __reserved: u32,
    pub idr: [u32; 6],
    pub iidr: u32,
    pub aidr: u32,
}

/// The capability registers of an Intel VT-d.
#[allow(non_camel_case_types)]
#[derive(Debug, Copy, Clone, PartialEq, Eq, Default)]
pub struct iommu_hw_info_vtd {
    pub flags: u32,
    pub __reserved: u32,
    pub cap_reg: u64,
    pub ecap_reg: u64,
}

/// Invalidates cached translations. The kernel writes to `entry_num` how many of the entries it
/// has handled.
#[allow(non_camel_case_types)]
#[derive(Debug, Copy, Clone, PartialEq, Eq, Default)]
pub struct iommu_hwpt_invalidate {
    pub size: u32,
    pub hwpt_id: u32,
    pub data_uptr: u64,
    pub data_type: u32,
    pub entry_len: u32,
    pub entry_num: u32,
    pub __reserved: u32,
}

/// An invalidation command of an ARM SMMUv3.
#[allow(non_camel_case_types)]
#[derive(Debug, Copy, Clone, PartialEq, Eq, Default)]
pub struct iommu_viommu_arm_smmuv3_invalidate {
    pub cmd: [u64; 2],
}

/// A stage-1 cache invalidation of an Intel VT-d.
#[allow(non_camel_case_types)]
#[derive(Debug, Copy, Clone, PartialEq, Eq, Default)]
pub struct iommu_hwpt_vtd_s1_invalidate {
    pub addr: u64,
    pub npages: u64,
    pub flags: u32,
    pub __reserved: u32,
}

/// Allocates a virtual IOMMU. The kernel writes `out_viommu_id`.
#[allow(non_camel_case_types)]
#[derive(Debug, Copy, Clone, PartialEq, Eq, Default)]
pub struct iommu_viommu_alloc {
    pub size: u32,
    pub flags: u32,
    pub type_: u32,
    pub dev_id: u32,
    pub hwpt_id: u32,
    pub out_viommu_id: u32,
    pub data_len: u32,
    pub __reserved: u32,
    pub data_uptr: u64,
}

/// What the kernel tells of the virtual interface of an NVIDIA Tegra241 CMDQV.
#[allow(non_camel_case_types)]
#[derive(Debug, Copy, Clone, PartialEq, Eq, Default)]
pub struct iommu_viommu_tegra241_cmdqv {
    pub out_vintf_mmap_offset: u64,
    pub out_vintf_mmap_length: u64,
}

/// Allocates a virtual device. The kernel writes `out_vdevice_id`.
#[allow(non_camel_case_types)]
#[derive(Debug, Copy, Clone, PartialEq, Eq, Default)]
pub struct iommu_vdevice_alloc {
    pub size: u32,
    pub viommu_id: u32,
    pub dev_id: u32,
    pub out_vdevice_id: u32,
    pub virt_id: u64,
}

} // verus!

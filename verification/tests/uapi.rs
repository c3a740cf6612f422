use iommufd_bindings as kernel;
use iommufd_ioctls::uapi;
use std::mem::size_of;

#[test]
fn commands_are_those_of_the_kernel() {
    assert_eq!(uapi::IOMMUFD_TYPE, kernel::IOMMUFD_TYPE);
    assert_eq!(uapi::IOMMUFD_CMD_DESTROY, kernel::IOMMUFD_CMD_DESTROY);
    assert_eq!(uapi::IOMMUFD_CMD_IOAS_ALLOC, kernel::IOMMUFD_CMD_IOAS_ALLOC);
    assert_eq!(uapi::IOMMUFD_CMD_IOAS_MAP, kernel::IOMMUFD_CMD_IOAS_MAP);
    assert_eq!(uapi::IOMMUFD_CMD_IOAS_UNMAP, kernel::IOMMUFD_CMD_IOAS_UNMAP);
    assert_eq!(uapi::IOMMUFD_CMD_HWPT_ALLOC, kernel::IOMMUFD_CMD_HWPT_ALLOC);
    assert_eq!(uapi::IOMMUFD_CMD_GET_HW_INFO, kernel::IOMMUFD_CMD_GET_HW_INFO);
    assert_eq!(uapi::IOMMUFD_CMD_HWPT_INVALIDATE, kernel::IOMMUFD_CMD_HWPT_INVALIDATE);
    assert_eq!(uapi::IOMMUFD_CMD_VIOMMU_ALLOC, kernel::IOMMUFD_CMD_VIOMMU_ALLOC);
    assert_eq!(uapi::IOMMUFD_CMD_VDEVICE_ALLOC, kernel::IOMMUFD_CMD_VDEVICE_ALLOC);
}

#[test]
fn constants_are_those_of_the_kernel() {
    assert_eq!(
        uapi::IOMMU_VIOMMU_TYPE_DEFAULT,
        kernel::iommu_viommu_type_IOMMU_VIOMMU_TYPE_DEFAULT
    );
    assert_eq!(
        uapi::IOMMU_VIOMMU_TYPE_ARM_SMMUV3,
        kernel::iommu_viommu_type_IOMMU_VIOMMU_TYPE_ARM_SMMUV3
    );
    assert_eq!(
        uapi::IOMMU_VIOMMU_TYPE_TEGRA241_CMDQV,
        kernel::iommu_viommu_type_IOMMU_VIOMMU_TYPE_TEGRA241_CMDQV
    );
    assert_eq!(
        uapi::IOMMU_HWPT_DATA_NONE,
        kernel::iommu_hwpt_data_type_IOMMU_HWPT_DATA_NONE
    );
    assert_eq!(
        uapi::IOMMU_HWPT_DATA_ARM_SMMUV3,
        kernel::iommu_hwpt_data_type_IOMMU_HWPT_DATA_ARM_SMMUV3
    );
    assert_eq!(
        uapi::IOMMU_HWPT_ALLOC_NEST_PARENT,
        kernel::iommufd_hwpt_alloc_flags_IOMMU_HWPT_ALLOC_NEST_PARENT
    );
    assert_eq!(
        uapi::IOMMU_VIOMMU_INVALIDATE_DATA_ARM_SMMUV3,
        kernel::iommu_hwpt_invalidate_data_type_IOMMU_VIOMMU_INVALIDATE_DATA_ARM_SMMUV3
    );
}

#[test]
fn sizes_are_those_of_the_kernel() {
    assert_eq!(uapi::IOMMU_DESTROY_SIZE as usize, size_of::<kernel::iommu_destroy>());
    assert_eq!(uapi::IOMMU_HWPT_ALLOC_SIZE as usize, size_of::<kernel::iommu_hwpt_alloc>());
    assert_eq!(uapi::IOMMU_HWPT_ARM_SMMUV3_SIZE as usize, size_of::<kernel::iommu_hwpt_arm_smmuv3>());
    assert_eq!(uapi::IOMMU_HW_INFO_SIZE as usize, size_of::<kernel::iommu_hw_info>());
    assert_eq!(
        uapi::IOMMU_HW_INFO_ARM_SMMUV3_SIZE as usize,
        size_of::<kernel::iommu_hw_info_arm_smmuv3>()
    );
    assert_eq!(uapi::IOMMU_HWPT_INVALIDATE_SIZE as usize, size_of::<kernel::iommu_hwpt_invalidate>());
    assert_eq!(
        uapi::IOMMU_VIOMMU_ARM_SMMUV3_INVALIDATE_SIZE as usize,
        size_of::<kernel::iommu_viommu_arm_smmuv3_invalidate>()
    );
    assert_eq!(uapi::IOMMU_VIOMMU_ALLOC_SIZE as usize, size_of::<kernel::iommu_viommu_alloc>());
    assert_eq!(
        uapi::IOMMU_VIOMMU_TEGRA241_CMDQV_SIZE as usize,
        size_of::<kernel::iommu_viommu_tegra241_cmdqv>()
    );
    assert_eq!(uapi::IOMMU_VDEVICE_ALLOC_SIZE as usize, size_of::<kernel::iommu_vdevice_alloc>());
    assert_eq!(uapi::IOMMU_VIOMMU_ALLOC_SIZE, 40);
}

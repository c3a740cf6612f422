//! Verified decisions of an iommufd client.
//!
//! iommufd is the Linux interface through which user space manages IO page tables. This crate
//! holds what a virtual machine monitor decides when it uses it: which ioctls are issued, with
//! which arguments and in which order, what their replies mean, and which kernel objects are to
//! be destroyed in the end. It performs no I/O. A method says what is to be done next, its caller
//! does it and hands back what came of it.
//!
//! * [`iommu_fd`]: the device, and the request of each ioctl.
//! * [`iommufd_syscall`]: the meaning of the reply to each ioctl.
//! * [`hardware`]: which kind of virtual IOMMU the hardware supports.
//! * [`viommu`], [`vdevice`]: virtual IOMMUs and the virtual devices behind them.
//! * [`teardown`]: the destruction of what they are made of.
//! * [`lifecycle`]: what holds of their lives as a whole.
//! * [`ioctl_laws`], [`viommu_laws`], [`vdevice_laws`]: what every single call carries to the
//!   kernel and brings back.
//! * [`ioctl`], [`uapi`], [`error`]: ioctls, the kernel's structures and constants, and errors.
#![allow(unused_imports)]

pub mod error;
pub mod hardware;
pub mod ioctl;
pub mod ioctl_laws;
pub mod iommu_fd;
pub mod iommufd_syscall;
pub mod lifecycle;
pub mod teardown;
pub mod uapi;
pub mod vdevice;
pub mod vdevice_laws;
pub mod viommu;
pub mod viommu_laws;

pub use error::IommufdError;
pub use hardware::{detect_cmdqv_hardware, get_viommu_type, CmdqvProbe, ProbeStep};
pub use ioctl::{IoctlReply, IoctlRequest};
pub use iommu_fd::{IommuFd, OpenRequest};
pub use teardown::Teardown;
pub use uapi::{
    IOMMU_VIOMMU_TYPE_ARM_SMMUV3, IOMMU_VIOMMU_TYPE_DEFAULT, IOMMU_VIOMMU_TYPE_TEGRA241_CMDQV,
};
pub use vdevice::{
    IommufdHwInfoData, IommufdHwptData, IommufdVDevice, S1Destruction, VdeviceCreation,
};
pub use viommu::{
    IommufdInvalidateData, IommufdVIommu, ViommuAction, ViommuBuffers, ViommuCreation, ViommuEvent,
    ViommuProgress, ViommuStage,
};

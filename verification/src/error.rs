//! What can go wrong.
use vstd::prelude::*;

verus! {

/// The errors of this library. Those of a system call carry its `errno`.
#[derive(Debug, Copy, Clone, PartialEq, Eq, Structural)]
pub enum IommufdError {
    /// The iommufd device cannot be opened.
    OpenIommufd(i32),
    /// An object cannot be destroyed.
    IommuDestroy(i32),
    /// An IO address space cannot be allocated.
    IommuIoasAlloc(i32),
    /// Memory cannot be mapped into an IO address space.
    IommuIoasMap(i32),
    /// A range cannot be unmapped from an IO address space.
    IommuIoasUnmap(i32),
    /// A hardware page table cannot be allocated.
    IommuHwptAlloc(i32),
    /// The hardware information cannot be read.
    IommuGetHwInfo(i32),
    /// Cached translations cannot be invalidated.
    IommuHwptInvalidate(i32),
    /// A virtual IOMMU cannot be allocated.
    IommuViommuAlloc(i32),
    /// A virtual device cannot be allocated.
    IommuVdeviceAlloc(i32),
    /// No virtual IOMMU can be built for this kind of stage-1 data.
    UnsupportedS1HwptDataType(u32),
    /// The virtual device with this id holds a stage-1 page table already.
    S1HwptAlreadyAllocated(u32),
}

} // verus!

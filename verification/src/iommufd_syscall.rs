//! What the reply to each ioctl means.
//!
//! Where the kernel writes to the argument of an ioctl, the caller's argument becomes what the
//! kernel left, on failure too.
use crate::error::IommufdError;
use crate::ioctl::IoctlReply;
use crate::uapi::{
    iommu_destroy, iommu_hw_info, iommu_hwpt_alloc, iommu_hwpt_invalidate, iommu_ioas_alloc,
    iommu_ioas_map, iommu_ioas_unmap, iommu_vdevice_alloc, iommu_viommu_alloc,
};
use vstd::prelude::*;

verus! {

/// What came of an ioctl by which an object was to be destroyed.
pub fn destroy_iommufd<D>(reply: &IoctlReply<iommu_destroy, D>) -> (result: Result<
    (),
    IommufdError,
>)
    ensures
        result == reply.outcome(IommufdError::IommuDestroy(reply.errno)),
{
    if reply.ret < 0 {
        Err(IommufdError::IommuDestroy(reply.errno))
    } else {
        Ok(())
    }
}

/// What came of an ioctl by which an IO address space was to be allocated.
pub fn alloc_iommu_ioas<D>(
    alloc_data: &mut iommu_ioas_alloc,
    reply: &IoctlReply<iommu_ioas_alloc, D>,
) -> (result: Result<(), IommufdError>)
    ensures
        *final(alloc_data) == reply.arg,
        result == reply.outcome(IommufdError::IommuIoasAlloc(reply.errno)),
{
    *alloc_data = reply.arg;
    if reply.ret < 0 {
        Err(IommufdError::IommuIoasAlloc(reply.errno))
    } else {
        Ok(())
    }
}

/// What came of an ioctl by which memory was to be mapped.
pub fn map_iommu_ioas<D>(reply: &IoctlReply<iommu_ioas_map, D>) -> (result: Result<
    (),
    IommufdError,
>)
    ensures
        result == reply.outcome(IommufdError::IommuIoasMap(reply.errno)),
{
    if reply.ret < 0 {
        Err(IommufdError::IommuIoasMap(reply.errno))
    } else {
        Ok(())
    }
}

/// What came of an ioctl by which a range was to be unmapped.
pub fn unmap_iommu_ioas<D>(
    unmap: &mut iommu_ioas_unmap,
    reply: &IoctlReply<iommu_ioas_unmap, D>,
) -> (result: Result<(), IommufdError>)
    ensures
        *final(unmap) == reply.arg,
        result == reply.outcome(IommufdError::IommuIoasUnmap(reply.errno)),
{
    *unmap = reply.arg;
    if reply.ret < 0 {
        Err(IommufdError::IommuIoasUnmap(reply.errno))
    } else {
        Ok(())
    }
}

/// What came of an ioctl by which a hardware page table was to be allocated.
pub fn alloc_iommu_hwpt<D>(
    hwpt_alloc: &mut iommu_hwpt_alloc,
    reply: &IoctlReply<iommu_hwpt_alloc, D>,
) -> (result: Result<(), IommufdError>)
    ensures
        *final(hwpt_alloc) == reply.arg,
        result == reply.outcome(IommufdError::IommuHwptAlloc(reply.errno)),
{
    *hwpt_alloc = reply.arg;
    if reply.ret < 0 {
        Err(IommufdError::IommuHwptAlloc(reply.errno))
    } else {
        Ok(())
    }
}

/// What came of an ioctl by which hardware information was to be read.
pub fn get_hw_info<D>(
    hw_info: &mut iommu_hw_info,
    reply: &IoctlReply<iommu_hw_info, D>,
) -> (result: Result<(), IommufdError>)
    ensures
        *final(hw_info) == reply.arg,
        result == reply.outcome(IommufdError::IommuGetHwInfo(reply.errno)),
{
    *hw_info = reply.arg;
    if reply.ret < 0 {
        Err(IommufdError::IommuGetHwInfo(reply.errno))
    } else {
        Ok(())
    }
}

/// What came of an ioctl by which cached translations were to be invalidated.
pub fn invalidate_hwpt<D>(
    hwpt_invalidate: &mut iommu_hwpt_invalidate,
    reply: &IoctlReply<iommu_hwpt_invalidate, D>,
) -> (result: Result<(), IommufdError>)
    ensures
        *final(hwpt_invalidate) == reply.arg,
        result == reply.outcome(IommufdError::IommuHwptInvalidate(reply.errno)),
{
    *hwpt_invalidate = reply.arg;
    if reply.ret < 0 {
        Err(IommufdError::IommuHwptInvalidate(reply.errno))
    } else {
        Ok(())
    }
}

/// What came of an ioctl by which a virtual IOMMU was to be allocated.
pub fn alloc_iommu_viommu<D>(
    viommu_alloc: &mut iommu_viommu_alloc,
    reply: &IoctlReply<iommu_viommu_alloc, D>,
) -> (result: Result<(), IommufdError>)
    ensures
        *final(viommu_alloc) == reply.arg,
        result == reply.outcome(IommufdError::IommuViommuAlloc(reply.errno)),
{
    *viommu_alloc = reply.arg;
    if reply.ret < 0 {
        Err(IommufdError::IommuViommuAlloc(reply.errno))
    } else {
        Ok(())
    }
}

/// What came of an ioctl by which a virtual device was to be allocated.
pub fn alloc_iommu_vdevice<D>(
    vdevice_alloc: &mut iommu_vdevice_alloc,
    reply: &IoctlReply<iommu_vdevice_alloc, D>,
) -> (result: Result<(), IommufdError>)
    ensures
        *final(vdevice_alloc) == reply.arg,
        result == reply.outcome(IommufdError::IommuVdeviceAlloc(reply.errno)),
{
    *vdevice_alloc = reply.arg;
    if reply.ret < 0 {
        Err(IommufdError::IommuVdeviceAlloc(reply.errno))
    } else {
        Ok(())
    }
}

/// What the reply to the allocation of a hardware page table says: the id of the page table, or
/// the error.
pub open spec fn hwpt_outcome<D>(reply: IoctlReply<iommu_hwpt_alloc, D>) -> Result<
    u32,
    IommufdError,
> {
    match reply.outcome(IommufdError::IommuHwptAlloc(reply.errno)) {
        Ok(()) => Ok(reply.arg.out_hwpt_id),
        Err(error) => Err(error),
    }
}

/// The id of the page table that was allocated, or the error.
pub(crate) fn allocated_hwpt<D>(reply: &IoctlReply<iommu_hwpt_alloc, D>) -> (result: Result<
    u32,
    IommufdError,
>)
    ensures
        result == hwpt_outcome(*reply),
{
    let mut hwpt_alloc = reply.arg;
    match alloc_iommu_hwpt(&mut hwpt_alloc, reply) {
        Ok(()) => Ok(hwpt_alloc.out_hwpt_id),
        Err(error) => Err(error),
    }
}

/// What the reply to the allocation of a vIOMMU says: the id of the vIOMMU, or the error.
pub open spec fn viommu_outcome<D>(reply: IoctlReply<iommu_viommu_alloc, D>) -> Result<
    u32,
    IommufdError,
> {
    match reply.outcome(IommufdError::IommuViommuAlloc(reply.errno)) {
        Ok(()) => Ok(reply.arg.out_viommu_id),
        Err(error) => Err(error),
    }
}

/// The id of the vIOMMU that was allocated, or the error.
pub(crate) fn allocated_viommu<D>(reply: &IoctlReply<iommu_viommu_alloc, D>) -> (result: Result<
    u32,
    IommufdError,
>)
    ensures
        result == viommu_outcome(*reply),
{
    let mut viommu_alloc = reply.arg;
    match alloc_iommu_viommu(&mut viommu_alloc, reply) {
        Ok(()) => Ok(viommu_alloc.out_viommu_id),
        Err(error) => Err(error),
    }
}

} // verus!

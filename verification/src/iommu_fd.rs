//! The iommufd device: how it is opened and what is asked of it.
//!
//! Nothing here performs I/O. A method of [`IommuFd`] that stands for an ioctl returns the
//! request; the function of the same name in [`crate::iommufd_syscall`] says what the reply means.
use crate::error::IommufdError;
use crate::ioctl::{
    IoctlRequest, IOMMUFD_GET_HW_INFO, IOMMUFD_HWPT_INVALIDATE, IOMMU_DESTROY, IOMMU_HWPT_ALLOC,
    IOMMU_IOAS_ALLOC, IOMMU_IOAS_MAP, IOMMU_IOAS_UNMAP, IOMMU_VDEVICE_ALLOC, IOMMU_VIOMMU_ALLOC,
};
use crate::uapi::{
    iommu_destroy, iommu_hw_info, iommu_hwpt_alloc, iommu_hwpt_invalidate, iommu_ioas_alloc,
    iommu_ioas_map, iommu_ioas_unmap, iommu_vdevice_alloc, iommu_viommu_alloc,
    IOMMUFD_CMD_DESTROY, IOMMUFD_CMD_GET_HW_INFO, IOMMUFD_CMD_HWPT_ALLOC,
    IOMMUFD_CMD_HWPT_INVALIDATE, IOMMUFD_CMD_IOAS_ALLOC, IOMMUFD_CMD_IOAS_MAP,
    IOMMUFD_CMD_IOAS_UNMAP, IOMMUFD_CMD_VDEVICE_ALLOC, IOMMUFD_CMD_VIOMMU_ALLOC,
    IOMMU_DESTROY_SIZE,
};
use vstd::prelude::*;

verus! {

/// A file to be opened.
#[derive(Debug, Copy, Clone, PartialEq, Eq)]
pub struct OpenRequest {
    pub path: &'static str,
    pub read: bool,
    pub write: bool,
}

/// An open iommufd device, known by its file descriptor. Whoever opened the file owns the
/// descriptor and keeps it open for as long as requests are made of the device.
#[derive(Debug, PartialEq, Eq)]
pub struct IommuFd {
    pub fd: i32,
}

impl IommuFd {
    /// The file that [`IommuFd::new`] wants opened.
    pub fn open_request() -> (request: OpenRequest)
        ensures
            request.path@ == "/dev/iommu"@,
            request.read,
            request.write,
    {
        OpenRequest { path: "/dev/iommu", read: true, write: true }
    }

    /// The device behind the opened file: `opened` is its descriptor, or the `errno` with which
    /// opening it failed.
    pub fn new(opened: Result<i32, i32>) -> (result: Result<IommuFd, IommufdError>)
        ensures
            result == match opened {
                Ok(fd) => Ok(IommuFd { fd }),
                Err(errno) => Err(IommufdError::OpenIommufd(errno)),
            },
    {
        match opened {
            Ok(fd) => Ok(IommuFd { fd }),
            Err(errno) => Err(IommufdError::OpenIommufd(errno)),
        }
    }

    /// The file descriptor of the device.
    pub fn as_raw_fd(&self) -> (fd: i32)
        ensures
            fd == self.fd,
    {
        self.fd
    }

    /// The request that the command `cmd` makes of this device.
    pub open spec fn request<A, D>(self, cmd: u32, arg: A, data: Option<D>) -> IoctlRequest<A, D> {
        IoctlRequest { fd: self.fd, code: crate::ioctl::iommufd_code(cmd), arg, data }
    }

    /// The request that destroys the object `id`.
    pub open spec fn destroy_request(self, id: u32) -> IoctlRequest<iommu_destroy, ()> {
        self.request(IOMMUFD_CMD_DESTROY, iommu_destroy { size: IOMMU_DESTROY_SIZE, id }, None)
    }

    /// The request that destroys the object `id`.
    pub fn destroy_iommufd(&self, id: u32) -> (request: IoctlRequest<iommu_destroy, ()>)
        ensures
            request == self.destroy_request(id),
    {
        let destroy_data = iommu_destroy { size: IOMMU_DESTROY_SIZE, id };
        IoctlRequest { fd: self.fd, code: IOMMU_DESTROY(), arg: destroy_data, data: None }
    }

    /// The request that allocates an IO address space.
    pub fn alloc_iommu_ioas(&self, alloc_data: &iommu_ioas_alloc) -> (request: IoctlRequest<
        iommu_ioas_alloc,
        (),
    >)
        ensures
            request == self.request(IOMMUFD_CMD_IOAS_ALLOC, *alloc_data, None::<()>),
    {
        IoctlRequest { fd: self.fd, code: IOMMU_IOAS_ALLOC(), arg: *alloc_data, data: None }
    }

    /// The request that maps memory into an IO address space.
    pub fn map_iommu_ioas(&self, map: &iommu_ioas_map) -> (request: IoctlRequest<
        iommu_ioas_map,
        (),
    >)
        ensures
            request == self.request(IOMMUFD_CMD_IOAS_MAP, *map, None::<()>),
    {
        IoctlRequest { fd: self.fd, code: IOMMU_IOAS_MAP(), arg: *map, data: None }
    }

    /// The request that unmaps a range of an IO address space.
    pub fn unmap_iommu_ioas(&self, unmap: &iommu_ioas_unmap) -> (request: IoctlRequest<
        iommu_ioas_unmap,
        (),
    >)
        ensures
            request == self.request(IOMMUFD_CMD_IOAS_UNMAP, *unmap, None::<()>),
    {
        IoctlRequest { fd: self.fd, code: IOMMU_IOAS_UNMAP(), arg: *unmap, data: None }
    }

    /// The request that allocates a hardware page table.
    /// `data` is what the memory at `hwpt_alloc.data_uptr` is to hold, where it is this library's
    /// to say.
    pub fn alloc_iommu_hwpt<D>(
        &self,
        hwpt_alloc: &iommu_hwpt_alloc,
        data: Option<D>,
    ) -> (request: IoctlRequest<iommu_hwpt_alloc, D>)
        ensures
            request == self.request(IOMMUFD_CMD_HWPT_ALLOC, *hwpt_alloc, data),
    {
        IoctlRequest { fd: self.fd, code: IOMMU_HWPT_ALLOC(), arg: *hwpt_alloc, data }
    }

    /// The request that reads hardware information.
    /// `data` is what the memory at `hw_info.data_uptr` is to hold, where it is this library's to
    /// say.
    pub fn get_hw_info<D>(&self, hw_info: &iommu_hw_info, data: Option<D>) -> (request:
        IoctlRequest<iommu_hw_info, D>)
        ensures
            request == self.request(IOMMUFD_CMD_GET_HW_INFO, *hw_info, data),
    {
        IoctlRequest { fd: self.fd, code: IOMMUFD_GET_HW_INFO(), arg: *hw_info, data }
    }

    /// The request that invalidates cached translations.
    /// `data` is what the memory at `hwpt_invalidate.data_uptr` is to hold, where it is this
    /// library's to say.
    pub fn invalidate_hwpt<D>(
        &self,
        hwpt_invalidate: &iommu_hwpt_invalidate,
        data: Option<D>,
    ) -> (request: IoctlRequest<iommu_hwpt_invalidate, D>)
        ensures
            request == self.request(IOMMUFD_CMD_HWPT_INVALIDATE, *hwpt_invalidate, data),
    {
        IoctlRequest { fd: self.fd, code: IOMMUFD_HWPT_INVALIDATE(), arg: *hwpt_invalidate, data }
    }

    /// The request that allocates a virtual IOMMU.
    /// `data` is what the memory at `viommu_alloc.data_uptr` is to hold, where it is this
    /// library's to say.
    pub fn alloc_iommu_viommu<D>(
        &self,
        viommu_alloc: &iommu_viommu_alloc,
        data: Option<D>,
    ) -> (request: IoctlRequest<iommu_viommu_alloc, D>)
        ensures
            request == self.request(IOMMUFD_CMD_VIOMMU_ALLOC, *viommu_alloc, data),
    {
        IoctlRequest { fd: self.fd, code: IOMMU_VIOMMU_ALLOC(), arg: *viommu_alloc, data }
    }

    /// The request that allocates a virtual device.
    pub fn alloc_iommu_vdevice(&self, vdevice_alloc: &iommu_vdevice_alloc) -> (request:
        IoctlRequest<iommu_vdevice_alloc, ()>)
        ensures
            request == self.request(IOMMUFD_CMD_VDEVICE_ALLOC, *vdevice_alloc, None::<()>),
    {
        IoctlRequest { fd: self.fd, code: IOMMU_VDEVICE_ALLOC(), arg: *vdevice_alloc, data: None }
    }
}

} // verus!

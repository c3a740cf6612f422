//! What the ioctls of a device carry to the kernel and bring back, stated of every call.
use crate::error::IommufdError;
use crate::ioctl::{IoctlReply, IoctlRequest};
use crate::iommu_fd::IommuFd;
use crate::iommufd_syscall;
use crate::teardown::Teardown;
use crate::uapi::{
    iommu_destroy, iommu_hw_info, iommu_hwpt_alloc, iommu_hwpt_invalidate, iommu_ioas_alloc,
    iommu_ioas_map, iommu_ioas_unmap, iommu_vdevice_alloc, iommu_viommu_alloc,
    IOMMUFD_CMD_DESTROY, IOMMUFD_CMD_GET_HW_INFO, IOMMUFD_CMD_HWPT_ALLOC,
    IOMMUFD_CMD_HWPT_INVALIDATE, IOMMUFD_CMD_IOAS_ALLOC, IOMMUFD_CMD_IOAS_MAP,
    IOMMUFD_CMD_IOAS_UNMAP, IOMMUFD_CMD_VDEVICE_ALLOC, IOMMUFD_CMD_VIOMMU_ALLOC,
};
use vstd::prelude::*;

verus! {

/// A device that was opened has the descriptor of the file, and gives it back unchanged. One
/// that could not be opened is an error with the `errno` of that.
pub proof fn law_open(opened: Result<i32, i32>, result: Result<IommuFd, IommufdError>, fd: i32)
    requires
        call_ensures(IommuFd::new, (opened,), result),
        result matches Ok(device) ==> call_ensures(IommuFd::as_raw_fd, (&device,), fd),
    ensures
        result is Ok <==> opened is Ok,
        opened matches Ok(given) ==> fd == given && result->Ok_0.fd == given,
        opened matches Err(errno) ==> result == Err::<IommuFd, IommufdError>(
            IommufdError::OpenIommufd(errno),
        ),
{
}

/// The request that destroys an object goes to the device that is asked, and names that object.
pub proof fn law_destroy_request(
    device: IommuFd,
    id: u32,
    request: IoctlRequest<iommu_destroy, ()>,
)
    requires
        call_ensures(IommuFd::destroy_iommufd, (&device, id), request),
    ensures
        request.fd == device.fd,
        request.code == 0x3b00 + IOMMUFD_CMD_DESTROY,
        request.arg.size == 8,
        request.arg.id == id,
        request.data is None,
{
}

/// The request for the allocation of an IO address space goes to the device that is asked, and its argument is what
/// it was given.
pub proof fn law_alloc_iommu_ioas_request(
    device: IommuFd,
    arg: iommu_ioas_alloc,
    request: IoctlRequest<iommu_ioas_alloc, ()>,
)
    requires
        call_ensures(IommuFd::alloc_iommu_ioas, (&device, &arg), request),
    ensures
        request.fd == device.fd,
        request.code == 0x3b00 + IOMMUFD_CMD_IOAS_ALLOC,
        request.arg == arg,
        request.data is None,
{
}

/// The request for a mapping goes to the device that is asked, and its argument is what
/// it was given.
pub proof fn law_map_iommu_ioas_request(
    device: IommuFd,
    arg: iommu_ioas_map,
    request: IoctlRequest<iommu_ioas_map, ()>,
)
    requires
        call_ensures(IommuFd::map_iommu_ioas, (&device, &arg), request),
    ensures
        request.fd == device.fd,
        request.code == 0x3b00 + IOMMUFD_CMD_IOAS_MAP,
        request.arg == arg,
        request.data is None,
{
}

/// The request for an unmapping goes to the device that is asked, and its argument is what
/// it was given.
pub proof fn law_unmap_iommu_ioas_request(
    device: IommuFd,
    arg: iommu_ioas_unmap,
    request: IoctlRequest<iommu_ioas_unmap, ()>,
)
    requires
        call_ensures(IommuFd::unmap_iommu_ioas, (&device, &arg), request),
    ensures
        request.fd == device.fd,
        request.code == 0x3b00 + IOMMUFD_CMD_IOAS_UNMAP,
        request.arg == arg,
        request.data is None,
{
}

/// The request for the allocation of a hardware page table goes to the device that is asked, and its argument and its data are what
/// they were given.
pub proof fn law_alloc_iommu_hwpt_request<D>(
    device: IommuFd,
    arg: iommu_hwpt_alloc,
    data: Option<D>,
    request: IoctlRequest<iommu_hwpt_alloc, D>,
)
    requires
        call_ensures(IommuFd::alloc_iommu_hwpt::<D>, (&device, &arg, data), request),
    ensures
        request.fd == device.fd,
        request.code == 0x3b00 + IOMMUFD_CMD_HWPT_ALLOC,
        request.arg == arg,
        request.data == data,
{
}

/// The request for a query of the hardware goes to the device that is asked, and its argument and its data are what
/// they were given.
pub proof fn law_get_hw_info_request<D>(
    device: IommuFd,
    arg: iommu_hw_info,
    data: Option<D>,
    request: IoctlRequest<iommu_hw_info, D>,
)
    requires
        call_ensures(IommuFd::get_hw_info::<D>, (&device, &arg, data), request),
    ensures
        request.fd == device.fd,
        request.code == 0x3b00 + IOMMUFD_CMD_GET_HW_INFO,
        request.arg == arg,
        request.data == data,
{
}

/// The request for an invalidation goes to the device that is asked, and its argument and its data are what
/// they were given.
pub proof fn law_invalidate_hwpt_request<D>(
    device: IommuFd,
    arg: iommu_hwpt_invalidate,
    data: Option<D>,
    request: IoctlRequest<iommu_hwpt_invalidate, D>,
)
    requires
        call_ensures(IommuFd::invalidate_hwpt::<D>, (&device, &arg, data), request),
    ensures
        request.fd == device.fd,
        request.code == 0x3b00 + IOMMUFD_CMD_HWPT_INVALIDATE,
        request.arg == arg,
        request.data == data,
{
}

/// The request for the allocation of a virtual IOMMU goes to the device that is asked, and its argument and its data are what
/// they were given.
pub proof fn law_alloc_iommu_viommu_request<D>(
    device: IommuFd,
    arg: iommu_viommu_alloc,
    data: Option<D>,
    request: IoctlRequest<iommu_viommu_alloc, D>,
)
    requires
        call_ensures(IommuFd::alloc_iommu_viommu::<D>, (&device, &arg, data), request),
    ensures
        request.fd == device.fd,
        request.code == 0x3b00 + IOMMUFD_CMD_VIOMMU_ALLOC,
        request.arg == arg,
        request.data == data,
{
}

/// The request for the allocation of a virtual device goes to the device that is asked, and its argument is what
/// it was given.
pub proof fn law_alloc_iommu_vdevice_request(
    device: IommuFd,
    arg: iommu_vdevice_alloc,
    request: IoctlRequest<iommu_vdevice_alloc, ()>,
)
    requires
        call_ensures(IommuFd::alloc_iommu_vdevice, (&device, &arg), request),
    ensures
        request.fd == device.fd,
        request.code == 0x3b00 + IOMMUFD_CMD_VDEVICE_ALLOC,
        request.arg == arg,
        request.data is None,
{
}

/// The reply to a destruction is a success unless its return value is negative, and then the
/// error carries the `errno`.
pub proof fn law_destroy_iommufd_reply<D>(
    reply: IoctlReply<iommu_destroy, D>,
    result: Result<(), IommufdError>,
)
    requires
        call_ensures(iommufd_syscall::destroy_iommufd::<D>, (&reply,), result),
    ensures
        result is Ok <==> reply.ret >= 0,
        result matches Err(error) ==> error == IommufdError::IommuDestroy(reply.errno),
{
}

/// The reply to the allocation of an IO address space is a success unless its return value is negative, and then the
/// error carries the `errno`. The argument becomes what the kernel left, either way.
pub proof fn law_alloc_iommu_ioas_reply<D>(
    arg: &mut iommu_ioas_alloc,
    reply: IoctlReply<iommu_ioas_alloc, D>,
    result: Result<(), IommufdError>,
)
    requires
        call_ensures(iommufd_syscall::alloc_iommu_ioas::<D>, (arg, &reply), result),
    ensures
        result is Ok <==> reply.ret >= 0,
        result matches Err(error) ==> error == IommufdError::IommuIoasAlloc(reply.errno),
        *final(arg) == reply.arg,
{
}

/// The reply to a mapping is a success unless its return value is negative, and then the
/// error carries the `errno`.
pub proof fn law_map_iommu_ioas_reply<D>(
    reply: IoctlReply<iommu_ioas_map, D>,
    result: Result<(), IommufdError>,
)
    requires
        call_ensures(iommufd_syscall::map_iommu_ioas::<D>, (&reply,), result),
    ensures
        result is Ok <==> reply.ret >= 0,
        result matches Err(error) ==> error == IommufdError::IommuIoasMap(reply.errno),
{
}

/// The reply to an unmapping is a success unless its return value is negative, and then the
/// error carries the `errno`. The argument becomes what the kernel left, either way.
pub proof fn law_unmap_iommu_ioas_reply<D>(
    arg: &mut iommu_ioas_unmap,
    reply: IoctlReply<iommu_ioas_unmap, D>,
    result: Result<(), IommufdError>,
)
    requires
        call_ensures(iommufd_syscall::unmap_iommu_ioas::<D>, (arg, &reply), result),
    ensures
        result is Ok <==> reply.ret >= 0,
        result matches Err(error) ==> error == IommufdError::IommuIoasUnmap(reply.errno),
        *final(arg) == reply.arg,
{
}

/// The reply to the allocation of a hardware page table is a success unless its return value is negative, and then the
/// error carries the `errno`. The argument becomes what the kernel left, either way.
pub proof fn law_alloc_iommu_hwpt_reply<D>(
    arg: &mut iommu_hwpt_alloc,
    reply: IoctlReply<iommu_hwpt_alloc, D>,
    result: Result<(), IommufdError>,
)
    requires
        call_ensures(iommufd_syscall::alloc_iommu_hwpt::<D>, (arg, &reply), result),
    ensures
        result is Ok <==> reply.ret >= 0,
        result matches Err(error) ==> error == IommufdError::IommuHwptAlloc(reply.errno),
        *final(arg) == reply.arg,
{
}

/// The reply to a query of the hardware is a success unless its return value is negative, and then the
/// error carries the `errno`. The argument becomes what the kernel left, either way.
pub proof fn law_get_hw_info_reply<D>(
    arg: &mut iommu_hw_info,
    reply: IoctlReply<iommu_hw_info, D>,
    result: Result<(), IommufdError>,
)
    requires
        call_ensures(iommufd_syscall::get_hw_info::<D>, (arg, &reply), result),
    ensures
        result is Ok <==> reply.ret >= 0,
        result matches Err(error) ==> error == IommufdError::IommuGetHwInfo(reply.errno),
        *final(arg) == reply.arg,
{
}

/// The reply to an invalidation is a success unless its return value is negative, and then the
/// error carries the `errno`. The argument becomes what the kernel left, either way.
pub proof fn law_invalidate_hwpt_reply<D>(
    arg: &mut iommu_hwpt_invalidate,
    reply: IoctlReply<iommu_hwpt_invalidate, D>,
    result: Result<(), IommufdError>,
)
    requires
        call_ensures(iommufd_syscall::invalidate_hwpt::<D>, (arg, &reply), result),
    ensures
        result is Ok <==> reply.ret >= 0,
        result matches Err(error) ==> error == IommufdError::IommuHwptInvalidate(reply.errno),
        *final(arg) == reply.arg,
{
}

/// The reply to the allocation of a virtual IOMMU is a success unless its return value is negative, and then the
/// error carries the `errno`. The argument becomes what the kernel left, either way.
pub proof fn law_alloc_iommu_viommu_reply<D>(
    arg: &mut iommu_viommu_alloc,
    reply: IoctlReply<iommu_viommu_alloc, D>,
    result: Result<(), IommufdError>,
)
    requires
        call_ensures(iommufd_syscall::alloc_iommu_viommu::<D>, (arg, &reply), result),
    ensures
        result is Ok <==> reply.ret >= 0,
        result matches Err(error) ==> error == IommufdError::IommuViommuAlloc(reply.errno),
        *final(arg) == reply.arg,
{
}

/// The reply to the allocation of a virtual device is a success unless its return value is negative, and then the
/// error carries the `errno`. The argument becomes what the kernel left, either way.
pub proof fn law_alloc_iommu_vdevice_reply<D>(
    arg: &mut iommu_vdevice_alloc,
    reply: IoctlReply<iommu_vdevice_alloc, D>,
    result: Result<(), IommufdError>,
)
    requires
        call_ensures(iommufd_syscall::alloc_iommu_vdevice::<D>, (arg, &reply), result),
    ensures
        result is Ok <==> reply.ret >= 0,
        result matches Err(error) ==> error == IommufdError::IommuVdeviceAlloc(reply.errno),
        *final(arg) == reply.arg,
{
}

/// What is torn down next is the first object of the list, on the device of the list, and
/// nothing if and only if the list is empty.
pub proof fn law_teardown_request(
    teardown: Teardown,
    request: Option<IoctlRequest<iommu_destroy, ()>>,
)
    requires
        call_ensures(Teardown::request, (&teardown,), request),
    ensures
        request is None <==> teardown.ids@.len() == 0,
        request matches Some(request) ==> {
            &&& request.fd == teardown.iommufd.fd
            &&& request.code == 0x3b00 + IOMMUFD_CMD_DESTROY
            &&& request.arg.size == 8
            &&& request.arg.id == teardown.ids@[0]
            &&& request.data is None
        },
{
}

/// An object that was destroyed leaves the list, and the others stay on it, in their order and
/// on the same device. One that was not ends the teardown in an error with the `errno`.
pub proof fn law_teardown_step(
    teardown: Teardown,
    reply: IoctlReply<iommu_destroy, ()>,
    result: Result<Teardown, IommufdError>,
)
    requires
        teardown.ids@.len() > 0,
        call_ensures(Teardown::destroyed, (teardown, &reply), result),
    ensures
        result is Ok <==> reply.ret >= 0,
        result matches Err(error) ==> error == IommufdError::IommuDestroy(reply.errno),
        result matches Ok(left) ==> {
            &&& left.iommufd.fd == teardown.iommufd.fd
            &&& left.ids@.len() == teardown.ids@.len() - 1
            &&& forall|i: int|
                0 <= i < left.ids@.len() ==> #[trigger] left.ids@[i] == teardown.ids@[i + 1]
        },
{
}

} // verus!

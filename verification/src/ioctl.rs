//! Ioctls as values: their codes, what is asked of the kernel, and what it answers.
use crate::error::IommufdError;
use crate::uapi::{
    IOMMUFD_CMD_DESTROY, IOMMUFD_CMD_GET_HW_INFO, IOMMUFD_CMD_HWPT_ALLOC,
    IOMMUFD_CMD_HWPT_INVALIDATE, IOMMUFD_CMD_IOAS_ALLOC, IOMMUFD_CMD_IOAS_MAP,
    IOMMUFD_CMD_IOAS_UNMAP, IOMMUFD_CMD_VDEVICE_ALLOC, IOMMUFD_CMD_VIOMMU_ALLOC, IOMMUFD_TYPE,
};
use vstd::prelude::*;

verus! {

/// The direction of an ioctl whose code announces no data transfer.
pub const IOC_NONE: u32 = 0;

/// The code of an ioctl from its direction, type, number and size.
///
/// Calls `vmm_sys_util::ioctl::ioctl_expr`. Trusted of it: the direction stands in the bits from
/// 30 on, the size in those from 16 on, the type in those from 8 on and the number in the lowest,
/// each cut off to 32 bits.
#[verifier::external_body]
fn ioctl_expr(dir: u32, ty: u32, nr: u32, size: u32) -> (code: u64)
    ensures
        code == ((dir << 30) | (ty << 8) | (nr << 0) | (size << 16)) as u64,
{
    vmm_sys_util::ioctl::ioctl_expr(dir, ty, nr, size)
}

/// The code of the iommufd command `cmd`: the type in the second byte, the command in the first,
/// and neither a direction nor a size.
pub open spec fn iommufd_code(cmd: u32) -> u64 {
    (IOMMUFD_TYPE * 0x100 + cmd) as u64
}

/// The code of the iommufd command `cmd`.
fn ioctl_io_nr(cmd: u32) -> (code: u64)
    requires
        cmd < 0x100,
    ensures
        code == iommufd_code(cmd),
{
    assert(((0u32 << 30) | (59u32 << 8) | (cmd << 0) | (0u32 << 16)) == 59 * 0x100 + cmd)
        by (bit_vector)
        requires
            cmd < 0x100,
    ;
    ioctl_expr(IOC_NONE, IOMMUFD_TYPE as u32, cmd, 0)
}

/// The code of the ioctl that destroys an object.
#[allow(non_snake_case)]
pub fn IOMMU_DESTROY() -> (code: u64)
    ensures
        code == iommufd_code(IOMMUFD_CMD_DESTROY),
{
    ioctl_io_nr(IOMMUFD_CMD_DESTROY)
}

/// The code of the ioctl that allocates an IO address space.
#[allow(non_snake_case)]
pub fn IOMMU_IOAS_ALLOC() -> (code: u64)
    ensures
        code == iommufd_code(IOMMUFD_CMD_IOAS_ALLOC),
{
    ioctl_io_nr(IOMMUFD_CMD_IOAS_ALLOC)
}

/// The code of the ioctl that maps memory into an IO address space.
#[allow(non_snake_case)]
pub fn IOMMU_IOAS_MAP() -> (code: u64)
    ensures
        code == iommufd_code(IOMMUFD_CMD_IOAS_MAP),
{
    ioctl_io_nr(IOMMUFD_CMD_IOAS_MAP)
}

/// The code of the ioctl that unmaps a range of an IO address space.
#[allow(non_snake_case)]
pub fn IOMMU_IOAS_UNMAP() -> (code: u64)
    ensures
        code == iommufd_code(IOMMUFD_CMD_IOAS_UNMAP),
{
    ioctl_io_nr(IOMMUFD_CMD_IOAS_UNMAP)
}

/// The code of the ioctl that allocates a hardware page table.
#[allow(non_snake_case)]
pub fn IOMMU_HWPT_ALLOC() -> (code: u64)
    ensures
        code == iommufd_code(IOMMUFD_CMD_HWPT_ALLOC),
{
    ioctl_io_nr(IOMMUFD_CMD_HWPT_ALLOC)
}

/// The code of the ioctl that reads hardware information.
#[allow(non_snake_case)]
pub fn IOMMUFD_GET_HW_INFO() -> (code: u64)
    ensures
        code == iommufd_code(IOMMUFD_CMD_GET_HW_INFO),
{
    ioctl_io_nr(IOMMUFD_CMD_GET_HW_INFO)
}

/// The code of the ioctl that invalidates cached translations.
#[allow(non_snake_case)]
pub fn IOMMUFD_HWPT_INVALIDATE() -> (code: u64)
    ensures
        code == iommufd_code(IOMMUFD_CMD_HWPT_INVALIDATE),
{
    ioctl_io_nr(IOMMUFD_CMD_HWPT_INVALIDATE)
}

/// The code of the ioctl that allocates a virtual IOMMU.
#[allow(non_snake_case)]
pub fn IOMMU_VIOMMU_ALLOC() -> (code: u64)
    ensures
        code == iommufd_code(IOMMUFD_CMD_VIOMMU_ALLOC),
{
    ioctl_io_nr(IOMMUFD_CMD_VIOMMU_ALLOC)
}

/// The code of the ioctl that allocates a virtual device.
#[allow(non_snake_case)]
pub fn IOMMU_VDEVICE_ALLOC() -> (code: u64)
    ensures
        code == iommufd_code(IOMMUFD_CMD_VDEVICE_ALLOC),
{
    ioctl_io_nr(IOMMUFD_CMD_VDEVICE_ALLOC)
}

/// An ioctl to be issued: `ioctl(fd, code, &arg)`.
///
/// Where `data` is `Some`, the memory at `arg.data_uptr` holds that value when the call is made.
#[derive(Debug, PartialEq, Eq)]
pub struct IoctlRequest<A, D> {
    pub fd: i32,
    pub code: u64,
    pub arg: A,
    pub data: Option<D>,
}

/// What came of an ioctl: the value that it returned, the `errno` that it left behind (of no
/// meaning unless `ret` is negative), and the argument and the data as the kernel left them.
#[derive(Debug, PartialEq, Eq)]
pub struct IoctlReply<A, D> {
    pub ret: i32,
    pub errno: i32,
    pub arg: A,
    pub data: Option<D>,
}

impl<A, D> IoctlReply<A, D> {
    /// What the reply says of the call: a negative return value is a failure, any other is a
    /// success.
    pub open spec fn outcome(self, error: IommufdError) -> Result<(), IommufdError> {
        if self.ret < 0 {
            Err(error)
        } else {
            Ok(())
        }
    }
}

/// The lowest byte of a code is the command and the next one the type, and there is nothing above.
pub proof fn law_code_bytes(cmd: u32)
    requires
        cmd < 0x100,
    ensures
        iommufd_code(cmd) % 0x100 == cmd,
        iommufd_code(cmd) / 0x100 == 0x3b,
{
}

/// Different commands have different codes, and a code fits in its two lowest bytes.
pub proof fn law_codes_are_distinct(a: u32, b: u32)
    requires
        a < 0x100,
        b < 0x100,
    ensures
        a != b ==> iommufd_code(a) != iommufd_code(b),
        iommufd_code(a) < 0x1_0000,
{
}

} // verus!

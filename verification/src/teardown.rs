//! The destruction of kernel objects that belong together.
use crate::error::IommufdError;
use crate::ioctl::{IoctlReply, IoctlRequest};
use crate::iommu_fd::IommuFd;
use crate::iommufd_syscall;
use crate::uapi::iommu_destroy;
use vstd::prelude::*;

verus! {

/// The kernel objects of a device that are still to be destroyed, by their ids, in the order in
/// which they are.
///
/// An object that cannot be destroyed ends the work: the list is gone, and nothing more is asked
/// for.
#[derive(Debug, PartialEq, Eq)]
pub struct Teardown {
    pub iommufd: IommuFd,
    pub ids: Vec<u32>,
}

/// What is left to destroy after the reply to the request for the first of `ids`, or the error
/// that ends the work.
pub open spec fn left_after(ids: Seq<u32>, reply: IoctlReply<iommu_destroy, ()>) -> Result<
    Seq<u32>,
    IommufdError,
> {
    match reply.outcome(IommufdError::IommuDestroy(reply.errno)) {
        Ok(()) => Ok(ids.drop_first()),
        Err(error) => Err(error),
    }
}

/// What is left to destroy, and the error in which the work has ended, if it has, after the
/// kernel has answered one destroy request after the other with `replies`.
pub open spec fn teardown_run(
    ids: Seq<u32>,
    replies: Seq<IoctlReply<iommu_destroy, ()>>,
) -> (Seq<u32>, Option<IommufdError>)
    decreases replies.len(),
{
    if ids.len() == 0 || replies.len() == 0 {
        (ids, None)
    } else {
        match left_after(ids, replies[0]) {
            Ok(left) => teardown_run(left, replies.drop_first()),
            Err(error) => (ids, Some(error)),
        }
    }
}

/// The requests that the kernel has answered with `replies`.
pub open spec fn teardown_requests(
    iommufd: IommuFd,
    ids: Seq<u32>,
    replies: Seq<IoctlReply<iommu_destroy, ()>>,
) -> Seq<IoctlRequest<iommu_destroy, ()>>
    decreases replies.len(),
{
    if ids.len() == 0 || replies.len() == 0 {
        seq![]
    } else {
        seq![iommufd.destroy_request(ids[0])] + match left_after(ids, replies[0]) {
            Ok(left) => teardown_requests(iommufd, left, replies.drop_first()),
            Err(_) => seq![],
        }
    }
}

/// The requests that destroy the objects `ids`, in their order.
pub open spec fn destroy_requests(iommufd: IommuFd, ids: Seq<u32>) -> Seq<
    IoctlRequest<iommu_destroy, ()>,
> {
    ids.map_values(|id: u32| iommufd.destroy_request(id))
}

impl Teardown {
    /// The request that destroys the next object, or `None` when all of them are destroyed.
    pub fn request(&self) -> (request: Option<IoctlRequest<iommu_destroy, ()>>)
        ensures
            request == if self.ids@.len() == 0 {
                None
            } else {
                Some(self.iommufd.destroy_request(self.ids@[0]))
            },
    {
        if self.ids.len() == 0 {
            None
        } else {
            Some(self.iommufd.destroy_iommufd(self.ids[0]))
        }
    }

    /// Takes the reply to the request for the next object. On success that object is off the
    /// list; a failure ends the work.
    pub fn destroyed(self, reply: &IoctlReply<iommu_destroy, ()>) -> (result: Result<
        Teardown,
        IommufdError,
    >)
        requires
            self.ids@.len() > 0,
        ensures
            match left_after(self.ids@, *reply) {
                Ok(left) => result matches Ok(teardown) && teardown.iommufd == self.iommufd
                    && teardown.ids@ == left,
                Err(error) => result == Err::<Teardown, IommufdError>(error),
            },
    {
        match iommufd_syscall::destroy_iommufd(reply) {
            Ok(()) => {
                let mut ids = self.ids;
                ids.remove(0);
                assert(ids@ =~= self.ids@.drop_first());
                Ok(Teardown { iommufd: self.iommufd, ids })
            },
            Err(error) => Err(error),
        }
    }
}

/// If the kernel destroys every object that it is asked to, each is asked for once, in order,
/// and nothing is left.
pub proof fn law_teardown_destroys_all(
    iommufd: IommuFd,
    ids: Seq<u32>,
    replies: Seq<IoctlReply<iommu_destroy, ()>>,
)
    requires
        replies.len() == ids.len(),
        forall|i: int| 0 <= i < replies.len() ==> (#[trigger] replies[i]).ret >= 0,
    ensures
        teardown_run(ids, replies) == (Seq::<u32>::empty(), None::<IommufdError>),
        teardown_requests(iommufd, ids, replies) == destroy_requests(iommufd, ids),
    decreases ids.len(),
{
    if ids.len() == 0 {
        assert(ids =~= Seq::<u32>::empty());
    } else {
        assert(replies[0].ret >= 0);
        assert forall|i: int| 0 <= i < replies.drop_first().len() implies (
        #[trigger] replies.drop_first()[i]).ret >= 0 by {
            assert(replies[i + 1].ret >= 0);
        }
        law_teardown_destroys_all(iommufd, ids.drop_first(), replies.drop_first());
    }
    assert(teardown_requests(iommufd, ids, replies) =~= destroy_requests(iommufd, ids));
}

/// The first object that the kernel does not destroy ends the work with the `errno` that it
/// left: the objects before it are destroyed, it is the last that is asked for, and it and those
/// after it are left, whatever replies follow.
pub proof fn law_teardown_stops_at_failure(
    iommufd: IommuFd,
    ids: Seq<u32>,
    replies: Seq<IoctlReply<iommu_destroy, ()>>,
    k: int,
)
    requires
        0 <= k < ids.len(),
        k < replies.len(),
        replies[k].ret < 0,
        forall|i: int| 0 <= i < k ==> (#[trigger] replies[i]).ret >= 0,
    ensures
        teardown_run(ids, replies) == (
            ids.skip(k),
            Some(IommufdError::IommuDestroy(replies[k].errno)),
        ),
        teardown_requests(iommufd, ids, replies) == destroy_requests(iommufd, ids.take(k + 1)),
    decreases k,
{
    if k == 0 {
        assert(ids.skip(0) =~= ids);
    } else {
        assert(replies[0].ret >= 0);
        assert forall|i: int| 0 <= i < k - 1 implies (
        #[trigger] replies.drop_first()[i]).ret >= 0 by {
            assert(replies[i + 1].ret >= 0);
        }
        law_teardown_stops_at_failure(iommufd, ids.drop_first(), replies.drop_first(), k - 1);
        assert(ids.drop_first().skip(k - 1) =~= ids.skip(k));
        assert(ids.drop_first().take(k) =~= ids.take(k + 1).drop_first());
    }
    assert(teardown_requests(iommufd, ids, replies) =~= destroy_requests(iommufd, ids.take(k + 1)));
}

} // verus!

//! What is asked for during the life of a vIOMMU, and what its replies mean, stated of every call.
use crate::error::IommufdError;
use crate::hardware::{detect_cmdqv_hardware, get_viommu_type, CmdqvProbe, ProbeStep};
use crate::ioctl::{IoctlReply, IoctlRequest};
use crate::iommu_fd::IommuFd;
use crate::teardown::Teardown;
use crate::uapi::{
    iommu_hwpt_alloc, iommu_hwpt_arm_smmuv3, iommu_hwpt_data_type, iommu_hwpt_invalidate,
    iommu_viommu_alloc, iommu_viommu_arm_smmuv3_invalidate, iommu_viommu_tegra241_cmdqv,
    IOMMUFD_CMD_HWPT_ALLOC, IOMMUFD_CMD_HWPT_INVALIDATE, IOMMUFD_CMD_VIOMMU_ALLOC,
    IOMMU_HWPT_ALLOC_NEST_PARENT, IOMMU_HWPT_ALLOC_SIZE, IOMMU_HWPT_ARM_SMMUV3_SIZE,
    IOMMU_HWPT_DATA_ARM_SMMUV3, IOMMU_HWPT_DATA_NONE, IOMMU_HWPT_INVALIDATE_SIZE,
    IOMMU_VIOMMU_ALLOC_SIZE, IOMMU_VIOMMU_ARM_SMMUV3_INVALIDATE_SIZE,
    IOMMU_VIOMMU_INVALIDATE_DATA_ARM_SMMUV3, IOMMU_VIOMMU_TEGRA241_CMDQV_SIZE,
    IOMMU_VIOMMU_TYPE_ARM_SMMUV3, IOMMU_VIOMMU_TYPE_TEGRA241_CMDQV,
};
use crate::viommu::{
    IommufdInvalidateData, IommufdVIommu, ViommuAction, ViommuBuffers, ViommuCreation, ViommuEvent,
    ViommuProgress, ViommuStage,
};
use std::sync::Arc;
use vstd::prelude::*;

verus! {

/// A creation starts if and only if the stage-1 data is that of an ARM SMMUv3, and starts with
/// what was asked for. The error names the data type that is not supported.
pub proof fn law_new_creation(
    iommufd: Arc<IommuFd>,
    ioas_id: u32,
    dev_id: u32,
    s1_hwpt_data_type: iommu_hwpt_data_type,
    result: Result<ViommuCreation, IommufdError>,
)
    requires
        call_ensures(IommufdVIommu::new, (iommufd, ioas_id, dev_id, s1_hwpt_data_type), result),
    ensures
        result is Ok <==> s1_hwpt_data_type == IOMMU_HWPT_DATA_ARM_SMMUV3,
        result matches Err(error) ==> error == IommufdError::UnsupportedS1HwptDataType(
            s1_hwpt_data_type,
        ),
        result matches Ok(creation) ==> {
            &&& creation.iommufd.fd == iommufd.fd
            &&& creation.ioas_id == ioas_id
            &&& creation.dev_id == dev_id
            &&& creation.s1_hwpt_data_type == s1_hwpt_data_type
            &&& creation.stage is S2Hwpt
        },
{
}

/// The first thing to be done is to allocate, for the device id of the creation, a page table on
/// its IO address space that can be the parent of nested ones. It comes without stage-1 data.
pub proof fn law_stage_2_is_asked_for(
    creation: ViommuCreation,
    buffers: ViommuBuffers,
    action: ViommuAction,
)
    requires
        creation.stage is S2Hwpt,
        call_ensures(ViommuCreation::action, (&creation, &buffers), action),
    ensures
        action matches ViommuAction::AllocHwpt(request) && {
            &&& request.fd == creation.iommufd.fd
            &&& request.code == 0x3b00 + IOMMUFD_CMD_HWPT_ALLOC
            &&& request.arg.size == IOMMU_HWPT_ALLOC_SIZE
            &&& request.arg.flags == IOMMU_HWPT_ALLOC_NEST_PARENT
            &&& request.arg.dev_id == creation.dev_id
            &&& request.arg.pt_id == creation.ioas_id
            &&& request.arg.data_type == IOMMU_HWPT_DATA_NONE
            &&& request.arg.data_len == 0
            &&& request.arg.data_uptr == 0
            &&& request.arg.out_hwpt_id == 0
            &&& request.arg.fault_id == 0
            &&& request.arg.__reserved == 0
            &&& request.arg.__reserved2 == 0
            &&& request.data is None
        },
{
}

/// While the hardware is looked for, the directory in which the search stands is to be listed.
pub proof fn law_directory_is_listed(
    creation: ViommuCreation,
    buffers: ViommuBuffers,
    action: ViommuAction,
)
    requires
        creation.stage is Hardware,
        call_ensures(ViommuCreation::action, (&creation, &buffers), action),
    ensures
        action matches ViommuAction::ListDirectory(probe) && probe
            == creation.stage->Hardware_probe,
{
}

/// The vIOMMU is asked for on the stage-2 page table, with the type that was found and for the
/// device id of the creation. One of the CMDQV type, and no other, gets a zeroed buffer for what
/// the kernel tells of its interface.
pub proof fn law_viommu_is_asked_for(
    creation: ViommuCreation,
    buffers: ViommuBuffers,
    action: ViommuAction,
)
    requires
        creation.stage is Viommu,
        call_ensures(ViommuCreation::action, (&creation, &buffers), action),
    ensures
        action matches ViommuAction::AllocViommu(request) && {
            &&& request.fd == creation.iommufd.fd
            &&& request.code == 0x3b00 + IOMMUFD_CMD_VIOMMU_ALLOC
            &&& request.arg.size == IOMMU_VIOMMU_ALLOC_SIZE
            &&& request.arg.flags == 0
            &&& request.arg.type_ == creation.stage->Viommu_viommu_type
            &&& request.arg.dev_id == creation.dev_id
            &&& request.arg.hwpt_id == creation.stage->Viommu_s2_hwpt_id
            &&& request.arg.out_viommu_id == 0
            &&& request.arg.__reserved == 0
            &&& request.data is Some <==> creation.stage->Viommu_viommu_type
                == IOMMU_VIOMMU_TYPE_TEGRA241_CMDQV
            &&& match request.data {
                Some(data) => {
                    &&& request.arg.data_len == IOMMU_VIOMMU_TEGRA241_CMDQV_SIZE
                    &&& request.arg.data_uptr == buffers.cmdqv_data
                    &&& data.out_vintf_mmap_offset == 0
                    &&& data.out_vintf_mmap_length == 0
                },
                None => request.arg.data_len == 0 && request.arg.data_uptr == 0,
            }
        },
{
}

/// The bypass page table and the abort page table are nested on the stage-2 page table, whatever
/// its id, and asked for with the device id and the data type of the creation. Both entries are
/// valid; that of the first lets the traffic bypass stage 1, that of the second aborts it.
pub proof fn law_nested_page_tables_are_asked_for(
    creation: ViommuCreation,
    buffers: ViommuBuffers,
    action: ViommuAction,
)
    requires
        creation.stage is BypassHwpt || creation.stage is AbortHwpt,
        call_ensures(ViommuCreation::action, (&creation, &buffers), action),
    ensures
        action matches ViommuAction::AllocHwpt(request) && {
            &&& request.fd == creation.iommufd.fd
            &&& request.code == 0x3b00 + IOMMUFD_CMD_HWPT_ALLOC
            &&& request.arg.size == IOMMU_HWPT_ALLOC_SIZE
            &&& request.arg.flags == 0
            &&& request.arg.dev_id == creation.dev_id
            &&& match creation.stage {
                ViommuStage::BypassHwpt { s2_hwpt_id, .. } => {
                    &&& request.arg.pt_id == s2_hwpt_id
                    &&& request.data matches Some(data) && data.ste@ == seq![9u64, 0u64]
                },
                ViommuStage::AbortHwpt { s2_hwpt_id, .. } => {
                    &&& request.arg.pt_id == s2_hwpt_id
                    &&& request.data matches Some(data) && data.ste@ == seq![1u64, 0u64]
                },
                _ => false,
            }
            &&& request.arg.data_type == creation.s1_hwpt_data_type
            &&& request.arg.data_len == IOMMU_HWPT_ARM_SMMUV3_SIZE
            &&& request.arg.data_uptr == buffers.s1_hwpt_data
            &&& request.arg.out_hwpt_id == 0
            &&& request.arg.fault_id == 0
            &&& request.arg.__reserved == 0
            &&& request.arg.__reserved2 == 0
        },
{
    assert((1u64 << 3) | (1u64 << 0) == 9u64) by (bit_vector);
    assert(1u64 << 0 == 1u64) by (bit_vector);
    if let ViommuAction::AllocHwpt(request) = action {
        if creation.stage is BypassHwpt {
            assert(request.data->0.ste@ =~= seq![9u64, 0u64]);
        } else {
            assert(request.data->0.ste@ =~= seq![1u64, 0u64]);
        }
    }
}

/// No answer changes what a creation was asked for: its device, its IO address space, its device
/// id and its data type.
pub proof fn law_advance_keeps_the_parameters(
    creation: ViommuCreation,
    event: ViommuEvent,
    progress: ViommuProgress,
)
    requires
        call_ensures(ViommuCreation::advance, (creation, event), progress),
    ensures
        match progress {
            ViommuProgress::Pending(next) => {
                &&& next.iommufd.fd == creation.iommufd.fd
                &&& next.ioas_id == creation.ioas_id
                &&& next.dev_id == creation.dev_id
                &&& next.s1_hwpt_data_type == creation.s1_hwpt_data_type
            },
            ViommuProgress::Finished(Ok(viommu)) => {
                &&& viommu.iommufd.fd == creation.iommufd.fd
                &&& viommu.dev_id == creation.dev_id
            },
            ViommuProgress::Finished(Err(_)) => true,
        },
{
}

/// A failed ioctl ends the creation in the error of that ioctl, with its `errno`, at whichever
/// stage it was asked for. The search for the hardware, and what was not asked for, never does.
pub proof fn law_failure_ends_the_creation(
    creation: ViommuCreation,
    event: ViommuEvent,
    progress: ViommuProgress,
)
    requires
        call_ensures(ViommuCreation::advance, (creation, event), progress),
    ensures
        match (creation.stage, event) {
            (ViommuStage::Hardware { .. }, _) => progress is Pending,
            (ViommuStage::Viommu { .. }, ViommuEvent::ViommuAllocated(reply)) => reply.ret < 0
                ==> progress == ViommuProgress::Finished(
                Err(IommufdError::IommuViommuAlloc(reply.errno)),
            ),
            (ViommuStage::Viommu { .. }, _) => progress is Pending,
            (_, ViommuEvent::HwptAllocated(reply)) => reply.ret < 0 ==> progress
                == ViommuProgress::Finished(Err(IommufdError::IommuHwptAlloc(reply.errno))),
            _ => progress is Pending,
        },
{
}

/// The id that the kernel gives out for each object is the one that the creation goes on with,
/// next to those that it has already: first the stage-2 page table, after which the search for
/// the hardware starts; then the vIOMMU, the bypass page table and the abort page table, with
/// which the vIOMMU is complete.
pub proof fn law_granted_ids_are_kept(
    creation: ViommuCreation,
    event: ViommuEvent,
    progress: ViommuProgress,
)
    requires
        call_ensures(ViommuCreation::advance, (creation, event), progress),
        match event {
            ViommuEvent::HwptAllocated(reply) => reply.ret >= 0,
            ViommuEvent::ViommuAllocated(reply) => reply.ret >= 0,
            ViommuEvent::DirectoryListed(_) => false,
        },
    ensures
        match (creation.stage, event) {
            (ViommuStage::S2Hwpt, ViommuEvent::HwptAllocated(reply)) => {
                &&& progress matches ViommuProgress::Pending(next)
                &&& next.stage matches ViommuStage::Hardware { s2_hwpt_id, probe }
                &&& s2_hwpt_id == reply.arg.out_hwpt_id
                &&& probe is AcpiDevices
            },
            (ViommuStage::Viommu { s2_hwpt_id: s2, .. }, ViommuEvent::ViommuAllocated(reply)) => {
                &&& progress matches ViommuProgress::Pending(next)
                &&& next.stage matches ViommuStage::BypassHwpt { s2_hwpt_id, viommu_id }
                &&& s2_hwpt_id == s2
                &&& viommu_id == reply.arg.out_viommu_id
            },
            (
                ViommuStage::BypassHwpt { s2_hwpt_id: s2, viommu_id: viommu },
                ViommuEvent::HwptAllocated(reply),
            ) => {
                &&& progress matches ViommuProgress::Pending(next)
                &&& next.stage matches ViommuStage::AbortHwpt {
                    s2_hwpt_id,
                    viommu_id,
                    bypass_hwpt_id,
                }
                &&& s2_hwpt_id == s2
                &&& viommu_id == viommu
                &&& bypass_hwpt_id == reply.arg.out_hwpt_id
            },
            (
                ViommuStage::AbortHwpt { s2_hwpt_id, viommu_id, bypass_hwpt_id },
                ViommuEvent::HwptAllocated(reply),
            ) => {
                &&& progress matches ViommuProgress::Finished(Ok(viommu))
                &&& viommu.s2_hwpt_id == s2_hwpt_id
                &&& viommu.viommu_id == viommu_id
                &&& viommu.bypass_hwpt_id == bypass_hwpt_id
                &&& viommu.abort_hwpt_id == reply.arg.out_hwpt_id
                &&& viommu.dev_id == creation.dev_id
                &&& viommu.iommufd.fd == creation.iommufd.fd
            },
            _ => true,
        },
{
}

/// The creation follows the search for the hardware: it lists the directory that the search
/// wants listed, and when the search has ended it goes on with the type that belongs to what was
/// found. The stage-2 page table stays.
pub proof fn law_creation_follows_the_search(
    creation: ViommuCreation,
    listing: Option<Vec<String>>,
    step: ProbeStep,
    found_type: u32,
    progress: ViommuProgress,
)
    requires
        creation.stage is Hardware,
        call_ensures(detect_cmdqv_hardware, (creation.stage->Hardware_probe, &listing), step),
        step matches ProbeStep::Detected(found) ==> call_ensures(
            get_viommu_type,
            (found,),
            found_type,
        ),
        call_ensures(
            ViommuCreation::advance,
            (creation, ViommuEvent::DirectoryListed(listing)),
            progress,
        ),
    ensures
        progress matches ViommuProgress::Pending(next) && match step {
            ProbeStep::List(wanted) => {
                &&& next.stage matches ViommuStage::Hardware { s2_hwpt_id, probe }
                &&& s2_hwpt_id == creation.stage->Hardware_s2_hwpt_id
                &&& probe == wanted
            },
            ProbeStep::Detected(_) => {
                &&& next.stage matches ViommuStage::Viommu { s2_hwpt_id, viommu_type }
                &&& s2_hwpt_id == creation.stage->Hardware_s2_hwpt_id
                &&& viommu_type == found_type
            },
        },
{
}

/// If one of the ACPI devices, wherever in the listing, has a name that begins with `NVDA200C`,
/// the next thing to be done is to allocate a vIOMMU of the CMDQV type, on the stage-2 page table
/// that the kernel gave out.
pub proof fn law_acpi_hardware_gets_a_cmdqv_viommu(
    creation: ViommuCreation,
    names: Vec<String>,
    i: int,
    next: ViommuCreation,
    buffers: ViommuBuffers,
    action: ViommuAction,
)
    requires
        creation.stage is Hardware,
        creation.stage->Hardware_probe is AcpiDevices,
        0 <= i < names@.len(),
        crate::hardware::begins_with_nvda200c(names@[i]@),
        call_ensures(
            ViommuCreation::advance,
            (creation, ViommuEvent::DirectoryListed(Some(names))),
            ViommuProgress::Pending(next),
        ),
        call_ensures(ViommuCreation::action, (&next, &buffers), action),
    ensures
        action matches ViommuAction::AllocViommu(request) && {
            &&& request.arg.type_ == IOMMU_VIOMMU_TYPE_TEGRA241_CMDQV
            &&& request.arg.hwpt_id == creation.stage->Hardware_s2_hwpt_id
        },
{
    crate::hardware::lemma_acpi_name(names@[i]@);
    assert(CmdqvProbe::AcpiDevices.is_cmdqv(names@[i]@));
}

/// If one of the platform devices, wherever in the listing, has `cmdqv` somewhere in its name,
/// the next thing to be done is to allocate a vIOMMU of the CMDQV type, on the stage-2 page table
/// that the kernel gave out. If none has, it is to allocate one of the plain SMMUv3 type.
pub proof fn law_platform_hardware_decides_the_type(
    creation: ViommuCreation,
    names: Vec<String>,
    next: ViommuCreation,
    buffers: ViommuBuffers,
    action: ViommuAction,
)
    requires
        creation.stage is Hardware,
        creation.stage->Hardware_probe is PlatformDevices,
        call_ensures(
            ViommuCreation::advance,
            (creation, ViommuEvent::DirectoryListed(Some(names))),
            ViommuProgress::Pending(next),
        ),
        call_ensures(ViommuCreation::action, (&next, &buffers), action),
    ensures
        action matches ViommuAction::AllocViommu(request) && {
            &&& request.arg.hwpt_id == creation.stage->Hardware_s2_hwpt_id
            &&& forall|i: int, k: int|
                0 <= i < names@.len() && #[trigger] crate::hardware::holds_cmdqv_at(names@[i]@, k)
                    ==> request.arg.type_ == IOMMU_VIOMMU_TYPE_TEGRA241_CMDQV
            &&& (forall|i: int, k: int|
                0 <= i < names@.len() ==> !#[trigger] crate::hardware::holds_cmdqv_at(
                    names@[i]@,
                    k,
                )) ==> request.arg.type_ == IOMMU_VIOMMU_TYPE_ARM_SMMUV3
        },
{
    assert forall|i: int| 0 <= i < names@.len() implies (
    CmdqvProbe::PlatformDevices.is_cmdqv(#[trigger] names@[i]@) <==> exists|k: int|
        crate::hardware::holds_cmdqv_at(names@[i]@, k)) by {
        crate::hardware::lemma_platform_name(names@[i]@);
    }
}

/// What happens to a creation that is not the answer to what it asks for leaves it as it is.
pub proof fn law_other_events_change_nothing(
    creation: ViommuCreation,
    event: ViommuEvent,
    progress: ViommuProgress,
)
    requires
        call_ensures(ViommuCreation::advance, (creation, event), progress),
        match creation.stage {
            ViommuStage::Hardware { .. } => !(event is DirectoryListed),
            ViommuStage::Viommu { .. } => !(event is ViommuAllocated),
            _ => !(event is HwptAllocated),
        },
    ensures
        progress == ViommuProgress::Pending(creation),
{
}

/// The stage-2 page table that a creation goes on with.
proof fn lemma_stage_2_stays(creation: ViommuCreation, events: Seq<ViommuEvent>, s2: u32)
    requires
        match creation.stage {
            ViommuStage::S2Hwpt => false,
            ViommuStage::Hardware { s2_hwpt_id, .. } => s2_hwpt_id == s2,
            ViommuStage::Viommu { s2_hwpt_id, .. } => s2_hwpt_id == s2,
            ViommuStage::BypassHwpt { s2_hwpt_id, .. } => s2_hwpt_id == s2,
            ViommuStage::AbortHwpt { s2_hwpt_id, .. } => s2_hwpt_id == s2,
        },
    ensures
        match crate::lifecycle::creation_run(ViommuProgress::Pending(creation), events) {
            ViommuProgress::Pending(next) => match next.stage {
                ViommuStage::S2Hwpt => false,
                ViommuStage::Hardware { s2_hwpt_id, .. } => s2_hwpt_id == s2,
                ViommuStage::Viommu { s2_hwpt_id, .. } => s2_hwpt_id == s2,
                ViommuStage::BypassHwpt { s2_hwpt_id, .. } => s2_hwpt_id == s2,
                ViommuStage::AbortHwpt { s2_hwpt_id, .. } => s2_hwpt_id == s2,
            },
            ViommuProgress::Finished(Ok(viommu)) => viommu.s2_hwpt_id == s2,
            ViommuProgress::Finished(Err(_)) => true,
        },
    decreases events.len(),
{
    reveal_with_fuel(crate::lifecycle::creation_run, 2);
    if events.len() > 0 {
        if let ViommuProgress::Pending(next) = creation.after(events[0]) {
            lemma_stage_2_stays(next, events.drop_first(), s2);
        }
    }
}

/// Everything that a creation asks for after the stage-2 page table is built on the page table
/// that the kernel gave out then, whatever happens in between, and so is the vIOMMU in the end.
pub proof fn law_everything_is_built_on_stage_2(
    creation: ViommuCreation,
    s2: IoctlReply<iommu_hwpt_alloc, iommu_hwpt_arm_smmuv3>,
    events: Seq<ViommuEvent>,
    buffers: ViommuBuffers,
)
    requires
        creation.stage is S2Hwpt,
        s2.ret >= 0,
    ensures
        match crate::lifecycle::creation_run(
            ViommuProgress::Pending(creation),
            seq![ViommuEvent::HwptAllocated(s2)] + events,
        ) {
            ViommuProgress::Pending(next) => match next.pending_action(buffers) {
                ViommuAction::AllocHwpt(request) => {
                    &&& request.arg.pt_id == s2.arg.out_hwpt_id
                    &&& request.arg.flags == 0
                    &&& request.arg.dev_id == creation.dev_id
                    &&& request.data is Some
                },
                ViommuAction::AllocViommu(request) => {
                    &&& request.arg.hwpt_id == s2.arg.out_hwpt_id
                    &&& request.arg.dev_id == creation.dev_id
                },
                ViommuAction::ListDirectory(_) => true,
            },
            ViommuProgress::Finished(Ok(viommu)) => viommu.s2_hwpt_id == s2.arg.out_hwpt_id,
            ViommuProgress::Finished(Err(_)) => true,
        },
{
    reveal_with_fuel(crate::lifecycle::creation_run, 2);
    let all = seq![ViommuEvent::HwptAllocated(s2)] + events;
    assert(all[0] == ViommuEvent::HwptAllocated(s2));
    assert(all.drop_first() =~= events);
    crate::lifecycle::law_creation_keeps_its_parameters(creation, all);
    if let ViommuProgress::Pending(next) = creation.after(all[0]) {
        lemma_stage_2_stays(next, events, s2.arg.out_hwpt_id);
    }
}

/// An invalidation hands the kernel exactly the command that it was given, both words of it, as
/// one entry, and names the vIOMMU.
pub proof fn law_invalidation_hands_on_the_command(
    viommu: IommufdVIommu,
    cmd: iommu_viommu_arm_smmuv3_invalidate,
    data_uptr: u64,
    request: IoctlRequest<iommu_hwpt_invalidate, iommu_viommu_arm_smmuv3_invalidate>,
)
    requires
        call_ensures(
            IommufdVIommu::invalidate_hwpt,
            (&viommu, &IommufdInvalidateData::Smmuv3(cmd), data_uptr),
            request,
        ),
    ensures
        request.fd == viommu.iommufd.fd,
        request.code == 0x3b00 + IOMMUFD_CMD_HWPT_INVALIDATE,
        request.arg.size == IOMMU_HWPT_INVALIDATE_SIZE,
        request.arg.hwpt_id == viommu.viommu_id,
        request.arg.data_uptr == data_uptr,
        request.arg.data_type == IOMMU_VIOMMU_INVALIDATE_DATA_ARM_SMMUV3,
        request.arg.entry_len == IOMMU_VIOMMU_ARM_SMMUV3_INVALIDATE_SIZE,
        request.arg.entry_num == 1,
        request.arg.__reserved == 0,
        request.data matches Some(data) && data.cmd@[0] == cmd.cmd@[0] && data.cmd@[1]
            == cmd.cmd@[1],
{
}

/// An invalidation that the kernel does not refuse was done if and only if the kernel says that
/// it has handled exactly one entry. One that it refuses is an error with the `errno`. The
/// command becomes what the kernel left of it.
pub proof fn law_invalidation_tells_whether_it_was_done(
    cmd: &mut IommufdInvalidateData,
    reply: IoctlReply<iommu_hwpt_invalidate, iommu_viommu_arm_smmuv3_invalidate>,
    result: Result<bool, IommufdError>,
)
    requires
        *old(cmd) is Smmuv3,
        call_ensures(IommufdVIommu::hwpt_invalidated, (cmd, &reply), result),
    ensures
        result is Ok <==> reply.ret >= 0,
        result matches Ok(done) ==> (done <==> reply.arg.entry_num == 1),
        result matches Err(error) ==> error == IommufdError::IommuHwptInvalidate(reply.errno),
        reply.data is None ==> *final(cmd) == *old(cmd),
        reply.data matches Some(data) ==> *final(cmd) is Smmuv3 && final(cmd)->Smmuv3_0 == data,
{
}

/// A vIOMMU is taken down on its own device: first the vIOMMU itself, then the stage-2 page
/// table, the bypass page table and the abort page table, and nothing else.
pub proof fn law_viommu_teardown_order(viommu: IommufdVIommu, teardown: Teardown)
    requires
        call_ensures(IommufdVIommu::teardown, (&viommu,), teardown),
    ensures
        teardown.iommufd.fd == viommu.iommufd.fd,
        teardown.ids@.len() == 4,
        teardown.ids@[0] == viommu.viommu_id,
        teardown.ids@[1] == viommu.s2_hwpt_id,
        teardown.ids@[2] == viommu.bypass_hwpt_id,
        teardown.ids@[3] == viommu.abort_hwpt_id,
{
}

} // verus!

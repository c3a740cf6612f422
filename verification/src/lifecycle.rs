//! What holds of the life of vIOMMUs and vDevices as a whole.
use crate::error::IommufdError;
use crate::hardware::CmdqvProbe;
use crate::ioctl::{IoctlReply, IoctlRequest};
use crate::uapi::{
    iommu_destroy, iommu_hwpt_alloc, iommu_hwpt_arm_smmuv3, iommu_vdevice_alloc,
    iommu_viommu_alloc, iommu_viommu_tegra241_cmdqv, IOMMU_HWPT_ARM_SMMUV3_SIZE,
    IOMMU_HWPT_DATA_ARM_SMMUV3, IOMMU_HWPT_DATA_NONE, IOMMU_VIOMMU_TEGRA241_CMDQV_SIZE,
    IOMMU_VIOMMU_TYPE_TEGRA241_CMDQV,
};
use crate::vdevice::{IommufdHwptData, IommufdVDevice, S1Destruction, VdeviceCreation};
use crate::viommu::{
    IommufdVIommu, ViommuAction, ViommuBuffers, ViommuCreation, ViommuEvent, ViommuProgress,
    ViommuStage,
};
use vstd::multiset::Multiset;
use vstd::prelude::*;

verus! {

/// What a sequence of events makes of a creation.
pub open spec fn creation_run(progress: ViommuProgress, events: Seq<ViommuEvent>) -> ViommuProgress
    decreases events.len(),
{
    match progress {
        ViommuProgress::Pending(creation) if events.len() > 0 => creation_run(
            creation.after(events[0]),
            events.drop_first(),
        ),
        _ => progress,
    }
}

/// What is done during a creation to which a sequence of events happens: one action before each
/// event, until the creation has finished.
pub open spec fn creation_actions(
    progress: ViommuProgress,
    events: Seq<ViommuEvent>,
    buffers: ViommuBuffers,
) -> Seq<ViommuAction>
    decreases events.len(),
{
    match progress {
        ViommuProgress::Pending(creation) if events.len() > 0 => seq![
            creation.pending_action(buffers),
        ] + creation_actions(creation.after(events[0]), events.drop_first(), buffers),
        _ => seq![],
    }
}

/// Each of the events is the answer to what is to be done next, until the creation has finished.
pub open spec fn answers(progress: ViommuProgress, events: Seq<ViommuEvent>) -> bool
    decreases events.len(),
{
    match progress {
        ViommuProgress::Pending(creation) if events.len() > 0 => {
            &&& creation.expects(events[0])
            &&& answers(creation.after(events[0]), events.drop_first())
        },
        _ => true,
    }
}

/// The error that an event reports: that of a failed ioctl.
pub open spec fn event_error(event: ViommuEvent) -> Option<IommufdError> {
    match event {
        ViommuEvent::HwptAllocated(reply) if reply.ret < 0 => Some(
            IommufdError::IommuHwptAlloc(reply.errno),
        ),
        ViommuEvent::ViommuAllocated(reply) if reply.ret < 0 => Some(
            IommufdError::IommuViommuAlloc(reply.errno),
        ),
        _ => None,
    }
}

/// The id of the kernel object that an event reports to be allocated.
pub open spec fn event_object(event: ViommuEvent) -> Option<u32> {
    match event {
        ViommuEvent::HwptAllocated(reply) if reply.ret >= 0 => Some(reply.arg.out_hwpt_id),
        ViommuEvent::ViommuAllocated(reply) if reply.ret >= 0 => Some(reply.arg.out_viommu_id),
        _ => None,
    }
}

/// The ids of the objects that requests destroy.
pub open spec fn requested_ids(requests: Seq<IoctlRequest<iommu_destroy, ()>>) -> Seq<u32> {
    requests.map_values(|request: IoctlRequest<iommu_destroy, ()>| request.arg.id)
}

/// The ids of the kernel objects that the events report to be allocated, until the creation has
/// finished.
pub open spec fn objects_given(progress: ViommuProgress, events: Seq<ViommuEvent>) -> Multiset<u32>
    decreases events.len(),
{
    match progress {
        ViommuProgress::Pending(creation) if events.len() > 0 => {
            let later = objects_given(creation.after(events[0]), events.drop_first());
            match event_object(events[0]) {
                Some(id) => later.insert(id),
                None => later,
            }
        },
        _ => Multiset::empty(),
    }
}

/// The ids of the kernel objects that a creation has been given so far.
pub open spec fn given_objects(stage: ViommuStage) -> Multiset<u32> {
    match stage {
        ViommuStage::S2Hwpt => Multiset::empty(),
        ViommuStage::Hardware { s2_hwpt_id, .. } => Multiset::empty().insert(s2_hwpt_id),
        ViommuStage::Viommu { s2_hwpt_id, .. } => Multiset::empty().insert(s2_hwpt_id),
        ViommuStage::BypassHwpt { s2_hwpt_id, viommu_id } => Multiset::empty().insert(
            s2_hwpt_id,
        ).insert(viommu_id),
        ViommuStage::AbortHwpt { s2_hwpt_id, viommu_id, bypass_hwpt_id } => Multiset::empty().insert(
            s2_hwpt_id,
        ).insert(viommu_id).insert(bypass_hwpt_id),
    }
}

/// How many answers a creation needs at most before it has finished.
pub open spec fn answers_left(stage: ViommuStage) -> nat {
    match stage {
        ViommuStage::S2Hwpt => 6,
        ViommuStage::Hardware { probe: CmdqvProbe::AcpiDevices, .. } => 5,
        ViommuStage::Hardware { probe: CmdqvProbe::PlatformDevices, .. } => 4,
        ViommuStage::Viommu { .. } => 3,
        ViommuStage::BypassHwpt { .. } => 2,
        ViommuStage::AbortHwpt { .. } => 1,
    }
}

/// If the kernel grants every request, the creation of a vIOMMU makes these requests in this
/// order, and ends in the vIOMMU that has the ids that the kernel gave out: the stage-2 page
/// table on the IO address space; a look at the ACPI devices, and, if they show nothing, at the
/// platform devices; the vIOMMU on the stage-2 page table, of the type that the hardware has;
/// and on the stage-2 page table the bypass and the abort page table.
pub proof fn law_creation_succeeds(
    creation: ViommuCreation,
    buffers: ViommuBuffers,
    s2: IoctlReply<iommu_hwpt_alloc, iommu_hwpt_arm_smmuv3>,
    acpi: Option<Vec<String>>,
    platform: Option<Vec<String>>,
    viommu: IoctlReply<iommu_viommu_alloc, iommu_viommu_tegra241_cmdqv>,
    bypass: IoctlReply<iommu_hwpt_alloc, iommu_hwpt_arm_smmuv3>,
    abort: IoctlReply<iommu_hwpt_alloc, iommu_hwpt_arm_smmuv3>,
)
    requires
        creation.stage == ViommuStage::S2Hwpt,
        s2.ret >= 0,
        viommu.ret >= 0,
        bypass.ret >= 0,
        abort.ret >= 0,
    ensures
        ({
            let in_acpi = CmdqvProbe::AcpiDevices.shows_in(acpi);
            let in_platform = CmdqvProbe::PlatformDevices.shows_in(platform);
            let listed = if in_acpi {
                seq![ViommuEvent::DirectoryListed(acpi)]
            } else {
                seq![ViommuEvent::DirectoryListed(acpi), ViommuEvent::DirectoryListed(platform)]
            };
            let looked = if in_acpi {
                seq![ViommuAction::ListDirectory(CmdqvProbe::AcpiDevices)]
            } else {
                seq![
                    ViommuAction::ListDirectory(CmdqvProbe::AcpiDevices),
                    ViommuAction::ListDirectory(CmdqvProbe::PlatformDevices),
                ]
            };
            let events = seq![ViommuEvent::HwptAllocated(s2)] + listed + seq![
                ViommuEvent::ViommuAllocated(viommu),
                ViommuEvent::HwptAllocated(bypass),
                ViommuEvent::HwptAllocated(abort),
            ];
            let s2_hwpt_id = s2.arg.out_hwpt_id;
            let viommu_type = crate::hardware::viommu_type_for(in_acpi || in_platform);
            let start = ViommuProgress::Pending(creation);
            &&& creation_run(start, events) == ViommuProgress::Finished(
                Ok(
                    IommufdVIommu {
                        iommufd: creation.iommufd,
                        viommu_id: viommu.arg.out_viommu_id,
                        dev_id: creation.dev_id,
                        s2_hwpt_id,
                        bypass_hwpt_id: bypass.arg.out_hwpt_id,
                        abort_hwpt_id: abort.arg.out_hwpt_id,
                    },
                ),
            )
            &&& creation_actions(start, events, buffers) == seq![
                ViommuAction::AllocHwpt(creation.s2_hwpt_request()),
            ] + looked + seq![
                ViommuAction::AllocViommu(
                    creation.viommu_request(s2_hwpt_id, viommu_type, buffers),
                ),
                ViommuAction::AllocHwpt(
                    creation.nested_hwpt_request(
                        s2_hwpt_id,
                        crate::viommu::bypass_ste(),
                        buffers,
                    ),
                ),
                ViommuAction::AllocHwpt(
                    creation.nested_hwpt_request(
                        s2_hwpt_id,
                        crate::viommu::abort_ste(),
                        buffers,
                    ),
                ),
            ]
        }),
{
    reveal_with_fuel(creation_run, 7);
    reveal_with_fuel(creation_actions, 7);
    let in_acpi = CmdqvProbe::AcpiDevices.shows_in(acpi);
    let listed = if in_acpi {
        seq![ViommuEvent::DirectoryListed(acpi)]
    } else {
        seq![ViommuEvent::DirectoryListed(acpi), ViommuEvent::DirectoryListed(platform)]
    };
    let tail = seq![
        ViommuEvent::ViommuAllocated(viommu),
        ViommuEvent::HwptAllocated(bypass),
        ViommuEvent::HwptAllocated(abort),
    ];
    let events = seq![ViommuEvent::HwptAllocated(s2)] + listed + tail;
    assert(events.drop_first() =~= listed + tail);
    if in_acpi {
        assert((listed + tail).drop_first() =~= tail);
    } else {
        assert((listed + tail).drop_first().drop_first() =~= tail);
    }
}

/// An answer ends a creation in an error if and only if it reports a failed ioctl, and then in
/// the error of that ioctl. Nothing is done after that, whatever happens.
pub proof fn law_creation_stops_at_failure(
    creation: ViommuCreation,
    event: ViommuEvent,
    later: Seq<ViommuEvent>,
    buffers: ViommuBuffers,
)
    requires
        creation.expects(event),
    ensures
        ({
            let start = ViommuProgress::Pending(creation);
            let events = seq![event] + later;
            match event_error(event) {
                Some(error) => {
                    &&& creation_run(start, events) == ViommuProgress::Finished(Err(error))
                    &&& creation_actions(start, events, buffers) == seq![
                        creation.pending_action(buffers),
                    ]
                },
                None => match creation.after(event) {
                    ViommuProgress::Pending(_) => true,
                    ViommuProgress::Finished(result) => result is Ok,
                },
            }
        }),
{
    reveal_with_fuel(creation_run, 2);
    reveal_with_fuel(creation_actions, 2);
    assert((seq![event] + later)[0] == event);
}

/// No sequence of events changes what the vIOMMU was asked for, and a well-formed creation stays
/// well-formed.
pub proof fn law_creation_keeps_its_parameters(creation: ViommuCreation, events: Seq<ViommuEvent>)
    ensures
        match creation_run(ViommuProgress::Pending(creation), events) {
            ViommuProgress::Pending(next) => {
                &&& next.iommufd == creation.iommufd
                &&& next.ioas_id == creation.ioas_id
                &&& next.dev_id == creation.dev_id
                &&& next.s1_hwpt_data_type == creation.s1_hwpt_data_type
                &&& creation.well_formed() ==> next.well_formed()
            },
            ViommuProgress::Finished(Ok(viommu)) => {
                &&& viommu.iommufd == creation.iommufd
                &&& viommu.dev_id == creation.dev_id
            },
            ViommuProgress::Finished(Err(_)) => true,
        },
    decreases events.len(),
{
    reveal_with_fuel(creation_run, 2);
    if events.len() > 0 {
        if let ViommuProgress::Pending(next) = creation.after(events[0]) {
            law_creation_keeps_its_parameters(next, events.drop_first());
        }
    }
}

/// A creation that is given the answers that it asks for finishes, after six of them at most.
pub proof fn law_creation_terminates(creation: ViommuCreation, events: Seq<ViommuEvent>)
    requires
        answers(ViommuProgress::Pending(creation), events),
        events.len() >= answers_left(creation.stage),
    ensures
        creation_run(ViommuProgress::Pending(creation), events) is Finished,
        answers_left(creation.stage) <= 6,
    decreases events.len(),
{
    reveal_with_fuel(creation_run, 2);
    match creation.after(events[0]) {
        ViommuProgress::Pending(next) => {
            law_creation_terminates(next, events.drop_first());
        },
        ViommuProgress::Finished(_) => {},
    }
}

/// An answer adds the object that it reports to those that the creation has been given, and a
/// finished vIOMMU has all of them.
proof fn lemma_answer_adds_its_object(creation: ViommuCreation, event: ViommuEvent)
    requires
        creation.expects(event),
    ensures
        ({
            let given = match event_object(event) {
                Some(id) => given_objects(creation.stage).insert(id),
                None => given_objects(creation.stage),
            };
            match creation.after(event) {
                ViommuProgress::Pending(next) => given_objects(next.stage) == given,
                ViommuProgress::Finished(Ok(viommu)) => viommu.objects().to_multiset() == given,
                ViommuProgress::Finished(Err(_)) => true,
            }
        }),
{
    broadcast use vstd::seq_lib::group_to_multiset_ensures;

    if let ViommuProgress::Finished(Ok(viommu)) = creation.after(event) {
        let objects = Seq::<u32>::empty().push(viommu.viommu_id).push(viommu.s2_hwpt_id).push(
            viommu.bypass_hwpt_id,
        ).push(viommu.abort_hwpt_id);
        assert(viommu.objects() =~= objects);
        assert(objects.to_multiset() =~= given_objects(creation.stage).insert(
            viommu.abort_hwpt_id,
        ));
    }
}

/// A creation at any stage ends in a vIOMMU that has what was given before and what is given
/// from there on.
proof fn lemma_creation_keeps_objects(
    creation: ViommuCreation,
    events: Seq<ViommuEvent>,
    viommu: IommufdVIommu,
)
    requires
        answers(ViommuProgress::Pending(creation), events),
        creation_run(ViommuProgress::Pending(creation), events) == ViommuProgress::Finished(
            Ok(viommu),
        ),
    ensures
        viommu.objects().to_multiset() == given_objects(creation.stage).add(
            objects_given(ViommuProgress::Pending(creation), events),
        ),
    decreases events.len(),
{
    reveal_with_fuel(creation_run, 2);
    reveal_with_fuel(objects_given, 2);
    lemma_answer_adds_its_object(creation, events[0]);
    let next = creation.after(events[0]);
    if let ViommuProgress::Pending(next) = next {
        lemma_creation_keeps_objects(next, events.drop_first(), viommu);
    }
    let later = objects_given(next, events.drop_first());
    if let Some(id) = event_object(events[0]) {
        assert(given_objects(creation.stage).insert(id).add(later) =~= given_objects(
            creation.stage,
        ).add(later.insert(id)));
    }
    assert(viommu.objects().to_multiset() =~= given_objects(creation.stage).add(
        objects_given(ViommuProgress::Pending(creation), events),
    ));
}

/// A creation loses no kernel object and makes none up: what a finished vIOMMU destroys when it
/// is dropped are the objects that the kernel gave out during its creation, each once.
pub proof fn law_teardown_undoes_creation(
    creation: ViommuCreation,
    events: Seq<ViommuEvent>,
    viommu: IommufdVIommu,
)
    requires
        creation.stage == ViommuStage::S2Hwpt,
        answers(ViommuProgress::Pending(creation), events),
        creation_run(ViommuProgress::Pending(creation), events) == ViommuProgress::Finished(
            Ok(viommu),
        ),
    ensures
        viommu.objects().to_multiset() == objects_given(ViommuProgress::Pending(creation), events),
{
    lemma_creation_keeps_objects(creation, events, viommu);
    assert(viommu.objects().to_multiset() =~= objects_given(
        ViommuProgress::Pending(creation),
        events,
    ));
}

/// Over the life of a vIOMMU, from its creation to the drop, each id that the kernel gave out
/// for it is destroyed exactly once, on the device that it was created on, if the kernel grants
/// what the drop asks for.
pub proof fn law_viommu_life(
    creation: ViommuCreation,
    events: Seq<ViommuEvent>,
    viommu: IommufdVIommu,
    dropped: Seq<IoctlReply<iommu_destroy, ()>>,
)
    requires
        creation.stage == ViommuStage::S2Hwpt,
        answers(ViommuProgress::Pending(creation), events),
        creation_run(ViommuProgress::Pending(creation), events) == ViommuProgress::Finished(
            Ok(viommu),
        ),
        dropped.len() == viommu.objects().len(),
        forall|i: int| 0 <= i < dropped.len() ==> (#[trigger] dropped[i]).ret >= 0,
    ensures
        *viommu.iommufd == *creation.iommufd,
        crate::teardown::teardown_run(viommu.objects(), dropped) == (
            Seq::<u32>::empty(),
            None::<IommufdError>,
        ),
        requested_ids(
            crate::teardown::teardown_requests(*viommu.iommufd, viommu.objects(), dropped),
        ).to_multiset() == objects_given(ViommuProgress::Pending(creation), events),
{
    let iommufd = *viommu.iommufd;
    law_creation_keeps_its_parameters(creation, events);
    crate::teardown::law_teardown_destroys_all(iommufd, viommu.objects(), dropped);
    assert(requested_ids(crate::teardown::destroy_requests(iommufd, viommu.objects()))
        =~= viommu.objects());
    law_teardown_undoes_creation(creation, events, viommu);
}

/// Every request of a creation is made of its device, for its device id. The kernel is handed
/// the address of a buffer if and only if the library says what the buffer holds, and with it
/// the size of the buffer; only a CMDQV vIOMMU gets one for its interface.
pub proof fn law_creation_requests(creation: ViommuCreation, buffers: ViommuBuffers)
    requires
        creation.well_formed(),
    ensures
        match creation.pending_action(buffers) {
            ViommuAction::AllocHwpt(request) => {
                &&& request.fd == creation.iommufd.fd
                &&& request.arg.dev_id == creation.dev_id
                &&& match request.data {
                    Some(_) => {
                        &&& request.arg.data_type == IOMMU_HWPT_DATA_ARM_SMMUV3
                        &&& request.arg.data_len == IOMMU_HWPT_ARM_SMMUV3_SIZE
                        &&& request.arg.data_uptr == buffers.s1_hwpt_data
                    },
                    None => {
                        &&& request.arg.data_type == IOMMU_HWPT_DATA_NONE
                        &&& request.arg.data_len == 0
                        &&& request.arg.data_uptr == 0
                    },
                }
            },
            ViommuAction::AllocViommu(request) => {
                &&& request.fd == creation.iommufd.fd
                &&& request.arg.dev_id == creation.dev_id
                &&& request.data is Some <==> request.arg.type_ == IOMMU_VIOMMU_TYPE_TEGRA241_CMDQV
                &&& match request.data {
                    Some(_) => {
                        &&& request.arg.data_len == IOMMU_VIOMMU_TEGRA241_CMDQV_SIZE
                        &&& request.arg.data_uptr == buffers.cmdqv_data
                    },
                    None => request.arg.data_len == 0 && request.arg.data_uptr == 0,
                }
            },
            ViommuAction::ListDirectory(_) => true,
        },
{
}

/// A new vDevice is the one that was asked for: it stands behind the same vIOMMU, with the same
/// device id and virtual id. It holds no stage-1 page table, and all that it has to destroy is
/// itself.
pub proof fn law_new_vdevice(creation: VdeviceCreation, reply: IoctlReply<iommu_vdevice_alloc, ()>)
    ensures
        creation.after(reply) is Ok <==> reply.ret >= 0,
        creation.after(reply) matches Ok(vdevice) ==> {
            &&& vdevice.s1_hwpt_id is None
            &&& vdevice.viommu == creation.viommu
            &&& vdevice.dev_id == creation.dev_id
            &&& vdevice.virt_id == creation.virt_id
            &&& vdevice.objects() == seq![reply.arg.out_vdevice_id]
        },
{
}

/// A vDevice holds at most one stage-1 page table: once the kernel has granted one, the next is
/// refused without a request, with an error that names the vDevice.
pub proof fn law_one_s1_hwpt(
    vdevice: IommufdVDevice,
    granted: IoctlReply<iommu_hwpt_alloc, iommu_hwpt_arm_smmuv3>,
    hwpt_data: IommufdHwptData,
    data_uptr: u64,
)
    requires
        granted.ret >= 0,
    ensures
        vdevice.after_s1_allocation(granted).s1_hwpt_allocation(hwpt_data, data_uptr) == Err::<
            IoctlRequest<iommu_hwpt_alloc, iommu_hwpt_arm_smmuv3>,
            IommufdError,
        >(IommufdError::S1HwptAlreadyAllocated(vdevice.vdevice_id)),
{
}

/// The destruction of a stage-1 page table undoes its allocation: it is asked for by the id that
/// the kernel gave out, leaves the vDevice as it was before, and makes room for the next one.
pub proof fn law_destruction_undoes_allocation(
    vdevice: IommufdVDevice,
    granted: IoctlReply<iommu_hwpt_alloc, iommu_hwpt_arm_smmuv3>,
    destroyed: IoctlReply<iommu_destroy, ()>,
    hwpt_data: IommufdHwptData,
    data_uptr: u64,
)
    requires
        vdevice.s1_hwpt_id is None,
        granted.ret >= 0,
        destroyed.ret >= 0,
    ensures
        ({
            let holding = vdevice.after_s1_allocation(granted);
            let released = holding.after_s1_destruction(destroyed);
            &&& holding.s1_hwpt_destruction() == S1Destruction::Destroy(
                vdevice.viommu.iommufd.destroy_request(granted.arg.out_hwpt_id),
            )
            &&& released == vdevice
            &&& released.s1_hwpt_destruction() is Finished
            &&& released.s1_hwpt_allocation(hwpt_data, data_uptr) is Ok
        }),
{
}

/// A call that the kernel refuses leaves the vDevice as it is.
pub proof fn law_refused_calls_change_nothing(
    vdevice: IommufdVDevice,
    allocation: IoctlReply<iommu_hwpt_alloc, iommu_hwpt_arm_smmuv3>,
    destruction: IoctlReply<iommu_destroy, ()>,
)
    ensures
        allocation.ret < 0 ==> vdevice.after_s1_allocation(allocation) == vdevice,
        destruction.ret < 0 ==> vdevice.after_s1_destruction(destruction) == vdevice,
{
}

/// What a vDevice destroys when it is dropped is itself and the stage-1 page table that it holds
/// at that time: one that was destroyed before is not destroyed again.
pub proof fn law_vdevice_objects(
    vdevice: IommufdVDevice,
    granted: IoctlReply<iommu_hwpt_alloc, iommu_hwpt_arm_smmuv3>,
    destroyed: IoctlReply<iommu_destroy, ()>,
)
    requires
        granted.ret >= 0,
        destroyed.ret >= 0,
    ensures
        vdevice.after_s1_allocation(granted).objects() == seq![
            vdevice.vdevice_id,
            granted.arg.out_hwpt_id,
        ],
        vdevice.after_s1_destruction(destroyed).objects() == seq![vdevice.vdevice_id],
{
}

/// A call that a vDevice gets for its stage-1 page table, and how the kernel answers if the call
/// asks it for something.
pub enum S1Call {
    Allocate {
        ste: iommu_hwpt_arm_smmuv3,
        data_uptr: u64,
        reply: IoctlReply<iommu_hwpt_alloc, iommu_hwpt_arm_smmuv3>,
    },
    Destroy { reply: IoctlReply<iommu_destroy, ()> },
}

impl S1Call {
    /// The kernel grants what the call asks for.
    pub open spec fn granted(self) -> bool {
        match self {
            S1Call::Allocate { reply, .. } => reply.ret >= 0,
            S1Call::Destroy { reply } => reply.ret >= 0,
        }
    }

    /// What the call makes of a vDevice: a call that asks for nothing changes nothing.
    pub open spec fn makes_of(self, vdevice: IommufdVDevice) -> IommufdVDevice {
        match self {
            S1Call::Allocate { ste, data_uptr, reply } => match vdevice.s1_hwpt_allocation(
                IommufdHwptData::Smmuv3(ste),
                data_uptr,
            ) {
                Ok(_) => vdevice.after_s1_allocation(reply),
                Err(_) => vdevice,
            },
            S1Call::Destroy { reply } => match vdevice.s1_hwpt_destruction() {
                S1Destruction::Destroy(_) => vdevice.after_s1_destruction(reply),
                S1Destruction::Finished(_) => vdevice,
            },
        }
    }

    /// The ids that the kernel gives out during the call.
    pub open spec fn given_ids(self, vdevice: IommufdVDevice) -> Multiset<u32> {
        match self {
            S1Call::Allocate { ste, data_uptr, reply } => match allocation_result(
                vdevice,
                ste,
                data_uptr,
                reply,
            ) {
                Ok(id) => Multiset::empty().insert(id),
                Err(_) => Multiset::empty(),
            },
            S1Call::Destroy { .. } => Multiset::empty(),
        }
    }

    /// The ids that the kernel destroys during the call.
    pub open spec fn destroyed_ids(self, vdevice: IommufdVDevice) -> Multiset<u32> {
        match (self, vdevice.s1_hwpt_destruction()) {
            (S1Call::Destroy { reply }, S1Destruction::Destroy(request)) if reply.ret >= 0 => {
                Multiset::empty().insert(request.arg.id)
            },
            _ => Multiset::empty(),
        }
    }
}

/// What the allocation of a stage-1 page table returns: the refusal of a vDevice that holds one,
/// or else what the kernel answers.
pub open spec fn allocation_result(
    vdevice: IommufdVDevice,
    ste: iommu_hwpt_arm_smmuv3,
    data_uptr: u64,
    reply: IoctlReply<iommu_hwpt_alloc, iommu_hwpt_arm_smmuv3>,
) -> Result<u32, IommufdError> {
    match vdevice.s1_hwpt_allocation(IommufdHwptData::Smmuv3(ste), data_uptr) {
        Ok(_) => crate::iommufd_syscall::hwpt_outcome(reply),
        Err(error) => Err(error),
    }
}

/// What the destruction of a stage-1 page table returns: a success for a vDevice that holds none,
/// or else what the kernel answers.
pub open spec fn destruction_result(
    vdevice: IommufdVDevice,
    reply: IoctlReply<iommu_destroy, ()>,
) -> Result<(), IommufdError> {
    match vdevice.s1_hwpt_destruction() {
        S1Destruction::Destroy(_) => reply.outcome(IommufdError::IommuDestroy(reply.errno)),
        S1Destruction::Finished(result) => result,
    }
}

/// What a sequence of calls makes of a vDevice.
pub open spec fn vdevice_run(vdevice: IommufdVDevice, calls: Seq<S1Call>) -> IommufdVDevice
    decreases calls.len(),
{
    if calls.len() == 0 {
        vdevice
    } else {
        calls.last().makes_of(vdevice_run(vdevice, calls.drop_last()))
    }
}

/// The ids of the stage-1 page tables that the kernel gives out during a sequence of calls.
pub open spec fn s1_ids_given(vdevice: IommufdVDevice, calls: Seq<S1Call>) -> Multiset<u32>
    decreases calls.len(),
{
    if calls.len() == 0 {
        Multiset::empty()
    } else {
        s1_ids_given(vdevice, calls.drop_last()).add(
            calls.last().given_ids(vdevice_run(vdevice, calls.drop_last())),
        )
    }
}

/// The ids of the stage-1 page tables that the kernel destroys during a sequence of calls.
pub open spec fn s1_ids_destroyed(vdevice: IommufdVDevice, calls: Seq<S1Call>) -> Multiset<u32>
    decreases calls.len(),
{
    if calls.len() == 0 {
        Multiset::empty()
    } else {
        s1_ids_destroyed(vdevice, calls.drop_last()).add(
            calls.last().destroyed_ids(vdevice_run(vdevice, calls.drop_last())),
        )
    }
}

/// The ids of the stage-1 page tables that are alive after a sequence of calls: given out and
/// not destroyed.
pub open spec fn s1_ids_alive(vdevice: IommufdVDevice, calls: Seq<S1Call>) -> Multiset<u32> {
    s1_ids_given(vdevice, calls).sub(s1_ids_destroyed(vdevice, calls))
}

/// The id of the stage-1 page table that a vDevice holds, if it holds one.
pub open spec fn s1_id_held(vdevice: IommufdVDevice) -> Multiset<u32> {
    match vdevice.s1_hwpt_id {
        Some(s1_hwpt_id) => Multiset::empty().insert(s1_hwpt_id),
        None => Multiset::empty(),
    }
}

/// No sequence of calls changes anything of a vDevice but the stage-1 page table that it holds.
pub proof fn law_calls_keep_the_vdevice(vdevice: IommufdVDevice, calls: Seq<S1Call>)
    ensures
        vdevice_run(vdevice, calls) == vdevice.with_s1_hwpt(
            vdevice_run(vdevice, calls).s1_hwpt_id,
        ),
    decreases calls.len(),
{
    if calls.len() > 0 {
        law_calls_keep_the_vdevice(vdevice, calls.drop_last());
    }
}

/// After any sequence of calls, each stage-1 page table that the kernel gave out is either
/// destroyed or held by the vDevice, and not both, whatever the kernel grants and refuses.
pub proof fn law_s1_ids_are_accounted_for(vdevice: IommufdVDevice, calls: Seq<S1Call>)
    requires
        vdevice.s1_hwpt_id is None,
    ensures
        s1_ids_given(vdevice, calls) == s1_ids_destroyed(vdevice, calls).add(
            s1_id_held(vdevice_run(vdevice, calls)),
        ),
    decreases calls.len(),
{
    if calls.len() > 0 {
        law_s1_ids_are_accounted_for(vdevice, calls.drop_last());
    }
    assert(s1_ids_given(vdevice, calls) =~= s1_ids_destroyed(vdevice, calls).add(
        s1_id_held(vdevice_run(vdevice, calls)),
    ));
}

/// After any sequence of calls, at most one stage-1 page table of a vDevice is alive, and it is
/// the one in `s1_hwpt_id`: `Some` with its id if one is alive, `None` if none is.
pub proof fn law_at_most_one_s1_hwpt_alive(vdevice: IommufdVDevice, calls: Seq<S1Call>)
    requires
        vdevice.s1_hwpt_id is None,
    ensures
        s1_ids_alive(vdevice, calls).len() <= 1,
        match vdevice_run(vdevice, calls).s1_hwpt_id {
            Some(s1_hwpt_id) => s1_ids_alive(vdevice, calls) == Multiset::<u32>::empty().insert(
                s1_hwpt_id,
            ),
            None => s1_ids_alive(vdevice, calls) == Multiset::<u32>::empty(),
        },
{
    law_s1_ids_are_accounted_for(vdevice, calls);
    assert(s1_ids_alive(vdevice, calls) =~= s1_id_held(vdevice_run(vdevice, calls)));
}

/// If the kernel grants every request, then after any sequence of calls an allocation succeeds
/// if and only if the call just before it is not an allocation.
pub proof fn law_allocations_alternate(
    vdevice: IommufdVDevice,
    calls: Seq<S1Call>,
    ste: iommu_hwpt_arm_smmuv3,
    data_uptr: u64,
    reply: IoctlReply<iommu_hwpt_alloc, iommu_hwpt_arm_smmuv3>,
)
    requires
        vdevice.s1_hwpt_id is None,
        forall|i: int| 0 <= i < calls.len() ==> (#[trigger] calls[i]).granted(),
        reply.ret >= 0,
    ensures
        allocation_result(vdevice_run(vdevice, calls), ste, data_uptr, reply) is Ok <==> !(
        calls.len() > 0 && calls.last() is Allocate),
{
    if calls.len() > 0 {
        assert(calls[calls.len() - 1].granted());
    }
}

/// A destruction fails if and only if the vDevice holds a page table that the kernel refuses to
/// destroy. After one that succeeds, the next succeeds too, asks for nothing, and changes
/// nothing, however the kernel would answer.
pub proof fn law_destruction_is_idempotent(
    vdevice: IommufdVDevice,
    first: IoctlReply<iommu_destroy, ()>,
    second: IoctlReply<iommu_destroy, ()>,
)
    ensures
        destruction_result(vdevice, first) is Err <==> vdevice.s1_hwpt_id is Some && first.ret < 0,
        destruction_result(vdevice, first) is Ok ==> {
            let released = S1Call::Destroy { reply: first }.makes_of(vdevice);
            &&& released.s1_hwpt_destruction() == S1Destruction::Finished(Ok(()))
            &&& destruction_result(released, second) == Ok::<(), IommufdError>(())
            &&& S1Call::Destroy { reply: second }.makes_of(released) == released
        },
{
}

/// Over the life of a vDevice, from its creation over any sequence of calls to the drop, each id
/// that the kernel gave out for it, its own and those of its stage-1 page tables, is destroyed
/// exactly once, on the device of its vIOMMU, if the kernel grants what the drop asks for: what
/// was destroyed during the calls is not asked for again.
pub proof fn law_vdevice_life(
    creation: VdeviceCreation,
    created: IoctlReply<iommu_vdevice_alloc, ()>,
    calls: Seq<S1Call>,
    dropped: Seq<IoctlReply<iommu_destroy, ()>>,
)
    requires
        created.ret >= 0,
        dropped.len() == vdevice_run(creation.after(created)->Ok_0, calls).objects().len(),
        forall|i: int| 0 <= i < dropped.len() ==> (#[trigger] dropped[i]).ret >= 0,
    ensures
        ({
            let vdevice = creation.after(created)->Ok_0;
            let last = vdevice_run(vdevice, calls);
            let objects = last.objects();
            let requests = crate::teardown::teardown_requests(
                *last.viommu.iommufd,
                objects,
                dropped,
            );
            &&& creation.after(created) is Ok
            &&& *last.viommu.iommufd == *creation.viommu.iommufd
            &&& crate::teardown::teardown_run(objects, dropped) == (
                Seq::<u32>::empty(),
                None::<IommufdError>,
            )
            &&& s1_ids_given(vdevice, calls).insert(created.arg.out_vdevice_id)
                == s1_ids_destroyed(vdevice, calls).add(requested_ids(requests).to_multiset())
        }),
{
    broadcast use vstd::seq_lib::group_to_multiset_ensures;

    let vdevice = creation.after(created)->Ok_0;
    let last = vdevice_run(vdevice, calls);
    let iommufd = *last.viommu.iommufd;
    let objects = last.objects();
    crate::teardown::law_teardown_destroys_all(iommufd, objects, dropped);
    assert(requested_ids(crate::teardown::destroy_requests(iommufd, objects)) =~= objects);
    law_calls_keep_the_vdevice(vdevice, calls);
    law_s1_ids_are_accounted_for(vdevice, calls);
    let own = Seq::<u32>::empty().push(created.arg.out_vdevice_id);
    match last.s1_hwpt_id {
        Some(s1_hwpt_id) => {
            assert(objects =~= own.push(s1_hwpt_id));
        },
        None => {
            assert(objects =~= own);
        },
    }
    assert(objects.to_multiset() =~= s1_id_held(last).insert(created.arg.out_vdevice_id));
    assert(s1_ids_given(vdevice, calls).insert(created.arg.out_vdevice_id)
        =~= s1_ids_destroyed(vdevice, calls).add(objects.to_multiset()));
}

} // verus!

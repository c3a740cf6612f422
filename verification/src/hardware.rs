//! Which kind of virtual IOMMU the hardware supports.
//!
//! NVIDIA CMDQV hardware (GH200, GB200) shows in two directories of sysfs. They are listed one
//! after the other, the second only if the first shows nothing.
use crate::uapi::{IOMMU_VIOMMU_TYPE_ARM_SMMUV3, IOMMU_VIOMMU_TYPE_TEGRA241_CMDQV};
use vstd::prelude::*;

verus! {

/// `text` begins with `prefix`.
pub open spec fn has_prefix(text: Seq<char>, prefix: Seq<char>) -> bool {
    prefix.is_prefix_of(text)
}

/// `pattern` occurs in `text` at the position `at`.
pub open spec fn occurs_at(text: Seq<char>, pattern: Seq<char>, at: int) -> bool {
    0 <= at <= text.len() - pattern.len() && text.subrange(at, at + pattern.len()) == pattern
}

/// `pattern` occurs somewhere in `text`.
pub open spec fn has_substring(text: Seq<char>, pattern: Seq<char>) -> bool {
    exists|at: int| occurs_at(text, pattern, at)
}

/// The characters of `s`.
fn chars_of(s: &str) -> (chars: Vec<char>)
    ensures
        chars@ == s@,
{
    let mut chars: Vec<char> = Vec::new();
    for c in it: s.chars()
        invariant
            it.seq() == s@,
            chars@ == it.seq().take(it.index() as int),
    {
        chars.push(c);
    }
    chars
}

/// Whether `pattern` occurs in `text` at the position `at`.
fn matches_at(text: &Vec<char>, pattern: &Vec<char>, at: usize) -> (found: bool)
    requires
        at + pattern.len() <= text.len(),
    ensures
        found == occurs_at(text@, pattern@, at as int),
{
    let mut i: usize = 0;
    while i < pattern.len()
        invariant
            at + pattern.len() <= text.len(),
            i <= pattern@.len(),
            forall|j: int| 0 <= j < i ==> text@[at + j] == #[trigger] pattern@[j],
        decreases pattern@.len() - i,
    {
        if text[at + i] != pattern[i] {
            assert(text@.subrange(at as int, at + pattern@.len())[i as int] != pattern@[i as int]);
            return false;
        }
        i += 1;
    }
    assert(text@.subrange(at as int, at + pattern@.len()) =~= pattern@);
    true
}

/// Whether `text` begins with `prefix`.
fn starts_with(text: &str, prefix: &str) -> (found: bool)
    ensures
        found == has_prefix(text@, prefix@),
{
    let chars = chars_of(text);
    let pattern = chars_of(prefix);
    if pattern.len() > chars.len() {
        return false;
    }
    matches_at(&chars, &pattern, 0)
}

/// Whether `pattern` occurs in `text`.
fn contains(text: &str, pattern: &str) -> (found: bool)
    ensures
        found == has_substring(text@, pattern@),
{
    let chars = chars_of(text);
    let pattern_chars = chars_of(pattern);
    if pattern_chars.len() > chars.len() {
        return false;
    }
    let last: usize = chars.len() - pattern_chars.len();
    let mut at: usize = 0;
    loop
        invariant
            chars@ == text@,
            pattern_chars@ == pattern@,
            at <= last,
            last == text@.len() - pattern@.len(),
            forall|k: int| 0 <= k < at ==> !occurs_at(text@, pattern@, k),
        decreases last - at,
    {
        if matches_at(&chars, &pattern_chars, at) {
            return true;
        }
        if at == last {
            return false;
        }
        at += 1;
    }
}

/// A directory in which CMDQV hardware can show.
#[derive(Debug, Copy, Clone, PartialEq, Eq, Structural)]
pub enum CmdqvProbe {
    /// The ACPI devices, among which CMDQV hardware has the hardware id `NVDA200C`.
    AcpiDevices,
    /// The platform devices, among which CMDQV hardware has `cmdqv` in its name.
    PlatformDevices,
}

/// How a search for CMDQV hardware goes on.
#[derive(Debug, Copy, Clone, PartialEq, Eq, Structural)]
pub enum ProbeStep {
    /// This directory is to be listed.
    List(CmdqvProbe),
    /// The search has ended: the hardware is there, or it is not.
    Detected(bool),
}

impl CmdqvProbe {
    /// The name of a directory entry says that it is CMDQV hardware.
    pub open spec fn is_cmdqv(self, name: Seq<char>) -> bool {
        match self {
            CmdqvProbe::AcpiDevices => has_prefix(name, "NVDA200C"@),
            CmdqvProbe::PlatformDevices => has_substring(name, "cmdqv"@),
        }
    }

    /// One of the names says that it is CMDQV hardware.
    pub open spec fn shows_among(self, names: Seq<String>) -> bool {
        exists|i: int| 0 <= i < names.len() && self.is_cmdqv(#[trigger] names[i]@)
    }

    /// CMDQV hardware shows in the listing of this directory. `None` is the listing of a
    /// directory that cannot be read.
    pub open spec fn shows_in(self, listing: Option<Vec<String>>) -> bool {
        match listing {
            Some(names) => self.shows_among(names@),
            None => false,
        }
    }

    /// How the search goes on after the listing of this directory.
    pub open spec fn after(self, listing: Option<Vec<String>>) -> ProbeStep {
        if self.shows_in(listing) {
            ProbeStep::Detected(true)
        } else {
            match self {
                CmdqvProbe::AcpiDevices => ProbeStep::List(CmdqvProbe::PlatformDevices),
                CmdqvProbe::PlatformDevices => ProbeStep::Detected(false),
            }
        }
    }

    /// The path of the directory.
    pub fn path(&self) -> (path: &'static str)
        ensures
            path@ == match *self {
                CmdqvProbe::AcpiDevices => "/sys/bus/acpi/devices"@,
                CmdqvProbe::PlatformDevices => "/sys/devices/platform"@,
            },
    {
        match self {
            CmdqvProbe::AcpiDevices => "/sys/bus/acpi/devices",
            CmdqvProbe::PlatformDevices => "/sys/devices/platform",
        }
    }

    /// Whether the name of an entry of this directory says that it is CMDQV hardware.
    pub fn matches(&self, name: &str) -> (found: bool)
        ensures
            found == self.is_cmdqv(name@),
    {
        match self {
            CmdqvProbe::AcpiDevices => starts_with(name, "NVDA200C"),
            CmdqvProbe::PlatformDevices => contains(name, "cmdqv"),
        }
    }
}

/// The search for CMDQV hardware starts with the ACPI devices; this is how it goes on after
/// `listing`, the names of the entries of the directory `probe`, or `None` where that directory
/// cannot be read.
pub fn detect_cmdqv_hardware(probe: CmdqvProbe, listing: &Option<Vec<String>>) -> (step: ProbeStep)
    ensures
        step == probe.after(*listing),
{
    if let Some(names) = listing {
        let mut i: usize = 0;
        while i < names.len()
            invariant
                i <= names@.len(),
                *listing == Some(*names),
                forall|j: int| 0 <= j < i ==> !probe.is_cmdqv(#[trigger] names@[j]@),
            decreases names@.len() - i,
        {
            if probe.matches(names[i].as_str()) {
                assert(probe.is_cmdqv(names@[i as int]@));
                assert(probe.shows_among(names@));
                return ProbeStep::Detected(true);
            }
            i += 1;
        }
    }
    match probe {
        CmdqvProbe::AcpiDevices => ProbeStep::List(CmdqvProbe::PlatformDevices),
        CmdqvProbe::PlatformDevices => ProbeStep::Detected(false),
    }
}

/// The vIOMMU type for hardware with or without CMDQV.
pub open spec fn viommu_type_for(cmdqv_hardware: bool) -> u32 {
    if cmdqv_hardware {
        IOMMU_VIOMMU_TYPE_TEGRA241_CMDQV
    } else {
        IOMMU_VIOMMU_TYPE_ARM_SMMUV3
    }
}

/// The vIOMMU type for the current hardware, on which the search for CMDQV hardware has ended
/// with `cmdqv_hardware`.
pub fn get_viommu_type(cmdqv_hardware: bool) -> (viommu_type: u32)
    ensures
        viommu_type == viommu_type_for(cmdqv_hardware),
{
    if cmdqv_hardware {
        IOMMU_VIOMMU_TYPE_TEGRA241_CMDQV
    } else {
        IOMMU_VIOMMU_TYPE_ARM_SMMUV3
    }
}

/// The search ends after at most two listings, and finds the hardware if and only if it shows
/// in one of them. The platform devices are listed only if the ACPI devices show nothing.
pub proof fn law_detection(acpi: Option<Vec<String>>, platform: Option<Vec<String>>)
    ensures
        match CmdqvProbe::AcpiDevices.after(acpi) {
            ProbeStep::Detected(found) => found && CmdqvProbe::AcpiDevices.shows_in(acpi),
            ProbeStep::List(probe) => {
                &&& !CmdqvProbe::AcpiDevices.shows_in(acpi)
                &&& probe == CmdqvProbe::PlatformDevices
                &&& probe.after(platform) == ProbeStep::Detected(
                    CmdqvProbe::PlatformDevices.shows_in(platform),
                )
            },
        },
{
}

/// `name` begins with `NVDA200C`.
pub open spec fn begins_with_nvda200c(name: Seq<char>) -> bool {
    &&& name.len() >= 8
    &&& name[0] == 'N' && name[1] == 'V' && name[2] == 'D' && name[3] == 'A'
    &&& name[4] == '2' && name[5] == '0' && name[6] == '0' && name[7] == 'C'
}

/// `name` holds `cmdqv` at the position `k`.
pub open spec fn holds_cmdqv_at(name: Seq<char>, k: int) -> bool {
    &&& 0 <= k <= name.len() - 5
    &&& name[k] == 'c' && name[k + 1] == 'm' && name[k + 2] == 'd' && name[k + 3] == 'q'
    &&& name[k + 4] == 'v'
}

/// Among the ACPI devices, what counts is that a name begins with `NVDA200C`.
pub(crate) proof fn lemma_acpi_name(name: Seq<char>)
    ensures
        CmdqvProbe::AcpiDevices.is_cmdqv(name) == begins_with_nvda200c(name),
{
    reveal_strlit("NVDA200C");
    let id = "NVDA200C"@;
    if begins_with_nvda200c(name) {
        assert(id =~= name.subrange(0, 8));
    }
    if CmdqvProbe::AcpiDevices.is_cmdqv(name) {
        assert(forall|j: int| 0 <= j < 8 ==> name.subrange(0, 8)[j] == #[trigger] name[j]);
    }
}

/// Among the platform devices, what counts is that a name holds `cmdqv` somewhere.
pub(crate) proof fn lemma_platform_name(name: Seq<char>)
    ensures
        CmdqvProbe::PlatformDevices.is_cmdqv(name) <==> exists|k: int| holds_cmdqv_at(name, k),
{
    reveal_strlit("cmdqv");
    let id = "cmdqv"@;
    if CmdqvProbe::PlatformDevices.is_cmdqv(name) {
        let at = choose|at: int| occurs_at(name, id, at);
        assert(forall|j: int| 0 <= j < 5 ==> name.subrange(at, at + 5)[j] == #[trigger] id[j]);
        assert(id[0] == 'c' && id[1] == 'm' && id[2] == 'd' && id[3] == 'q' && id[4] == 'v');
        assert(holds_cmdqv_at(name, at));
    }
    if exists|k: int| holds_cmdqv_at(name, k) {
        let k = choose|k: int| holds_cmdqv_at(name, k);
        assert(name.subrange(k, k + 5) =~= id);
        assert(occurs_at(name, id, k));
    }
}

/// A name of an ACPI device is that of CMDQV hardware if and only if it begins with `NVDA200C`,
/// whatever follows.
pub proof fn law_acpi_name(name: &str, found: bool)
    requires
        call_ensures(CmdqvProbe::matches, (&CmdqvProbe::AcpiDevices, name), found),
    ensures
        found == begins_with_nvda200c(name@),
{
    lemma_acpi_name(name@);
}

/// A name of a platform device is that of CMDQV hardware if and only if it holds `cmdqv`, at
/// whatever position.
pub proof fn law_platform_name(name: &str, found: bool)
    requires
        call_ensures(CmdqvProbe::matches, (&CmdqvProbe::PlatformDevices, name), found),
    ensures
        found <==> exists|k: int| holds_cmdqv_at(name@, k),
{
    lemma_platform_name(name@);
}

/// One ACPI device whose name begins with `NVDA200C` is enough, wherever in the listing it
/// stands: the search ends there, with success.
pub proof fn law_one_acpi_device_is_enough(names: Vec<String>, i: int, step: ProbeStep)
    requires
        call_ensures(detect_cmdqv_hardware, (CmdqvProbe::AcpiDevices, &Some(names)), step),
        0 <= i < names@.len(),
        begins_with_nvda200c(names@[i]@),
    ensures
        step == ProbeStep::Detected(true),
{
    lemma_acpi_name(names@[i]@);
    assert(CmdqvProbe::AcpiDevices.is_cmdqv(names@[i]@));
}

/// If no name of an ACPI device begins with `NVDA200C`, the search goes on with the platform
/// devices.
pub proof fn law_search_goes_on(names: Vec<String>, step: ProbeStep)
    requires
        call_ensures(detect_cmdqv_hardware, (CmdqvProbe::AcpiDevices, &Some(names)), step),
        forall|i: int| 0 <= i < names@.len() ==> !begins_with_nvda200c(#[trigger] names@[i]@),
    ensures
        step == ProbeStep::List(CmdqvProbe::PlatformDevices),
{
    assert forall|i: int| 0 <= i < names@.len() implies !CmdqvProbe::AcpiDevices.is_cmdqv(
        #[trigger] names@[i]@,
    ) by {
        lemma_acpi_name(names@[i]@);
    }
}

/// One platform device that has `cmdqv` somewhere in its name is enough, wherever in the listing
/// it stands: the search ends there, with success.
pub proof fn law_one_platform_device_is_enough(
    names: Vec<String>,
    i: int,
    k: int,
    step: ProbeStep,
)
    requires
        call_ensures(detect_cmdqv_hardware, (CmdqvProbe::PlatformDevices, &Some(names)), step),
        0 <= i < names@.len(),
        holds_cmdqv_at(names@[i]@, k),
    ensures
        step == ProbeStep::Detected(true),
{
    lemma_platform_name(names@[i]@);
    assert(CmdqvProbe::PlatformDevices.is_cmdqv(names@[i]@));
}

/// If no platform device has `cmdqv` in its name, the search ends without success.
pub proof fn law_search_ends(names: Vec<String>, step: ProbeStep)
    requires
        call_ensures(detect_cmdqv_hardware, (CmdqvProbe::PlatformDevices, &Some(names)), step),
        forall|i: int, k: int|
            0 <= i < names@.len() ==> !#[trigger] holds_cmdqv_at(names@[i]@, k),
    ensures
        step == ProbeStep::Detected(false),
{
    assert forall|i: int| 0 <= i < names@.len() implies !CmdqvProbe::PlatformDevices.is_cmdqv(
        #[trigger] names@[i]@,
    ) by {
        lemma_platform_name(names@[i]@);
    }
}

/// A directory that cannot be read shows nothing: the search goes on, or ends without success.
pub proof fn law_unreadable_directory(acpi: ProbeStep, platform: ProbeStep)
    requires
        call_ensures(
            detect_cmdqv_hardware,
            (CmdqvProbe::AcpiDevices, &None::<Vec<String>>),
            acpi,
        ),
        call_ensures(
            detect_cmdqv_hardware,
            (CmdqvProbe::PlatformDevices, &None::<Vec<String>>),
            platform,
        ),
    ensures
        acpi == ProbeStep::List(CmdqvProbe::PlatformDevices),
        platform == ProbeStep::Detected(false),
{
}

/// Different directories have different paths: the search lists two places, not one twice.
pub proof fn law_paths_differ(acpi: &'static str, platform: &'static str)
    requires
        call_ensures(CmdqvProbe::path, (&CmdqvProbe::AcpiDevices,), acpi),
        call_ensures(CmdqvProbe::path, (&CmdqvProbe::PlatformDevices,), platform),
    ensures
        acpi@ != platform@,
        acpi@ == "/sys/bus/acpi/devices"@,
        platform@ == "/sys/devices/platform"@,
{
    reveal_strlit("/sys/bus/acpi/devices");
    reveal_strlit("/sys/devices/platform");
    assert(acpi@[5] == 'b' && platform@[5] == 'd');
}

/// CMDQV hardware gets a vIOMMU of the CMDQV type, and all other hardware one of the plain
/// SMMUv3 type.
pub proof fn law_viommu_type(cmdqv_hardware: bool, viommu_type: u32)
    requires
        call_ensures(get_viommu_type, (cmdqv_hardware,), viommu_type),
    ensures
        cmdqv_hardware <==> viommu_type == 2,
        !cmdqv_hardware <==> viommu_type == 1,
{
}

} // verus!

use iommufd_ioctls::hardware::{detect_cmdqv_hardware, get_viommu_type, CmdqvProbe, ProbeStep};

fn listing(names: &[&str]) -> Option<Vec<String>> {
    Some(names.iter().map(|name| name.to_string()).collect())
}

#[test]
fn directories_of_the_search() {
    assert_eq!(CmdqvProbe::AcpiDevices.path(), "/sys/bus/acpi/devices");
    assert_eq!(CmdqvProbe::PlatformDevices.path(), "/sys/devices/platform");
}

#[test]
fn acpi_devices_match_by_prefix() {
    let acpi = CmdqvProbe::AcpiDevices;
    assert!(acpi.matches("NVDA200C"));
    assert!(acpi.matches("NVDA200C:00"));
    assert!(!acpi.matches("NVDA200"));
    assert!(!acpi.matches("nvda200c:00"));
    assert!(!acpi.matches("device:NVDA200C"));
    assert!(!acpi.matches(""));
    assert!(!acpi.matches("cmdqv"));
}

#[test]
fn platform_devices_match_by_substring() {
    let platform = CmdqvProbe::PlatformDevices;
    assert!(platform.matches("cmdqv"));
    assert!(platform.matches("tegra241-cmdqv.0"));
    assert!(platform.matches("cmdcmdqv"));
    assert!(platform.matches("\u{fffd}cmdqv\u{fffd}"));
    assert!(!platform.matches("cmdq"));
    assert!(!platform.matches("cmdq.v"));
    assert!(!platform.matches("CMDQV"));
    assert!(!platform.matches(""));
}

#[test]
fn acpi_device_ends_the_search() {
    assert_eq!(
        detect_cmdqv_hardware(
            CmdqvProbe::AcpiDevices,
            &listing(&["PNP0A08:00", "NVDA200C:01", "ACPI0007:00"])
        ),
        ProbeStep::Detected(true)
    );
}

#[test]
fn platform_devices_are_searched_second() {
    let step = detect_cmdqv_hardware(CmdqvProbe::AcpiDevices, &listing(&["PNP0A08:00", "cmdqv"]));
    assert_eq!(step, ProbeStep::List(CmdqvProbe::PlatformDevices));
    assert_eq!(
        detect_cmdqv_hardware(CmdqvProbe::PlatformDevices, &listing(&["serial8250", "cmdqv.1"])),
        ProbeStep::Detected(true)
    );
    assert_eq!(
        detect_cmdqv_hardware(CmdqvProbe::PlatformDevices, &listing(&["serial8250", "NVDA200C:00"])),
        ProbeStep::Detected(false)
    );
}

#[test]
fn unreadable_directories_show_nothing() {
    assert_eq!(
        detect_cmdqv_hardware(CmdqvProbe::AcpiDevices, &None),
        ProbeStep::List(CmdqvProbe::PlatformDevices)
    );
    assert_eq!(
        detect_cmdqv_hardware(CmdqvProbe::PlatformDevices, &None),
        ProbeStep::Detected(false)
    );
    assert_eq!(
        detect_cmdqv_hardware(CmdqvProbe::PlatformDevices, &listing(&[])),
        ProbeStep::Detected(false)
    );
}

#[test]
fn viommu_type_follows_the_hardware() {
    assert_eq!(get_viommu_type(true), 2);
    assert_eq!(get_viommu_type(false), 1);
}

use picovoice::platform::{find_machine_type, pv_platform, BuildTarget, PlatformError};

fn cpuinfo_with_part(part: &str) -> String {
    format!(
        "processor : 0\nmodel name : test\nCPU implementer : 0x41\nCPU part : {}\nCPU revision : 4\n",
        part
    )
}

#[test]
fn test_find_machine_type_known_parts() {
    assert_eq!(find_machine_type(&cpuinfo_with_part("0xb76")), Ok(String::from("arm11")));
    assert_eq!(find_machine_type(&cpuinfo_with_part("0xc07")), Ok(String::from("cortex-a7")));
    assert_eq!(find_machine_type(&cpuinfo_with_part("0xd03")), Ok(String::from("cortex-a53")));
    assert_eq!(find_machine_type(&cpuinfo_with_part("0xd07")), Ok(String::from("cortex-a57")));
    assert_eq!(find_machine_type(&cpuinfo_with_part("0xd08")), Ok(String::from("cortex-a72")));
    assert_eq!(find_machine_type(&cpuinfo_with_part("0xc08")), Ok(String::from("beaglebone")));
}

#[test]
fn test_find_machine_type_lowercases_the_code() {
    assert_eq!(find_machine_type(&cpuinfo_with_part("0xD03")), Ok(String::from("cortex-a53")));
    assert_eq!(find_machine_type(&cpuinfo_with_part("0XB76")), Ok(String::from("arm11")));
}

#[test]
fn test_find_machine_type_unknown_part() {
    assert_eq!(find_machine_type(&cpuinfo_with_part("0x999")), Ok(String::from("unsupported")));
}

#[test]
fn test_find_machine_type_no_part_line() {
    assert_eq!(
        find_machine_type("processor : 0\nmodel name : test\n"),
        Err(PlatformError::UnsupportedCpu)
    );
    assert_eq!(find_machine_type(""), Err(PlatformError::UnsupportedCpu));
}

#[test]
fn test_find_machine_type_takes_first_part_line() {
    let text = "CPU part : 0xd03\nCPU part : 0xd07\n";
    assert_eq!(find_machine_type(text), Ok(String::from("cortex-a53")));
}

#[test]
fn test_find_machine_type_last_token_of_line() {
    // The part code is the last space-separated token of its line.
    let text = "CPU part\t: 0xb76\n";
    assert_eq!(find_machine_type(text), Ok(String::from("arm11")));
}

#[test]
fn test_find_machine_type_trailing_space_gives_empty_token() {
    // A line ending in a space has an empty last token, which no part
    // code matches.
    let text = "CPU part : 0xd03 \n";
    assert_eq!(find_machine_type(text), Ok(String::from("unsupported")));
}

#[test]
fn test_find_machine_type_part_line_at_end_without_newline() {
    let text = "processor : 0\nCPU part : 0xd08";
    assert_eq!(find_machine_type(text), Ok(String::from("cortex-a72")));
}

#[test]
fn test_pv_platform_fixed_targets() {
    assert_eq!(pv_platform(BuildTarget::MacOs, ""), Ok(String::from("mac")));
    assert_eq!(pv_platform(BuildTarget::Windows, ""), Ok(String::from("windows")));
    assert_eq!(pv_platform(BuildTarget::LinuxX86, ""), Ok(String::from("linux")));
}

#[test]
fn test_pv_platform_arm_devices() {
    assert_eq!(
        pv_platform(BuildTarget::LinuxArm, &cpuinfo_with_part("0xd03")),
        Ok(String::from("raspberry-pi"))
    );
    assert_eq!(
        pv_platform(BuildTarget::LinuxArm, &cpuinfo_with_part("0xb76")),
        Ok(String::from("raspberry-pi"))
    );
    assert_eq!(
        pv_platform(BuildTarget::LinuxArm, &cpuinfo_with_part("0xd07")),
        Ok(String::from("jetson"))
    );
    assert_eq!(
        pv_platform(BuildTarget::LinuxArm, &cpuinfo_with_part("0xc08")),
        Ok(String::from("beaglebone"))
    );
}

#[test]
fn test_pv_platform_arm_unsupported() {
    assert_eq!(
        pv_platform(BuildTarget::LinuxArm, &cpuinfo_with_part("0x999")),
        Err(PlatformError::UnsupportedDevice)
    );
    assert_eq!(
        pv_platform(BuildTarget::LinuxArm, "no cpu information here"),
        Err(PlatformError::UnsupportedCpu)
    );
}

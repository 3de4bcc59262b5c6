use opencl3_select::ClState;
use opencl3_select::DeviceInfo;
use opencl3_select::DeviceProperties;
use opencl3_select::PlatformInfo;
use opencl3_select::PlatformProperties;

fn device(name: &str, vendor_id: u32, dev_type: u64) -> DeviceInfo {
    DeviceInfo::construct(DeviceProperties {
        vendor: String::from("Some Vendor"),
        vendor_id,
        name: String::from(name),
        version: String::from("OpenCL 3.0"),
        dev_type,
        profile: String::from("FULL_PROFILE"),
        extensions: String::from("cl_khr_icd cl_khr_fp64"),
        opencl_c_version: String::from("OpenCL C 1.2"),
        svm_mem_capability: 3,
    })
}

fn platform(name: &str, devices: &Vec<DeviceInfo>) -> PlatformInfo {
    PlatformInfo::construct(
        PlatformProperties {
            name: String::from(name),
            version: String::from("OpenCL 3.0 CUDA"),
            vendor: String::from("Vendor of ") + name,
            profile: String::from("FULL_PROFILE"),
            extensions: String::from("cl_khr_byte_addressable_store"),
        },
        devices,
    )
}

fn names(devices: &[DeviceInfo]) -> Vec<String> {
    devices.iter().map(|d| d.name()).collect()
}

#[test]
fn device_keeps_what_it_was_given() {
    let info = device("RTX", 0x10de, 4);
    assert_eq!(info.vendor(), "Some Vendor");
    assert_eq!(info.vendor_id(), 0x10de);
    assert_eq!(info.name(), "RTX");
    assert_eq!(info.version(), "OpenCL 3.0");
    assert_eq!(info.dev_type(), 4);
    assert_eq!(info.profile(), "FULL_PROFILE");
    assert_eq!(info.extensions(), "cl_khr_icd cl_khr_fp64");
    assert_eq!(info.opencl_c_version(), "OpenCL C 1.2");
    assert_eq!(info.svm_mem_capability(), 3);
}

#[test]
fn vendor_id_text_names_each_known_vendor() {
    let table: [(u32, &str); 12] = [
        (0x1002, "AMD"),
        (0x1014, "IBM"),
        (0x10de, "NVIDIA"),
        (0x10ee, "XILINX"),
        (0x1166, "BROADCOM"),
        (0x1172, "ALTERA"),
        (0x13b5, "ARM"),
        (0x1412, "VIA_TECHNOLOGIES"),
        (0x104c, "TEXAS_INSTRUMENTS"),
        (0x168c, "QUALCOMM"),
        (0x8086, "INTEL"),
        (0x0102_1d00, "AMD_ON_APPLE"),
    ];
    for (id, text) in table {
        assert_eq!(device("d", id, 2).vendor_id_text(), text);
    }
}

#[test]
fn vendor_id_text_of_any_other_id_is_unknown() {
    assert_eq!(device("d", 0, 2).vendor_id_text(), "UNKNOWN_VENDOR");
    assert_eq!(device("d", 0x106b, 2).vendor_id_text(), "UNKNOWN_VENDOR");
    assert_eq!(device("d", 0x1003, 2).vendor_id_text(), "UNKNOWN_VENDOR");
    assert_eq!(device("d", u32::MAX, 2).vendor_id_text(), "UNKNOWN_VENDOR");
}

#[test]
fn type_text_names_each_single_type() {
    assert_eq!(device("d", 0, 1).type_text(), "CL_DEVICE_TYPE_DEFAULT");
    assert_eq!(device("d", 0, 2).type_text(), "CL_DEVICE_TYPE_CPU");
    assert_eq!(device("d", 0, 4).type_text(), "CL_DEVICE_TYPE_GPU");
    assert_eq!(device("d", 0, 8).type_text(), "CL_DEVICE_TYPE_ACCELERATOR");
    assert_eq!(device("d", 0, 16).type_text(), "CL_DEVICE_TYPE_CUSTOM");
    assert_eq!(device("d", 0, 0xFFFF_FFFF).type_text(), "CL_DEVICE_TYPE_ALL");
}

#[test]
fn type_text_of_any_other_mask_is_combined() {
    assert_eq!(device("d", 0, 0).type_text(), "COMBINED_DEVICE_TYPE");
    assert_eq!(device("d", 0, 6).type_text(), "COMBINED_DEVICE_TYPE");
    assert_eq!(device("d", 0, 32).type_text(), "COMBINED_DEVICE_TYPE");
    assert_eq!(device("d", 0, u64::MAX).type_text(), "COMBINED_DEVICE_TYPE");
}

#[test]
fn device_clone_is_equal() {
    let info = device("RTX", 0x10de, 4);
    let copy = info.clone();
    assert_eq!(copy, info);
    assert_eq!(copy.name(), "RTX");
    assert_eq!(copy.vendor_id_text(), "NVIDIA");
}

#[test]
fn devices_differ_where_a_field_differs() {
    assert_ne!(device("RTX", 0x10de, 4), device("GTX", 0x10de, 4));
    assert_ne!(device("RTX", 0x10de, 4), device("RTX", 0x1002, 4));
    assert_ne!(device("RTX", 0x10de, 4), device("RTX", 0x10de, 2));
    assert_eq!(device("RTX", 0x10de, 4), device("RTX", 0x10de, 4));
}

#[test]
fn platform_keeps_what_it_was_given() {
    let devices = vec![device("a", 0x8086, 2), device("b", 0x8086, 4)];
    let info = platform("Intel(R) OpenCL", &devices);
    assert_eq!(info.name(), "Intel(R) OpenCL");
    assert_eq!(info.version(), "OpenCL 3.0 CUDA");
    assert_eq!(info.vendor(), "Vendor of Intel(R) OpenCL");
    assert_eq!(info.profile(), "FULL_PROFILE");
    assert_eq!(info.extensions(), "cl_khr_byte_addressable_store");
    assert_eq!(info.devices(), devices);
}

#[test]
fn platform_without_devices() {
    let info = platform("empty", &Vec::new());
    assert!(info.devices().is_empty());
    let copy = info.clone();
    assert_eq!(copy.name(), "empty");
    assert!(copy.devices().is_empty());
}

#[test]
fn platform_clone_holds_the_same_devices() {
    let devices = vec![device("a", 1, 2), device("b", 2, 4), device("c", 3, 8)];
    let copy = platform("p", &devices).clone();
    assert_eq!(copy.name(), "p");
    assert_eq!(copy.devices(), devices);
}

#[test]
fn all_devices_come_platform_by_platform() {
    let first = platform("first", &vec![device("a", 1, 2), device("b", 1, 4)]);
    let second = platform("second", &Vec::new());
    let third = platform("third", &vec![device("c", 1, 2)]);
    let fourth = platform("fourth", &vec![device("d", 1, 2), device("a", 1, 2)]);
    let state = ClState::new(vec![first, second, third, fourth]);
    assert_eq!(names(&state.get_all_devices()), vec!["a", "b", "c", "d", "a"]);
}

#[test]
fn no_platforms_no_devices() {
    let state = ClState::new(Vec::new());
    assert!(state.get_all_devices().is_empty());
    assert!(state.get_platforms().is_empty());
}

#[test]
fn get_platforms_keeps_the_order() {
    let state = ClState::new(vec![
        platform("x", &vec![device("a", 1, 2)]),
        platform("y", &Vec::new()),
        platform("z", &vec![device("b", 1, 2), device("c", 1, 2)]),
    ]);
    let platforms = state.get_platforms();
    let listed: Vec<String> = platforms.iter().map(|p| p.name()).collect();
    assert_eq!(listed, vec!["x", "y", "z"]);
    assert_eq!(names(&platforms[0].devices()), vec!["a"]);
    assert!(platforms[1].devices().is_empty());
    assert_eq!(names(&platforms[2].devices()), vec!["b", "c"]);
    let copy = state.clone();
    assert_eq!(names(&copy.get_all_devices()), vec!["a", "b", "c"]);
}

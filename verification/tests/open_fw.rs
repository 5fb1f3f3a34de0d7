use cloud_hypervisor::open_fw::{
    OpenFwDevicePath, OpenFwDevicePathError, PciBdf, VirtioDeviceType,
};

#[test]
fn openfw_device_path() {
    let expected_open_fw_path = "/pci@i0cf8/scsi@3/disk@0,0".to_owned();

    let bdf = PciBdf::new(0, 0, 3, 0);

    let open_fw_path =
        OpenFwDevicePath::from_bdf_and_device(bdf, VirtioDeviceType::Block).unwrap();
    assert_eq!(open_fw_path.to_string(), expected_open_fw_path);
}

#[test]
fn openfw_device_path_invalid_bdf() {
    let invalid_segment = 1_u16;
    let invalid_bus = 1_u8;

    let bdf = PciBdf::new(0, invalid_bus, 3, 0);
    let e = OpenFwDevicePath::from_bdf_and_device(bdf, VirtioDeviceType::Block).unwrap_err();
    assert!(
        matches!(e, OpenFwDevicePathError::DeviceNotConnectedToRootBus{segment_id: segment, bus_id: bus} if segment == 0 && bus == invalid_bus)
    );
    let bdf = PciBdf::new(invalid_segment, invalid_bus, 3, 0);
    let e = OpenFwDevicePath::from_bdf_and_device(bdf, VirtioDeviceType::Block).unwrap_err();
    assert!(
        matches!(e, OpenFwDevicePathError::DeviceNotConnectedToRootBus{segment_id: segment, bus_id: bus} if segment == invalid_segment && bus == invalid_bus)
    );
    let bdf = PciBdf::new(invalid_segment, 0, 3, 0);
    let e = OpenFwDevicePath::from_bdf_and_device(bdf, VirtioDeviceType::Block).unwrap_err();
    assert!(
        matches!(e, OpenFwDevicePathError::DeviceNotConnectedToRootBus{segment_id: segment, bus_id: bus} if segment == invalid_segment && bus == 0)
    );
}

#[test]
fn openfw_device_path_unsupported_device_type() {
    let bdf = PciBdf::new(0, 0, 3, 0);

    let e = OpenFwDevicePath::from_bdf_and_device(bdf, VirtioDeviceType::Console).unwrap_err();
    assert!(matches!(e, OpenFwDevicePathError::DeviceNotBootable));
}

#[test]
fn device_numbers_are_hexadecimal() {
    let path = |device| {
        OpenFwDevicePath::from_bdf_and_device(PciBdf::new(0, 0, device, 2), VirtioDeviceType::Block)
            .unwrap()
            .to_string()
    };
    assert_eq!(path(0), "/pci@i0cf8/scsi@0/disk@0,0");
    assert_eq!(path(31), "/pci@i0cf8/scsi@1f/disk@0,0");
}

use cgroupctl::cgroup::io_max::{IOMax, IOMaxError};

#[test]
fn invalid_format_no_colon() {
    let result = IOMax::build(Some("/dev/sda1000000".into()), None, None, None);
    assert!(matches!(result, Err(IOMaxError::InvalidFormat)));
}

#[test]
fn invalid_format_empty_value() {
    let result = IOMax::build(Some("/dev/sda:".into()), None, None, None);
    // The device is looked up before the limit is parsed, so on a machine
    // where /dev/sda does not resolve the lookup itself fails first.
    if IOMax::device_path_to_major_minor("/dev/sda").is_ok() {
        assert!(matches!(result, Err(IOMaxError::InvalidLimit)));
    } else {
        assert!(matches!(result, Err(IOMaxError::InvalidDevice)));
    }
}

#[test]
fn invalid_device() {
    let result = IOMax::build(Some("/dev/nonexistent:1000".into()), None, None, None);
    assert!(matches!(result, Err(IOMaxError::InvalidDevice)));
}

#[test]
fn invalid_limit_non_numeric() {
    let result = IOMax::build(Some("/dev/sda:abc".into()), None, None, None);
    if IOMax::device_path_to_major_minor("/dev/sda").is_ok() {
        assert!(matches!(result, Err(IOMaxError::InvalidLimit)));
    } else {
        assert!(matches!(result, Err(IOMaxError::InvalidDevice)));
    }
}

#[test]
fn negative_limit() {
    let result = IOMax::build(Some("/dev/sda:-1000".into()), None, None, None);
    if IOMax::device_path_to_major_minor("/dev/sda").is_ok() {
        assert!(matches!(result, Err(IOMaxError::InvalidLimit)));
    } else {
        assert!(matches!(result, Err(IOMaxError::InvalidDevice)));
    }
}

#[test]
fn invalid_format_two_colons() {
    let result = IOMax::build(Some("/dev/sda:10:00".into()), None, None, None);
    assert!(matches!(result, Err(IOMaxError::InvalidFormat)));
}

#[test]
fn lone_colon_fails_on_the_empty_device() {
    // The empty device name has no descriptor, and the device is checked
    // before the (also empty) limit.
    let result = IOMax::build(Some(":".into()), None, None, None);
    assert!(matches!(result, Err(IOMaxError::InvalidDevice)));
}

#[test]
fn unknown_device_decides_before_the_limit() {
    // With the device looked up first, an entry bad in both ways reports
    // the unknown device.
    let result = IOMax::build(Some("/dev/nonexistent:abc".into()), None, None, None);
    assert!(matches!(result, Err(IOMaxError::InvalidDevice)));
}

#[test]
fn valid_input() {
    if IOMax::device_path_to_major_minor("/dev/sda").is_err()
        || IOMax::device_path_to_major_minor("/dev/sdb").is_err()
    {
        // The devices this test assumes are not present on this machine.
        return;
    }
    let result = IOMax::build(
        Some("/dev/sda:1000000".into()),
        Some("/dev/sdb:2000000".into()),
        Some("/dev/sda:1000".into()),
        Some("/dev/sdb:2000".into()),
    );

    assert!(result.is_ok());
}

#[test]
fn first_failing_entry_decides() {
    // The second entry's format error is hit only once the first entry
    // passes its pure checks and fails on the device.
    let result = IOMax::build(
        Some("/dev/nonexistent:1000".into()),
        Some("nocolon".into()),
        None,
        None,
    );
    assert!(matches!(result, Err(IOMaxError::InvalidDevice)));
    let result = IOMax::build(
        Some("nocolon".into()),
        Some("/dev/nonexistent:1000".into()),
        None,
        None,
    );
    assert!(matches!(result, Err(IOMaxError::InvalidFormat)));
}

#[test]
fn resolver_is_repeatable() {
    let a = IOMax::device_path_to_major_minor("/dev/nonexistent");
    let b = IOMax::device_path_to_major_minor("/dev/nonexistent");
    assert!(matches!(a, Err(IOMaxError::InvalidDevice)));
    assert_eq!(a, b);
}

#[test]
fn descriptor_trimming_exact() {
    let r = IOMax::identifier_from_descriptor(&vec![b'2', b'5', b'4', b':', b'0', b'\n']);
    assert_eq!(r.unwrap(), "254:0");
    let r = IOMax::identifier_from_descriptor(&vec![b' ', b'\t', b'8', b':', b'0', b' ', b'\n']);
    assert_eq!(r.unwrap(), "8:0");
}

#[test]
fn descriptor_rejected_when_blank_or_unreadable() {
    let r = IOMax::identifier_from_descriptor(&vec![]);
    assert!(matches!(r, Err(IOMaxError::InvalidDevice)));
    let r = IOMax::identifier_from_descriptor(&vec![b' ', b'\n', b'\t']);
    assert!(matches!(r, Err(IOMaxError::InvalidDevice)));
    // Bytes that are no text cannot be read as a descriptor.
    let r = IOMax::identifier_from_descriptor(&vec![0xFF, 0xFE]);
    assert!(matches!(r, Err(IOMaxError::InvalidDevice)));
}

#[test]
fn descriptor_contents_returned_verbatim() {
    // Interior bytes are not interpreted: whatever the trimmed descriptor
    // holds comes back unchanged.
    let r = IOMax::identifier_from_descriptor(&vec![b'8', b' ', b'0', b'\n']);
    assert_eq!(r.unwrap(), "8 0");
    let two_byte_char = vec![0xC3, 0xA4];
    let r = IOMax::identifier_from_descriptor(&two_byte_char);
    assert_eq!(r.unwrap().as_bytes(), &two_byte_char[..]);
}

#[test]
fn descriptor_resolution_is_a_function_of_the_bytes() {
    let bytes = vec![b'1', b'1', b':', b'3', b'\n'];
    let a = IOMax::identifier_from_descriptor(&bytes);
    let b = IOMax::identifier_from_descriptor(&bytes);
    assert_eq!(a, b);
    assert_eq!(a.unwrap(), "11:3");
}

#[test]
fn existing_device_end_to_end() {
    // A virtual block device present on this machine; the resolver must
    // hand back the same identifier every time, and the serialized entry
    // is "<identifier> <limit>".
    let id = match IOMax::device_path_to_major_minor("/dev/vda") {
        Ok(id) => id,
        Err(_) => {
            // No such device on this machine: nothing further to check.
            return;
        },
    };
    assert_eq!(IOMax::device_path_to_major_minor("/dev/vda").unwrap(), id);
    assert!(!id.is_empty());

    let m = IOMax::build(
        Some("/dev/vda:1000000".into()),
        None,
        Some("/dev/vda:1000".into()),
        None,
    )
    .unwrap();
    assert_eq!(m.device_read_bps().unwrap(), format!("{} {}", id, 1000000));
    assert!(m.device_write_bps().is_none());
    assert_eq!(m.device_read_iops().unwrap(), format!("{} {}", id, 1000));
    assert!(m.device_write_iops().is_none());

    let lines = m.content_lines();
    assert_eq!(lines.len(), 2);
    assert_eq!(lines[0], format!("{} rbps={}", id, 1000000));
    assert_eq!(lines[1], format!("{} riops={}", id, 1000));
}

#[test]
fn limit_is_serialized_canonically() {
    let r = IOMax::validate_and_transform("/dev/vda:+0100");
    match r {
        Ok(t) => assert!(t.ends_with(" 100")),
        Err(e) => assert!(matches!(e, IOMaxError::InvalidDevice)),
    }
}

#[test]
fn descriptor_path_is_derived_from_the_short_name() {
    assert_eq!(IOMax::descriptor_path("/dev/sda"), "/sys/block/sda/dev");
    assert_eq!(IOMax::descriptor_path("sda"), "/sys/block/sda/dev");
    assert_eq!(IOMax::descriptor_path("/dev//dev/vda"), "/sys/block/vda/dev");
    assert_eq!(IOMax::descriptor_path(""), "/sys/block//dev");
}

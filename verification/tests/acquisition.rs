use nix::errno::Errno;
use rpi_gpio::error::display_form;
use rpi_gpio::hex::to_prefixed_hex;
use rpi_gpio::region::{
    detect_peripheral_base, device_path, device_request, map_failure, mapping_request,
    open_failure, step, DeviceRequest, MappingRequest, RegionAction, RegionEvent, RegionState,
    BCM2711_GPIO_BASE, GPIO_BLOCK_SIZE,
};
use rpi_gpio::Error;

#[test]
fn new_keeps_message_and_errno() {
    let plain = Error::new("no device".to_string(), None);
    assert_eq!(plain.message, "no device");
    assert_eq!(plain.errno, None);

    let with_errno = Error::new("no device".to_string(), Some(Errno::ENODEV));
    assert_eq!(with_errno.message, "no device");
    assert_eq!(with_errno.errno, Some(Errno::ENODEV));
}

#[test]
fn from_nix_keeps_the_errno() {
    let error = Error::from_nix("mapping refused".to_string(), Errno::EPERM);
    assert_eq!(error.message, "mapping refused");
    assert_eq!(error.errno, Some(Errno::EPERM));

    let other = Error::from_nix(String::new(), Errno::EINVAL);
    assert_eq!(other.message, "");
    assert_eq!(other.errno, Some(Errno::EINVAL));
}

#[test]
fn from_io_takes_the_os_error_number() {
    let denied = std::io::Error::from_raw_os_error(Errno::EACCES as i32);
    let error = Error::from_io("open failed".to_string(), denied);
    assert_eq!(error.message, "open failed");
    assert_eq!(error.errno, Some(Errno::EACCES));

    let missing = std::io::Error::from_raw_os_error(Errno::ENOENT as i32);
    assert_eq!(
        Error::from_io(String::new(), missing).errno,
        Some(Errno::ENOENT)
    );
}

#[test]
fn from_raw_os_error_names_the_number() {
    let denied = Error::from_raw_os_error("open failed".to_string(), Some(13));
    assert_eq!(denied.message, "open failed");
    assert_eq!(denied.errno, Some(Errno::EACCES));

    let none = Error::from_raw_os_error("open failed".to_string(), None);
    assert_eq!(none.message, "open failed");
    assert_eq!(none.errno, None);

    let unknown = Error::from_raw_os_error(String::new(), Some(987_654));
    assert_eq!(unknown.errno, Some(Errno::UnknownErrno));
    assert_eq!(unknown.to_string(), ": Unknown errno");
}

#[test]
fn from_io_without_os_error_has_no_errno() {
    let custom = std::io::Error::new(std::io::ErrorKind::Other, "not from the OS");
    let error = Error::from_io("open failed".to_string(), custom);
    assert_eq!(error.message, "open failed");
    assert_eq!(error.errno, None);
}

#[test]
fn display_is_the_message_alone_without_errno() {
    let error = Error::new("unsupported board".to_string(), None);
    assert_eq!(error.to_string(), "unsupported board");
    assert_eq!(Error::new(String::new(), None).to_string(), "");
}

#[test]
fn display_appends_the_description_of_the_errno() {
    let error = Error::new("failed to open /dev/mem".to_string(), Some(Errno::EACCES));
    assert_eq!(error.to_string(), "failed to open /dev/mem: Permission denied");

    let other = Error::new("x".to_string(), Some(Errno::ENOENT));
    assert_eq!(other.to_string(), "x: No such file or directory");
    assert_eq!(
        other.to_string(),
        format!("{}: {}", "x", Errno::ENOENT.desc())
    );
}

#[test]
fn display_form_joins_with_colon_and_space() {
    assert_eq!(display_form("message", None), "message");
    assert_eq!(display_form("message", Some("reason")), "message: reason");
    assert_eq!(display_form("", Some("")), ": ");
    assert_eq!(display_form("", None), "");
}

#[test]
fn peripheral_base_is_the_bcm2711_address() {
    assert!(matches!(detect_peripheral_base(), Ok(0xfe20_0000)));
    assert_eq!(BCM2711_GPIO_BASE, 0xfe20_0000);
}

#[test]
fn device_is_opened_read_write_and_never_created() {
    assert_eq!(device_path(), "/dev/mem");
    assert_eq!(
        device_request(),
        DeviceRequest {
            read: true,
            write: true,
            create: false
        }
    );
}

#[test]
fn mapping_is_one_shared_read_write_block_at_the_base() {
    assert_eq!(GPIO_BLOCK_SIZE, 256);
    assert_eq!(
        mapping_request(0xfe20_0000),
        MappingRequest {
            offset: 0xfe20_0000,
            length: 256,
            readable: true,
            writable: true,
            shared: true
        }
    );
    assert_eq!(mapping_request(0x3f20_0000).offset, 0x3f20_0000);
    assert_eq!(mapping_request(0).length, 0x100);
}

#[test]
fn two_plans_for_one_base_are_the_same() {
    assert_eq!(mapping_request(0xfe20_0000), mapping_request(0xfe20_0000));
    assert_eq!(device_request(), device_request());
}

#[test]
fn open_failure_names_the_path() {
    let denied = std::io::Error::from_raw_os_error(Errno::EACCES as i32);
    let error = open_failure("/dev/mem", denied);
    assert_eq!(error.message, "failed to open /dev/mem");
    assert_eq!(error.errno, Some(Errno::EACCES));
    assert_eq!(error.to_string(), "failed to open /dev/mem: Permission denied");

    let missing = std::io::Error::from_raw_os_error(Errno::ENOENT as i32);
    assert_eq!(open_failure("", missing).message, "failed to open ");
}

#[test]
fn map_failure_names_the_address_in_hex() {
    let error = map_failure(0xfe20_0000, Errno::EPERM);
    assert_eq!(
        error.message,
        "failed to map the GPIO (0xFE200000) from /dev/mem "
    );
    assert_eq!(error.errno, Some(Errno::EPERM));
    assert_eq!(
        error.to_string(),
        "failed to map the GPIO (0xFE200000) from /dev/mem : Operation not permitted"
    );
    for offset in [0i64, 1, 0x3f20_0000, i64::MAX, -1, i64::MIN] {
        assert_eq!(
            map_failure(offset, Errno::EINVAL).message,
            format!("failed to map the GPIO ({:#X}) from /dev/mem ", offset)
        );
    }
}

#[test]
fn prefixed_hex_has_upper_case_digits_and_no_leading_zeros() {
    assert_eq!(to_prefixed_hex(0), "0x0");
    assert_eq!(to_prefixed_hex(9), "0x9");
    assert_eq!(to_prefixed_hex(10), "0xA");
    assert_eq!(to_prefixed_hex(15), "0xF");
    assert_eq!(to_prefixed_hex(16), "0x10");
    assert_eq!(to_prefixed_hex(0xfe20_0000), "0xFE200000");
    assert_eq!(to_prefixed_hex(0x0123_4567_89ab_cdef), "0x123456789ABCDEF");
    assert_eq!(to_prefixed_hex(u64::MAX), "0xFFFFFFFFFFFFFFFF");
    for value in [0u64, 7, 255, 256, 4095, 4096, 0xdead_beef, 1 << 63] {
        assert_eq!(to_prefixed_hex(value), format!("{:#X}", value));
    }
}

#[test]
fn mapping_succeeds_then_is_released_once() {
    let (mapped, first) = step(RegionState::Unopened, RegionEvent::MapSucceeded);
    assert_eq!(mapped, RegionState::Mapped);
    assert_eq!(first, RegionAction::Nothing);

    let (released, second) = step(mapped, RegionEvent::Disposed);
    assert_eq!(released, RegionState::Released);
    assert_eq!(second, RegionAction::Unmap);

    let (after, third) = step(released, RegionEvent::Disposed);
    assert_eq!(after, RegionState::Released);
    assert_eq!(third, RegionAction::Nothing);
}

#[test]
fn failed_attempt_leaves_nothing_to_release() {
    let (state, action) = step(RegionState::Unopened, RegionEvent::MapFailed);
    assert_eq!(state, RegionState::Unopened);
    assert_eq!(action, RegionAction::Nothing);

    let (state, action) = step(state, RegionEvent::Disposed);
    assert_eq!(state, RegionState::Unopened);
    assert_eq!(action, RegionAction::Nothing);
}

#[test]
fn unmap_failure_is_not_answered() {
    let (state, action) = step(RegionState::Released, RegionEvent::UnmapFailed);
    assert_eq!(state, RegionState::Released);
    assert_eq!(action, RegionAction::Nothing);

    let (state, action) = step(RegionState::Released, RegionEvent::UnmapSucceeded);
    assert_eq!(state, RegionState::Released);
    assert_eq!(action, RegionAction::Nothing);
}

#[test]
fn released_is_terminal_and_mapped_is_kept_until_disposed() {
    let events = [
        RegionEvent::MapSucceeded,
        RegionEvent::MapFailed,
        RegionEvent::Disposed,
        RegionEvent::UnmapSucceeded,
        RegionEvent::UnmapFailed,
    ];
    for event in events {
        assert_eq!(
            step(RegionState::Released, event),
            (RegionState::Released, RegionAction::Nothing)
        );
        if event != RegionEvent::Disposed {
            assert_eq!(
                step(RegionState::Mapped, event),
                (RegionState::Mapped, RegionAction::Nothing)
            );
        }
    }
}

#[test]
fn no_run_of_events_unmaps_twice() {
    let events = [
        RegionEvent::MapSucceeded,
        RegionEvent::MapFailed,
        RegionEvent::Disposed,
        RegionEvent::UnmapSucceeded,
        RegionEvent::UnmapFailed,
    ];
    for start in [RegionState::Unopened, RegionState::Mapped, RegionState::Released] {
        for a in events {
            for b in events {
                for c in events {
                    for d in events {
                        let mut state = start;
                        let mut unmaps = 0;
                        for event in [a, b, c, d] {
                            let (next, action) = step(state, event);
                            if action == RegionAction::Unmap {
                                unmaps += 1;
                            }
                            state = next;
                        }
                        assert!(unmaps <= 1);
                        if start != RegionState::Released {
                            assert_eq!(state == RegionState::Released, unmaps == 1);
                        } else {
                            assert_eq!(unmaps, 0);
                        }
                    }
                }
            }
        }
    }
}

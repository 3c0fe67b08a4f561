use keysound::access::{open_request, OpenRequest};

#[test]
fn read_only_flags_open_for_reading_alone() {
    let flags = libc::O_RDONLY | libc::O_NONBLOCK | libc::O_CLOEXEC;
    let request = open_request(flags);
    assert_eq!(request, OpenRequest { read: true, write: false, custom_flags: flags });
}

#[test]
fn write_only_flags_open_for_writing_alone() {
    let flags = libc::O_WRONLY | libc::O_NOCTTY;
    let request = open_request(flags);
    assert_eq!(request, OpenRequest { read: false, write: true, custom_flags: flags });
}

#[test]
fn read_write_flags_open_for_both() {
    let flags = libc::O_RDWR | libc::O_NONBLOCK | libc::O_CLOEXEC;
    let request = open_request(flags);
    assert_eq!(request, OpenRequest { read: true, write: true, custom_flags: flags });
}

#[test]
fn bare_access_modes() {
    assert_eq!(open_request(0), OpenRequest { read: true, write: false, custom_flags: 0 });
    assert_eq!(open_request(1), OpenRequest { read: false, write: true, custom_flags: 1 });
    assert_eq!(open_request(2), OpenRequest { read: true, write: true, custom_flags: 2 });
}

#[test]
fn both_access_bits_open_for_both() {
    let flags = libc::O_WRONLY | libc::O_RDWR;
    let request = open_request(flags);
    assert!(request.read);
    assert!(request.write);
    assert_eq!(request.custom_flags, 3);
}

#[test]
fn other_flags_pass_through_and_change_no_access() {
    let extras = [
        libc::O_NONBLOCK,
        libc::O_NOCTTY,
        libc::O_CLOEXEC,
        libc::O_NONBLOCK | libc::O_NOCTTY | libc::O_CLOEXEC,
        i32::MIN,
        !3,
    ];
    for mode in 0..4 {
        let bare = open_request(mode);
        for extra in extras {
            let request = open_request(mode | extra);
            assert_eq!(request.custom_flags, mode | extra);
            assert_eq!(request.read, bare.read);
            assert_eq!(request.write, bare.write);
        }
    }
}

#[test]
fn every_flag_word_asks_for_some_access() {
    for flags in [0, 1, 2, 3, 4, 2048, 2049, 2050, 524288, -1, i32::MAX, i32::MIN] {
        let request = open_request(flags);
        assert!(request.read || request.write);
    }
}

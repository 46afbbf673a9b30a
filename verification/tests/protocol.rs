//! File kinds, open modes and their encodings.

use arigato::raw::{FileType, IoDirection, OpenMode};

#[test]
fn test_filetype() {
    for (ft, check) in [
        (FileType::File, 0u8),
        (FileType::Dir, 0x80),
        (FileType::Append, 0x40),
        (FileType::Excl, 0x20),
        (FileType::Auth, 0x08),
        (FileType::Tmp, 0x04),
        (FileType::Link, 0x02),
        (FileType::Device, 0x00),
        (FileType::NamedPipe, 0x00),
        (FileType::Socket, 0x00),
    ] {
        let byte: u8 = ft.into();
        assert_eq!(check, byte);
    }

    for (ft, check) in [
        (FileType::File, 0u32),
        (FileType::Dir, 0x80000000),
        (FileType::Append, 0x40000000),
        (FileType::Excl, 0x20000000),
        (FileType::Auth, 0x08000000),
        (FileType::Tmp, 0x04000000),
        (FileType::Link, 0x02000000),
        (FileType::Device, 0x00800000),
        (FileType::NamedPipe, 0x00200000),
        (FileType::Socket, 0x00100000),
    ] {
        let ftu: u32 = ft.into();
        assert_eq!(check, ftu);
        assert_eq!(ft, ftu.into());
    }
}

#[test]
fn filetype_from_mode_drops_permissions() {
    assert_eq!(FileType::Dir, FileType::from(0x80000000u32 | 0o755));
    assert_eq!(FileType::File, FileType::from(0o644u32));
    assert_eq!(FileType::Device, FileType::from(0x00800000u32 | 0o600));
}

#[test]
fn openmode_bits() {
    let read: OpenMode = 0u8.into();
    assert!(matches!(read.direction(), IoDirection::Read));
    assert!(!read.execute());
    assert!(!read.truncate());
    assert!(!read.remove());

    let write: OpenMode = 1u8.into();
    assert!(matches!(write.direction(), IoDirection::Write));

    let rdwr: OpenMode = 2u8.into();
    assert!(matches!(rdwr.direction(), IoDirection::ReadWrite));

    let exec: OpenMode = 3u8.into();
    assert!(matches!(exec.direction(), IoDirection::Read));
    assert!(exec.execute());

    let trunc: OpenMode = 0x11u8.into();
    assert!(trunc.truncate());
    assert!(matches!(trunc.direction(), IoDirection::Write));

    let rclose: OpenMode = 0x40u8.into();
    assert!(rclose.remove());
}

//! Tests for the plain data types of the API boundary.

use neotron_api::dir;
use neotron_api::file::{Attributes, Flags, Handle, Stat, Time};

#[test]
fn file_handle_round_trip() {
    let h = Handle::new(42);
    assert_eq!(h.value(), 42);
}

#[test]
fn standard_file_handles() {
    assert_eq!(Handle::new_stdin().value(), 0);
    assert_eq!(Handle::new_stdout().value(), 1);
    assert_eq!(Handle::new_stderr().value(), 2);
}

#[test]
fn dir_handle_round_trip() {
    let h = dir::Handle::new(7);
    assert_eq!(h.value(), 7);
    assert_eq!(dir::Handle::new(7), h);
}

#[test]
fn open_flags() {
    let write = Flags::from_bits(Flags::WRITE);
    let create = Flags::from_bits(Flags::CREATE);
    let truncate = Flags::from_bits(Flags::TRUNCATE);
    let all = write.union(create).union(truncate);
    assert_eq!(all.bits(), 0x07);
    assert!(all.contains(write));
    assert!(all.contains(create.union(truncate)));
    assert!(!write.contains(create));
    assert_eq!(all.intersection(create).bits(), 0x02);
    assert_eq!(Flags::empty().bits(), 0);
}

#[test]
fn attribute_bits() {
    assert_eq!(Attributes::READ_ONLY, 0x01);
    assert_eq!(Attributes::HIDDEN, 0x02);
    assert_eq!(Attributes::SYSTEM, 0x04);
    assert_eq!(Attributes::VOLUME, 0x08);
    assert_eq!(Attributes::DIRECTORY, 0x10);
    assert_eq!(Attributes::ARCHIVE, 0x20);
    assert_eq!(Attributes::DEVICE, 0x40);
    let dir_attr = Attributes::from_bits(Attributes::DIRECTORY);
    let archive = Attributes::from_bits(Attributes::ARCHIVE);
    let both = dir_attr.union(archive);
    assert_eq!(both.bits(), 0x30);
    assert!(both.contains(dir_attr));
    assert!(!dir_attr.contains(both));
}

#[test]
fn time_ordering_and_equality() {
    let earlier = Time {
        year_since_1970: 53,
        zero_indexed_month: 5,
        zero_indexed_day: 10,
        hours: 12,
        minutes: 30,
        seconds: 0,
    };
    let later = Time {
        year_since_1970: 53,
        zero_indexed_month: 5,
        zero_indexed_day: 10,
        hours: 12,
        minutes: 30,
        seconds: 1,
    };
    assert_eq!(earlier, earlier);
    assert_ne!(earlier, later);
    assert!(earlier < later);
}

#[test]
fn directory_entry() {
    let time = Time {
        year_since_1970: 53,
        zero_indexed_month: 5,
        zero_indexed_day: 10,
        hours: 12,
        minutes: 30,
        seconds: 0,
    };
    let stat = Stat {
        file_size: 1234,
        ctime: time,
        mtime: time,
        attr: Attributes::from_bits(Attributes::ARCHIVE),
    };
    let name: [u8; neotron_api::MAX_FILENAME_LEN] = *b"HELLO  .TXT";
    let entry = dir::Entry {
        name,
        properties: stat.clone(),
    };
    assert_eq!(entry.name.len(), 11);
    assert_eq!(entry.properties, stat);
    assert_eq!(entry.properties.file_size, 1234);
    assert_eq!(entry.properties.attr.bits(), 0x20);
}

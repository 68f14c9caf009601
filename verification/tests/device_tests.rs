use std::path::PathBuf;
use time::Duration;
use udev::device::{device, device_get_dev, Device, Type};
use udev::iterator::ListEntry;
use udev::record::{DeviceRecord, Reading, SysAttr};
use udev::table::Table;
use udev::udev::Udev;
use udev::util::{Error, Fatal};

fn name(text: &str) -> ListEntry {
    ListEntry { name: text.to_string(), value: None }
}

fn pair(key: &str, value: &str) -> ListEntry {
    ListEntry { name: key.to_string(), value: Some(value.to_string()) }
}

fn text(key: &str, value: &str) -> SysAttr {
    SysAttr { name: key.to_string(), value: Reading::Text(value.to_string()) }
}

fn refused(key: &str, code: i32) -> SysAttr {
    SysAttr { name: key.to_string(), value: Reading::Refused(code) }
}

fn loopback() -> DeviceRecord {
    let mut record = DeviceRecord::new("/sys/devices/virtual/net/lo", "/devices/virtual/net/lo", "lo");
    record.subsystem = Some("net".to_string());
    record.values = vec![text("flags", "73"), refused("secret", libc::EACCES), text("mtu", "65536")];
    record.attributes = vec![name("flags"), name("secret"), name("mtu")];
    record.properties = vec![pair("INTERFACE", "lo"), pair("IFINDEX", "1"), name("EMPTY")];
    record.tags = vec![name("systemd")];
    record
}

/// A usb host, a disk below it and a partition below the disk.
fn disk_tree(udev: &Udev) -> (Table<'_>, Device<'_>, Device<'_>, Device<'_>) {
    let mut table = Table::new(udev);
    let mut host = DeviceRecord::new("/sys/devices/pci0/usb1", "/devices/pci0/usb1", "usb1");
    host.subsystem = Some("usb".to_string());
    host.devtype = Some("usb_device".to_string());
    host.driver = Some("usb".to_string());
    let host = table.attach(host).unwrap();
    let mut disk = DeviceRecord::new("/sys/devices/pci0/usb1/sda", "/devices/pci0/usb1/sda", "sda");
    disk.parent = Some(device_get_dev(&host));
    disk.subsystem = Some("block".to_string());
    disk.devtype = Some("disk".to_string());
    disk.devnode = Some("/dev/sda".to_string());
    disk.devnum = 0x800;
    let disk = table.attach(disk).unwrap();
    let mut part = DeviceRecord::new("/sys/devices/pci0/usb1/sda/sda1", "/devices/pci0/usb1/sda/sda1", "sda1");
    part.parent = Some(device_get_dev(&disk));
    part.subsystem = Some("block".to_string());
    part.devtype = Some("partition".to_string());
    part.devnode = Some("/dev/sda1".to_string());
    part.devnum = 0x801;
    part.devlinks = vec![name("/dev/disk/by-label/data"), name("/dev/disk/by-uuid/1234")];
    part.tags = vec![name("systemd"), name("seat")];
    part.usec_since_initialized = 1_500_000;
    part.is_initialized = 1;
    let part = table.attach(part).unwrap();
    (table, host, disk, part)
}

#[test]
fn attribute_of_loopback_reads_as_stored() {
    let udev = Udev::new(Some(1)).unwrap();
    let mut table = Table::new(&udev);
    let lo = table.attach(loopback()).unwrap();
    assert_eq!(lo.attribute(&table, "flags"), Ok("73"));
    assert_eq!(lo.attribute(&table, "mtu"), Ok("65536"));
}

#[test]
fn missing_attribute_is_not_found() {
    let udev = Udev::new(Some(1)).unwrap();
    let mut table = Table::new(&udev);
    let lo = table.attach(loopback()).unwrap();
    assert_eq!(lo.attribute(&table, "missing"), Err(Error::NotFound));
    assert_eq!(lo.attribute(&table, ""), Err(Error::NotFound));
    assert_eq!(lo.attribute(&table, "flag"), Err(Error::NotFound));
}

#[test]
fn refused_attribute_is_system_error() {
    let udev = Udev::new(Some(1)).unwrap();
    let mut table = Table::new(&udev);
    let lo = table.attach(loopback()).unwrap();
    assert_eq!(lo.attribute(&table, "secret"), Err(Error::SystemError(libc::EACCES)));
}

#[test]
fn first_entry_of_a_name_is_the_one_read() {
    let udev = Udev::new(Some(1)).unwrap();
    let mut table = Table::new(&udev);
    let mut record = loopback();
    record.values = vec![text("a", "1"), refused("a", 5), text("a", "2")];
    let dev = table.attach(record).unwrap();
    assert_eq!(dev.attribute(&table, "a"), Ok("1"));
    let mut record = loopback();
    record.values = vec![refused("a", 5), text("a", "2")];
    let dev = table.attach(record).unwrap();
    assert_eq!(dev.attribute(&table, "a"), Err(Error::SystemError(5)));
}

#[test]
fn written_attribute_reads_back() {
    let udev = Udev::new(Some(1)).unwrap();
    let mut table = Table::new(&udev);
    let lo = table.attach(loopback()).unwrap();
    assert_eq!(lo.set_attribute(&mut table, "flags", "74", 0), Ok(()));
    assert_eq!(lo.attribute(&table, "flags"), Ok("74"));
    assert_eq!(lo.attribute(&table, "mtu"), Ok("65536"));
    assert_eq!(lo.attribute(&table, "secret"), Err(Error::SystemError(libc::EACCES)));
    assert_eq!(lo.set_attribute(&mut table, "fresh", "x", 0), Ok(()));
    assert_eq!(lo.attribute(&table, "fresh"), Ok("x"));
    assert_eq!(lo.set_attribute(&mut table, "secret", "open", 0), Ok(()));
    assert_eq!(lo.attribute(&table, "secret"), Ok("open"));
    assert_eq!(table.handles_on(0), Some(1));
}

#[test]
fn refused_write_changes_nothing() {
    let udev = Udev::new(Some(1)).unwrap();
    let mut table = Table::new(&udev);
    let lo = table.attach(loopback()).unwrap();
    assert_eq!(lo.set_attribute(&mut table, "flags", "74", -libc::EACCES), Err(Error::SystemError(libc::EACCES)));
    assert_eq!(lo.set_attribute(&mut table, "flags", "74", -1), Err(Error::SystemError(1)));
    assert_eq!(lo.set_attribute(&mut table, "flags", "74", -i32::MAX), Err(Error::SystemError(i32::MAX)));
    assert_eq!(lo.attribute(&table, "flags"), Ok("73"));
}

#[test]
fn impossible_write_status_is_a_bug() {
    let udev = Udev::new(Some(1)).unwrap();
    let mut table = Table::new(&udev);
    let lo = table.attach(loopback()).unwrap();
    assert_eq!(lo.set_attribute(&mut table, "flags", "74", 1), Err(Error::Fatal(Fatal::Bug)));
    assert_eq!(lo.set_attribute(&mut table, "flags", "74", i32::MAX), Err(Error::Fatal(Fatal::Bug)));
    assert_eq!(lo.set_attribute(&mut table, "flags", "74", i32::MIN), Err(Error::Fatal(Fatal::Bug)));
    assert_eq!(lo.attribute(&table, "flags"), Ok("73"));
}

#[test]
fn plain_accessors_read_the_record() {
    let udev = Udev::new(Some(1)).unwrap();
    let (table, host, disk, part) = disk_tree(&udev);
    assert_eq!(part.devpath(&table), "/devices/pci0/usb1/sda/sda1");
    assert_eq!(part.sysname(&table), "sda1");
    assert_eq!(part.subsystem(&table), Some("block"));
    assert_eq!(part.devtype(&table), Some("partition"));
    assert_eq!(part.driver(&table), None);
    assert_eq!(host.driver(&table), Some("usb"));
    assert_eq!(disk.sysname(&table), "sda");
    let mut table = table;
    let bare = table.attach(DeviceRecord::new("/sys/x", "/x", "x")).unwrap();
    assert_eq!(bare.subsystem(&table), None);
    assert_eq!(bare.devtype(&table), None);
}

#[test]
fn paths_come_out_as_paths() {
    let udev = Udev::new(Some(1)).unwrap();
    let (table, host, _disk, part) = disk_tree(&udev);
    assert_eq!(part.syspath(&table), PathBuf::from("/sys/devices/pci0/usb1/sda/sda1"));
    assert_eq!(part.devnode(&table), Some(PathBuf::from("/dev/sda1")));
    assert_eq!(host.devnode(&table), None);
    assert_ne!(part.syspath(&table), PathBuf::from(""));
}

#[test]
fn sysnum_follows_the_name() {
    let udev = Udev::new(Some(1)).unwrap();
    let (mut table, host, disk, part) = disk_tree(&udev);
    assert_eq!(part.sysnum(&table), Some(1));
    assert_eq!(disk.sysnum(&table), None);
    assert_eq!(host.sysnum(&table), Some(1));
    let lo = table.attach(loopback()).unwrap();
    assert_eq!(lo.sysnum(&table), None);
    let wlan = table.attach(DeviceRecord::new("/sys/class/net/wlan3", "/class/net/wlan3", "wlan3")).unwrap();
    assert_eq!(wlan.sysnum(&table), Some(3));
    let usb = table.attach(DeviceRecord::new("/sys/bus/usb/usb12", "/bus/usb/usb12", "usb12")).unwrap();
    assert_eq!(usb.sysnum(&table), Some(12));
}

#[test]
fn devnum_zero_is_none() {
    let udev = Udev::new(Some(1)).unwrap();
    let (table, host, disk, part) = disk_tree(&udev);
    assert_eq!(host.devnum(&table), None);
    assert_eq!(disk.devnum(&table), Some(0x800));
    assert_eq!(part.devnum(&table), Some(0x801));
}

#[test]
fn time_since_initialized_counts_microseconds() {
    let udev = Udev::new(Some(1)).unwrap();
    let (mut table, host, _disk, part) = disk_tree(&udev);
    assert_eq!(host.time_since_initialized(&table), None);
    assert_eq!(part.time_since_initialized(&table), Some(Duration::microseconds(1_500_000)));
    assert_eq!(part.time_since_initialized(&table), Some(Duration::milliseconds(1_500)));
    let mut one = DeviceRecord::new("/sys/one", "/one", "one");
    one.usec_since_initialized = 1;
    let one = table.attach(one).unwrap();
    assert_eq!(one.time_since_initialized(&table), Some(Duration::microseconds(1)));
    assert_ne!(one.time_since_initialized(&table), Some(Duration::seconds(1)));
}

#[test]
fn time_counter_wraps_in_its_upper_half() {
    let udev = Udev::new(Some(1)).unwrap();
    let mut table = Table::new(&udev);
    let mut top = DeviceRecord::new("/sys/top", "/top", "top");
    top.usec_since_initialized = i64::MAX as u64;
    let top = table.attach(top).unwrap();
    assert_eq!(top.time_since_initialized(&table), Some(Duration::microseconds(i64::MAX)));
    let mut over = DeviceRecord::new("/sys/over", "/over", "over");
    over.usec_since_initialized = i64::MAX as u64 + 1;
    let over = table.attach(over).unwrap();
    assert_eq!(over.time_since_initialized(&table), Some(Duration::microseconds(i64::MIN)));
    let mut last = DeviceRecord::new("/sys/last", "/last", "last");
    last.usec_since_initialized = u64::MAX;
    let last = table.attach(last).unwrap();
    assert_eq!(last.time_since_initialized(&table), Some(Duration::microseconds(-1)));
}

#[test]
fn initialized_is_any_nonzero() {
    let udev = Udev::new(Some(1)).unwrap();
    let (mut table, host, _disk, part) = disk_tree(&udev);
    assert!(part.is_initialized(&table));
    assert!(!host.is_initialized(&table));
    let mut odd = DeviceRecord::new("/sys/odd", "/odd", "odd");
    odd.is_initialized = -3;
    let odd = table.attach(odd).unwrap();
    assert!(odd.is_initialized(&table));
}

#[test]
fn tags_are_found_by_exact_name() {
    let udev = Udev::new(Some(1)).unwrap();
    let (table, host, _disk, part) = disk_tree(&udev);
    assert!(part.has_tag(&table, "systemd"));
    assert!(part.has_tag(&table, "seat"));
    assert!(!part.has_tag(&table, "sea"));
    assert!(!part.has_tag(&table, "seats"));
    assert!(!part.has_tag(&table, ""));
    assert!(!host.has_tag(&table, "systemd"));
}

#[test]
fn tags_come_in_order() {
    let udev = Udev::new(Some(1)).unwrap();
    let (table, host, _disk, part) = disk_tree(&udev);
    let mut tags = part.iter_tags(&table);
    assert_eq!(tags.next(), Some("systemd"));
    assert_eq!(tags.next(), Some("seat"));
    assert_eq!(tags.next(), None);
    assert_eq!(tags.next(), None);
    let mut none = host.iter_tags(&table);
    assert_eq!(none.next(), None);
}

#[test]
fn attribute_names_come_in_order() {
    let udev = Udev::new(Some(1)).unwrap();
    let mut table = Table::new(&udev);
    let lo = table.attach(loopback()).unwrap();
    let mut names = lo.iter_attributes(&table);
    assert_eq!(names.next(), Some("flags"));
    assert_eq!(names.next(), Some("secret"));
    assert_eq!(names.next(), Some("mtu"));
    assert_eq!(names.next(), None);
}

#[test]
fn properties_come_with_their_values() {
    let udev = Udev::new(Some(1)).unwrap();
    let mut table = Table::new(&udev);
    let lo = table.attach(loopback()).unwrap();
    let mut properties = lo.iter_properties(&table);
    assert_eq!(properties.next(), Some(("INTERFACE", Some("lo"))));
    assert_eq!(properties.next(), Some(("IFINDEX", Some("1"))));
    assert_eq!(properties.next(), Some(("EMPTY", None)));
    assert_eq!(properties.next(), None);
}

#[test]
fn devlinks_come_as_paths() {
    let udev = Udev::new(Some(1)).unwrap();
    let (table, host, _disk, part) = disk_tree(&udev);
    let mut links = part.iter_devlinks(&table);
    assert_eq!(links.next(), Some(PathBuf::from("/dev/disk/by-label/data")));
    assert_eq!(links.next(), Some(PathBuf::from("/dev/disk/by-uuid/1234")));
    assert_eq!(links.next(), None);
    let mut none = host.iter_devlinks(&table);
    assert_eq!(none.next(), None);
}

#[test]
fn each_accessor_call_walks_from_the_head() {
    let udev = Udev::new(Some(1)).unwrap();
    let mut table = Table::new(&udev);
    let lo = table.attach(loopback()).unwrap();
    let mut first = lo.iter_properties(&table);
    assert_eq!(first.next(), Some(("INTERFACE", Some("lo"))));
    let mut second = lo.iter_properties(&table);
    assert_eq!(second.next(), Some(("INTERFACE", Some("lo"))));
    assert_eq!(first.next(), Some(("IFINDEX", Some("1"))));
    let mut one = Vec::new();
    let mut walk = lo.iter_properties(&table);
    while let Some(item) = walk.next() {
        one.push(item);
    }
    let mut two = Vec::new();
    let mut walk = lo.iter_properties(&table);
    while let Some(item) = walk.next() {
        two.push(item);
    }
    assert_eq!(one.len(), 3);
    assert_eq!(one, two);
}

#[test]
fn parent_is_a_counted_handle() {
    let udev = Udev::new(Some(1)).unwrap();
    let (mut table, host, disk, part) = disk_tree(&udev);
    assert_eq!(table.handles_on(1), Some(1));
    let up = part.parent(&mut table).unwrap();
    assert_eq!(device_get_dev(&up), device_get_dev(&disk));
    assert_eq!(table.handles_on(1), Some(2));
    let again = part.parent(&mut table).unwrap();
    assert_eq!(table.handles_on(1), Some(3));
    assert_eq!(up, again);
    assert!(host.parent(&mut table).is_none());
    assert_eq!(table.handles_on(0), Some(1));
    assert_eq!(table.handles_on(2), Some(1));
    up.release(&mut table);
    again.release(&mut table);
    assert_eq!(table.handles_on(1), Some(1));
}

#[test]
fn nearest_ancestor_of_subsystem_is_found() {
    let udev = Udev::new(Some(1)).unwrap();
    let (mut table, host, disk, part) = disk_tree(&udev);
    let block = part.parent_with_subsystem(&mut table, "block").unwrap();
    assert_eq!(block, disk);
    let usb = part.parent_with_subsystem(&mut table, "usb").unwrap();
    assert_eq!(usb, host);
    assert!(part.parent_with_subsystem(&mut table, "pci").is_none());
    assert!(part.parent_with_subsystem(&mut table, "").is_none());
    assert!(disk.parent_with_subsystem(&mut table, "block").is_none());
    assert!(host.parent_with_subsystem(&mut table, "usb").is_none());
    assert_eq!(table.handles_on(0), Some(2));
    assert_eq!(table.handles_on(1), Some(2));
    assert_eq!(table.handles_on(2), Some(1));
}

#[test]
fn nearest_ancestor_of_subsystem_and_devtype_is_found() {
    let udev = Udev::new(Some(1)).unwrap();
    let (mut table, host, disk, part) = disk_tree(&udev);
    let found = part.parent_with_subsystem_devtype(&mut table, "block", "disk").unwrap();
    assert_eq!(found, disk);
    let found = part.parent_with_subsystem_devtype(&mut table, "usb", "usb_device").unwrap();
    assert_eq!(found, host);
    assert!(part.parent_with_subsystem_devtype(&mut table, "block", "partition").is_none());
    assert!(part.parent_with_subsystem_devtype(&mut table, "usb", "usb_interface").is_none());
    assert!(part.parent_with_subsystem_devtype(&mut table, "usb", "disk").is_none());
}

#[test]
fn nearer_ancestor_that_does_not_match_is_passed_over() {
    let udev = Udev::new(Some(1)).unwrap();
    let mut table = Table::new(&udev);
    let mut host = DeviceRecord::new("/sys/h", "/h", "usb1");
    host.subsystem = Some("usb".to_string());
    host.devtype = Some("usb_device".to_string());
    let host = table.attach(host).unwrap();
    let mut hub = DeviceRecord::new("/sys/h/d", "/h/d", "1-1");
    hub.parent = Some(0);
    hub.subsystem = Some("usb".to_string());
    hub.devtype = Some("usb_device".to_string());
    let hub = table.attach(hub).unwrap();
    let mut face = DeviceRecord::new("/sys/h/d/i", "/h/d/i", "1-1:1.0");
    face.parent = Some(1);
    face.subsystem = Some("usb".to_string());
    face.devtype = Some("usb_interface".to_string());
    let face = table.attach(face).unwrap();
    let mut leaf = DeviceRecord::new("/sys/h/d/i/l", "/h/d/i/l", "input0");
    leaf.parent = Some(2);
    leaf.subsystem = Some("input".to_string());
    let leaf = table.attach(leaf).unwrap();
    assert_eq!(leaf.parent_with_subsystem(&mut table, "usb"), Some(face));
    assert_eq!(leaf.parent_with_subsystem_devtype(&mut table, "usb", "usb_device"), Some(hub));
    let hub = leaf.parent_with_subsystem_devtype(&mut table, "usb", "usb_device").unwrap();
    assert_eq!(hub.parent_with_subsystem_devtype(&mut table, "usb", "usb_device"), Some(host));
    assert_eq!(leaf.parent_with_subsystem(&mut table, "input"), None);
    assert_eq!(table.handles_on(0), Some(2));
    assert_eq!(table.handles_on(1), Some(3));
    assert_eq!(table.handles_on(2), Some(2));
    assert_eq!(table.handles_on(3), Some(1));
}

#[test]
fn name_with_nul_is_a_name_like_any_other() {
    let udev = Udev::new(Some(1)).unwrap();
    let mut table = Table::new(&udev);
    let lo = table.attach(loopback()).unwrap();
    assert_eq!(lo.attribute(&table, "flags\0"), Err(Error::NotFound));
    assert_eq!(lo.attribute(&table, "fla\0gs"), Err(Error::NotFound));
    assert!(!lo.has_tag(&table, "systemd\0"));
    assert!(lo.parent_with_subsystem(&mut table, "net\0").is_none());
    assert!(udev.device(&mut table, "/sys/devices/virtual/net/lo\0").is_none());
}

#[test]
fn ancestor_without_devtype_does_not_match_a_devtype() {
    let udev = Udev::new(Some(1)).unwrap();
    let mut table = Table::new(&udev);
    let mut top = DeviceRecord::new("/sys/a", "/a", "a");
    top.subsystem = Some("usb".to_string());
    let top = table.attach(top).unwrap();
    let mut leaf = DeviceRecord::new("/sys/a/b", "/a/b", "b");
    leaf.parent = Some(0);
    let leaf = table.attach(leaf).unwrap();
    assert!(leaf.parent_with_subsystem_devtype(&mut table, "usb", "usb_device").is_none());
    assert_eq!(leaf.parent_with_subsystem(&mut table, "usb"), Some(top));
}

#[test]
fn handles_taken_and_released_leave_the_count_where_it_was() {
    let udev = Udev::new(Some(1)).unwrap();
    let (mut table, _host, _disk, part) = disk_tree(&udev);
    let before = table.handles_on(1);
    for n in 0..25usize {
        let mut taken = Vec::new();
        for _ in 0..n {
            taken.push(part.parent(&mut table).unwrap());
        }
        assert_eq!(table.handles_on(1), before.map(|count| count + n as u64));
        let mut given = 0u64;
        for handle in taken {
            assert!(table.is_live(&handle));
            handle.release(&mut table);
            given += 1;
            assert_eq!(table.handles_on(1), before.map(|count| count + n as u64 - given));
        }
        assert_eq!(table.handles_on(1), before);
        assert_eq!(table.handles_on(0), Some(1));
        assert_eq!(table.handles_on(2), Some(1));
    }
}

#[test]
fn released_handle_is_dead() {
    let udev = Udev::new(Some(1)).unwrap();
    let mut table = Table::new(&udev);
    let lo = table.attach(loopback()).unwrap();
    let raw = device_get_dev(&lo);
    assert!(table.is_live(&lo));
    let twin = udev.device(&mut table, "/sys/devices/virtual/net/lo").unwrap();
    lo.release(&mut table);
    assert!(table.is_live(&twin));
    assert_eq!(table.handles_on(raw), Some(1));
    twin.release(&mut table);
    assert_eq!(table.handles_on(raw), Some(0));
}

#[test]
fn raw_handle_round_trips() {
    let udev = Udev::new(Some(1)).unwrap();
    let (table, _host, disk, _part) = disk_tree(&udev);
    let raw = device_get_dev(&disk);
    assert_eq!(raw, 1);
    let same = device(&udev, raw);
    assert_eq!(same, disk);
    assert_eq!(device_get_dev(&same), raw);
    assert_eq!(same.sysname(&table), "sda");
}

#[test]
fn kinds_of_node_have_their_letters() {
    assert_eq!(Type::Char.to_char(), 'c' as i8);
    assert_eq!(Type::Block.to_char(), 'b' as i8);
    assert_eq!(Type::Char.to_char(), 99);
    assert_eq!(Type::Block.to_char(), 98);
}

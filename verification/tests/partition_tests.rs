use pamusb::partition::{find_partition_by_uuids, DeviceInfo};

fn dev(devtype: Option<&str>, uuid: Option<&str>, node: Option<&str>, fs: Option<&str>) -> DeviceInfo {
    DeviceInfo {
        devtype: devtype.map(|s| s.as_bytes().to_vec()),
        partuuid: uuid.map(|s| s.as_bytes().to_vec()),
        devnode: node.map(|s| s.as_bytes().to_vec()),
        fs_type: fs.map(|s| s.as_bytes().to_vec()),
    }
}

fn uuids(u: &[&str]) -> Vec<String> {
    u.iter().map(|s| s.to_string()).collect()
}

#[test]
fn finds_first_matching_partition() {
    let devices = vec![
        dev(Some("disk"), Some("aaaa"), Some("/dev/sda"), Some("vfat")),
        dev(Some("partition"), Some("bbbb"), Some("/dev/sda1"), Some("ext4")),
        dev(Some("partition"), Some("aaaa"), Some("/dev/sdb1"), Some("vfat")),
        dev(Some("partition"), Some("cccc"), Some("/dev/sdc1"), Some("exfat")),
    ];
    let p = find_partition_by_uuids(&devices, &uuids(&["cccc", "aaaa"])).unwrap();
    assert_eq!(p.devnode, b"/dev/sdb1".to_vec());
    assert_eq!(p.fs_type, b"vfat".to_vec());
    assert_eq!(p.uuid, "aaaa");
}

#[test]
fn skips_partitions_without_node_or_fs_type() {
    let devices = vec![
        dev(Some("partition"), Some("aaaa"), None, Some("vfat")),
        dev(Some("partition"), Some("aaaa"), Some("/dev/sdb1"), None),
        dev(None, Some("aaaa"), Some("/dev/sdc1"), Some("vfat")),
        dev(Some("partition"), None, Some("/dev/sdd1"), Some("vfat")),
        dev(Some("partition"), Some("aaaa"), Some("/dev/sde1"), Some("ext2")),
    ];
    let p = find_partition_by_uuids(&devices, &uuids(&["aaaa"])).unwrap();
    assert_eq!(p.devnode, b"/dev/sde1".to_vec());
    assert_eq!(p.fs_type, b"ext2".to_vec());
}

#[test]
fn no_partition_when_nothing_matches() {
    let devices = vec![
        dev(Some("partition"), Some("AAAA"), Some("/dev/sda1"), Some("vfat")),
        dev(Some("partition"), Some("aaa"), Some("/dev/sda2"), Some("vfat")),
    ];
    assert!(find_partition_by_uuids(&devices, &uuids(&["aaaa"])).is_none());
    assert!(find_partition_by_uuids(&[], &uuids(&["aaaa"])).is_none());
    assert!(find_partition_by_uuids(&devices, &[]).is_none());
}

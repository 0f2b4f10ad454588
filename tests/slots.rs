use indexmap::IndexMap;
use rugix_core::config::{BlockSlotConfig, CustomSlotConfig, FileSlotConfig, SlotConfig};
use rugix_core::slots::{
    default_slot_config, BlockDevice, PartitionTableType, RootPartition, SlotKind, SlotsError,
    SystemRoot, SystemSlots,
};

fn root(table: Option<PartitionTableType>, numbers: &[u32]) -> SystemRoot {
    SystemRoot {
        table,
        partitions: numbers
            .iter()
            .map(|n| RootPartition { number: *n, device: BlockDevice::new(format!("/dev/sda{n}")) })
            .collect(),
    }
}

fn device_of(slots: &SystemSlots, name: &str) -> String {
    let (_, slot) = slots.find_by_name(name).unwrap();
    match slot.kind() {
        SlotKind::Block(b) => b.device().path().to_string(),
        _ => panic!("not a block slot"),
    }
}

#[test]
fn no_config_and_no_root_fails() {
    assert!(matches!(SystemSlots::from_config(None, None), Err(SlotsError::NoSystemRoot)));
}

#[test]
fn no_config_and_no_table_fails() {
    let r = root(None, &[1, 2, 3]);
    assert!(matches!(SystemSlots::from_config(Some(&r), None), Err(SlotsError::NoPartitionTable)));
}

#[test]
fn mbr_defaults() {
    let r = root(Some(PartitionTableType::Mbr), &[1, 2, 3, 4, 5, 6, 7]);
    let slots = SystemSlots::from_config(Some(&r), None).unwrap();
    let names: Vec<&str> = slots.iter().iter().map(|(_, s)| s.name()).collect();
    assert_eq!(names, vec!["boot-a", "boot-b", "system-a", "system-b"]);
    assert_eq!(device_of(&slots, "boot-a"), "/dev/sda2");
    assert_eq!(device_of(&slots, "boot-b"), "/dev/sda3");
    assert_eq!(device_of(&slots, "system-a"), "/dev/sda5");
    assert_eq!(device_of(&slots, "system-b"), "/dev/sda6");
    assert!(!slots.find_by_name("boot-a").unwrap().1.is_immutable());
    assert!(slots.find_by_name("system-b").unwrap().1.is_immutable());
    assert!(slots.iter().iter().all(|(_, s)| s.is_block() && !s.active()));
}

#[test]
fn gpt_defaults() {
    let r = root(Some(PartitionTableType::Gpt), &[1, 2, 3, 4, 5]);
    let slots = SystemSlots::from_config(Some(&r), None).unwrap();
    assert_eq!(slots.len(), 4);
    assert_eq!(device_of(&slots, "boot-a"), "/dev/sda2");
    assert_eq!(device_of(&slots, "boot-b"), "/dev/sda3");
    assert_eq!(device_of(&slots, "system-a"), "/dev/sda4");
    assert_eq!(device_of(&slots, "system-b"), "/dev/sda5");
}

#[test]
fn missing_default_partition_fails() {
    let r = root(Some(PartitionTableType::Mbr), &[1, 2, 3, 4, 5]);
    match SystemSlots::from_config(Some(&r), None) {
        Err(SlotsError::PartitionNotFound { slot, partition }) => {
            assert_eq!(slot, "system-b");
            assert_eq!(partition, 6);
        }
        other => panic!("unexpected: {:?}", other.map(|s| s.len())),
    }
}

fn explicit_config() -> IndexMap<String, SlotConfig> {
    let mut m = IndexMap::new();
    m.insert(
        "rootfs".to_string(),
        SlotConfig::Block(BlockSlotConfig {
            device: Some("/dev/mmcblk0p2".to_string()),
            partition: None,
            immutable: Some(true),
        }),
    );
    m.insert(
        "data".to_string(),
        SlotConfig::File(FileSlotConfig { path: "/var/data.img".to_string(), immutable: None }),
    );
    m.insert(
        "app".to_string(),
        SlotConfig::Custom(CustomSlotConfig {
            handler: vec!["install-app".to_string(), "--force".to_string()],
        }),
    );
    m
}

#[test]
fn explicit_config_builds_slots_in_order() {
    let m = explicit_config();
    let slots = SystemSlots::from_config(None, Some(&m)).unwrap();
    let entries = slots.iter();
    assert_eq!(entries.len(), 3);
    assert_eq!(entries[0].1.name(), "rootfs");
    assert_eq!(entries[1].1.name(), "data");
    assert_eq!(entries[2].1.name(), "app");
    assert_eq!(device_of(&slots, "rootfs"), "/dev/mmcblk0p2");
    assert!(entries[0].1.is_immutable());
    assert!(!entries[1].1.is_immutable());
    assert!(!entries[2].1.is_immutable());
    match entries[1].1.kind() {
        SlotKind::File { path } => assert_eq!(path, "/var/data.img"),
        _ => panic!("not a file slot"),
    }
    match entries[2].1.kind() {
        SlotKind::Custom { handler } => assert_eq!(handler, &vec!["install-app", "--force"]),
        _ => panic!("not a custom slot"),
    }
    assert!(!entries[2].1.is_block());
}

#[test]
fn block_slot_without_device_or_partition_fails() {
    let mut m = IndexMap::new();
    m.insert(
        "broken".to_string(),
        SlotConfig::Block(BlockSlotConfig { device: None, partition: None, immutable: None }),
    );
    match SystemSlots::from_config(None, Some(&m)) {
        Err(SlotsError::MissingDeviceAndPartition { slot }) => assert_eq!(slot, "broken"),
        _ => panic!("expected an error"),
    }
}

#[test]
fn block_slot_partition_without_root_fails() {
    let mut m = IndexMap::new();
    m.insert("boot".to_string(), default_slot_config(2, false));
    assert!(matches!(SystemSlots::from_config(None, Some(&m)), Err(SlotsError::NoSystemRoot)));
    let r = root(None, &[1]);
    assert!(matches!(
        SystemSlots::from_config(Some(&r), Some(&m)),
        Err(SlotsError::PartitionNotFound { partition: 2, .. })
    ));
}

#[test]
fn find_by_name_and_mark_active() {
    let r = root(Some(PartitionTableType::Mbr), &[2, 3, 5, 6]);
    let mut slots = SystemSlots::from_config(Some(&r), None).unwrap();
    assert!(slots.find_by_name("system-c").is_none());
    let (idx, slot) = slots.find_by_name("system-a").unwrap();
    assert_eq!(idx.position(), 2);
    assert_eq!(slot.name(), "system-a");
    assert!(!slots.index(idx).active());
    slots.mark_active(idx);
    assert!(slots.index(idx).active());
    for (other, slot) in slots.iter() {
        if other != idx {
            assert!(!slot.active());
        }
    }
}

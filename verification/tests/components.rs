//! Unit tests of the boot shim's components: the teardown decision, the
//! load-path construction, and the well-known identifier values.

use boot_shim::device_path::{build_boot_path, boot_image_path, PathNode};
use boot_shim::display::{disable_display_callback, DisplayCommand, ProtocolSlot};
use boot_shim::types::{display_power_guid_bytes, milestone_bytes, DisplayPowerState, MilestoneId};

#[test]
fn teardown_with_absent_slot_does_nothing() {
    let slot = ProtocolSlot::new();
    assert_eq!(disable_display_callback(&slot), None);
}

#[test]
fn teardown_with_published_slot_issues_exactly_one_off() {
    let mut slot = ProtocolSlot::new();
    slot.publish(0xBEE);
    assert_eq!(
        disable_display_callback(&slot),
        Some(DisplayCommand { interface: 0xBEE, target: DisplayPowerState::Off })
    );
}

#[test]
fn slot_reads_back_what_was_published() {
    let mut slot = ProtocolSlot::new();
    assert_eq!(slot.read(), None);
    slot.publish(7);
    assert_eq!(slot.read(), Some(7));
}

#[test]
fn boot_image_path_is_the_fixed_constant() {
    assert_eq!(boot_image_path(), "\\EFI\\BOOT\\BOOTAA64.EFI");
}

#[test]
fn build_boot_path_keeps_two_nodes_and_appends_the_file() {
    let descriptor = vec![
        PathNode::Device { node_type: 1, sub_type: 2, data: vec![3, 4] },
        PathNode::Device { node_type: 5, sub_type: 6, data: vec![] },
        PathNode::Device { node_type: 7, sub_type: 8, data: vec![9] },
    ];
    let path = build_boot_path(descriptor);
    assert_eq!(path.len(), 3);
    assert_eq!(path[0], PathNode::Device { node_type: 1, sub_type: 2, data: vec![3, 4] });
    assert_eq!(path[1], PathNode::Device { node_type: 5, sub_type: 6, data: vec![] });
    assert_eq!(path[2], PathNode::FilePath { name: boot_image_path() });
}

#[test]
fn milestone_bytes_match_the_published_identifiers() {
    assert_eq!(
        milestone_bytes(MilestoneId::SdCardDetect),
        [
            0x36, 0x2c, 0x97, 0xb7, 0x4c, 0x8a, 0x56, 0x4a, 0x8b, 0x02, 0x11, 0x59, 0xb5, 0x2d,
            0x4b, 0xfb,
        ]
    );
    assert_eq!(
        milestone_bytes(MilestoneId::ReadyToBoot),
        [
            0xb3, 0x8f, 0xe8, 0x7c, 0xd7, 0x4b, 0x79, 0x46, 0x87, 0xa8, 0xa8, 0xd8, 0xde, 0xe5,
            0x0d, 0x2b,
        ]
    );
    assert_eq!(
        milestone_bytes(MilestoneId::EndOfDxe),
        [
            0x7a, 0x96, 0xce, 0x02, 0x7e, 0xdd, 0xfc, 0x4f, 0x9e, 0xe7, 0x81, 0x0c, 0xf0, 0x47,
            0x08, 0x80,
        ]
    );
}

#[test]
fn display_power_guid_bytes_match_the_published_identifier() {
    assert_eq!(
        display_power_guid_bytes(),
        [
            0x1d, 0x02, 0x52, 0xf3, 0x93, 0x95, 0x32, 0x44, 0xbf, 0x04, 0x67, 0xb9, 0xf3, 0xb7,
            0x60, 0x08,
        ]
    );
}

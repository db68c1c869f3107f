//! Plain-value models of the firmware-managed objects the boot flow touches.
//!
//! Handles, status codes and interface pointers are opaque to the boot logic:
//! it never decodes them, it only routes them back into later firmware calls.
//! Each is therefore modelled as a plain integer identifier supplied by the
//! driver that performs the calls.

use vstd::prelude::*;

verus! {

/// An opaque reference to a firmware-managed object (a device, an event, a
/// loaded image). The boot logic never inspects it; it only hands it back to
/// the firmware in later calls.
#[derive(Clone, Copy, Debug, PartialEq, Eq, Structural)]
pub struct Handle {
    pub id: u64,
}

/// A firmware status code carried by a failed call. The boot logic treats it
/// as opaque diagnostic context.
#[derive(Clone, Copy, Debug, PartialEq, Eq, Structural)]
pub struct FwError {
    pub code: u64,
}

/// The last commanded or observed state of the optional display-power
/// capability.
#[derive(Clone, Copy, Debug, PartialEq, Eq, Structural)]
pub enum DisplayPowerState {
    Unknown,
    Off,
    On,
}

/// A well-known boot-milestone identifier, broadcast through the firmware's
/// notification mechanism. Compared only for identity, never decoded; the
/// 16-byte wire value of each is given by [`milestone_bytes`].
#[derive(Clone, Copy, Debug, PartialEq, Eq, Structural)]
pub enum MilestoneId {
    SdCardDetect,
    ReadyToBoot,
    EndOfDxe,
}

/// A capability a handle may expose, used to filter handle enumeration.
#[derive(Clone, Copy, Debug, PartialEq, Eq, Structural)]
pub enum ProtocolId {
    /// The optional display-power capability; its 16-byte identifier is given
    /// by [`display_power_guid_bytes`].
    DisplayPower,
    /// The filesystem capability the second-stage image is searched under.
    SimpleFileSystem,
}

/// The 16-byte wire value broadcast for a milestone, in the layout the
/// firmware's notification mechanism expects (a little-endian 32-bit word,
/// two little-endian 16-bit words, then eight plain bytes).
pub open spec fn spec_milestone_bytes(id: MilestoneId) -> Seq<u8> {
    match id {
        MilestoneId::SdCardDetect => seq![
            0x36u8, 0x2c, 0x97, 0xb7, 0x4c, 0x8a, 0x56, 0x4a,
            0x8b, 0x02, 0x11, 0x59, 0xb5, 0x2d, 0x4b, 0xfb,
        ],
        MilestoneId::ReadyToBoot => seq![
            0xb3u8, 0x8f, 0xe8, 0x7c, 0xd7, 0x4b, 0x79, 0x46,
            0x87, 0xa8, 0xa8, 0xd8, 0xde, 0xe5, 0x0d, 0x2b,
        ],
        MilestoneId::EndOfDxe => seq![
            0x7au8, 0x96, 0xce, 0x02, 0x7e, 0xdd, 0xfc, 0x4f,
            0x9e, 0xe7, 0x81, 0x0c, 0xf0, 0x47, 0x08, 0x80,
        ],
    }
}

/// The 16-byte wire value of a milestone identifier; see
/// [`spec_milestone_bytes`] for the layout.
pub fn milestone_bytes(id: MilestoneId) -> (r: [u8; 16])
    ensures
        r@ == spec_milestone_bytes(id),
{
    match id {
        MilestoneId::SdCardDetect => [
            0x36, 0x2c, 0x97, 0xb7, 0x4c, 0x8a, 0x56, 0x4a,
            0x8b, 0x02, 0x11, 0x59, 0xb5, 0x2d, 0x4b, 0xfb,
        ],
        MilestoneId::ReadyToBoot => [
            0xb3, 0x8f, 0xe8, 0x7c, 0xd7, 0x4b, 0x79, 0x46,
            0x87, 0xa8, 0xa8, 0xd8, 0xde, 0xe5, 0x0d, 0x2b,
        ],
        MilestoneId::EndOfDxe => [
            0x7a, 0x96, 0xce, 0x02, 0x7e, 0xdd, 0xfc, 0x4f,
            0x9e, 0xe7, 0x81, 0x0c, 0xf0, 0x47, 0x08, 0x80,
        ],
    }
}

/// The 16-byte identifier of the optional display-power capability, in the
/// same layout as [`spec_milestone_bytes`].
pub open spec fn spec_display_power_guid_bytes() -> Seq<u8> {
    seq![
        0x1du8, 0x02, 0x52, 0xf3, 0x93, 0x95, 0x32, 0x44,
        0xbf, 0x04, 0x67, 0xb9, 0xf3, 0xb7, 0x60, 0x08,
    ]
}

/// The 16-byte identifier of the optional display-power capability.
pub fn display_power_guid_bytes() -> (r: [u8; 16])
    ensures
        r@ == spec_display_power_guid_bytes(),
{
    [
        0x1d, 0x02, 0x52, 0xf3, 0x93, 0x95, 0x32, 0x44,
        0xbf, 0x04, 0x67, 0xb9, 0xf3, 0xb7, 0x60, 0x08,
    ]
}

} // verus!

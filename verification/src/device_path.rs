//! Device location descriptors and the fixed-path boot image lookup.

use vstd::prelude::*;

verus! {

/// One node of a device location descriptor: an ordered description of a
/// device's position in the platform's bus hierarchy.
///
/// Bus-hierarchy nodes are opaque to the boot logic: it never decodes them,
/// it only copies the first two of a matching handle's descriptor into the
/// load request. The file-path node is the one node the logic builds itself.
#[derive(Debug, PartialEq, Eq)]
pub enum PathNode {
    /// An opaque bus-hierarchy node, carried through unchanged.
    Device { node_type: u8, sub_type: u8, data: Vec<u8> },
    /// A media file-path node naming a file on the volume.
    FilePath { name: String },
}

/// The fixed absolute path of the second-stage loader image, compiled in.
pub open spec fn spec_boot_image_path() -> Seq<char> {
    "\\EFI\\BOOT\\BOOTAA64.EFI"@
}

/// The fixed absolute path of the second-stage loader image, compiled in.
pub fn boot_image_path() -> (r: String)
    ensures
        r@ == spec_boot_image_path(),
{
    "\\EFI\\BOOT\\BOOTAA64.EFI".to_owned()
}

/// Build the load path for a matching handle: exactly the first two nodes of
/// its device location descriptor (assumed sufficient to identify the owning
/// controller — a known simplification for shallow bus topologies) followed
/// by one file-path node for the fixed boot image path, three nodes in all.
pub fn build_boot_path(descriptor: Vec<PathNode>) -> (r: Vec<PathNode>)
    requires
        descriptor@.len() >= 2,
    ensures
        r@.len() == 3,
        r@[0] == descriptor@[0],
        r@[1] == descriptor@[1],
        (r@[2] matches PathNode::FilePath { name } && name@ == spec_boot_image_path()),
{
    let mut r = descriptor;
    r.truncate(2);
    let name = boot_image_path();
    r.push(PathNode::FilePath { name });
    r
}

} // verus!

use vstd::prelude::*;

verus! {

/// Every way a fill run can end in failure.
#[derive(Debug, Clone, Copy, PartialEq, Eq, Structural)]
pub enum FillError {
    /// The device transport could not be initialised.
    DeviceEnumeration,
    /// The chosen device could not be opened.
    DeviceOpen,
    /// The device refused to list its storage pools.
    StorageEnumeration,
    /// A storage pool id no longer resolves on the device.
    StorageQuery,
    /// A requested size is out of bounds.
    InvalidSize,
    /// Writing the local filler file failed.
    FillerWrite,
    /// Pushing the filler file to the device failed.
    Transfer,
    /// No device is attached.
    NoDeviceFound,
    /// Malformed byte quantity, or a cancelled prompt.
    UserInput,
}

/// The text shown to the user for each error. A failed push is not rolled
/// back, so its text says that a partial file may remain on the device.
pub open spec fn message_text(e: FillError) -> Seq<char> {
    match e {
        FillError::DeviceEnumeration => "Could not enumerate devices"@,
        FillError::DeviceOpen => "Failed to open device"@,
        FillError::StorageEnumeration => "Could not enumerate storage pools"@,
        FillError::StorageQuery => "Could not select storage"@,
        FillError::InvalidSize => "Requested size is out of bounds"@,
        FillError::FillerWrite => "Failed to write the filler file"@,
        FillError::Transfer => "Failed to send the file to the device; a partial file may remain on it"@,
        FillError::NoDeviceFound => "No attached MTP devices detected"@,
        FillError::UserInput => "Invalid input"@,
    }
}

impl FillError {
    /// A human-readable description of the error.
    pub fn message(&self) -> (r: &'static str)
        ensures
            r@ == message_text(*self),
    {
        proof {
            reveal_strlit("Could not enumerate devices");
            reveal_strlit("Failed to open device");
            reveal_strlit("Could not enumerate storage pools");
            reveal_strlit("Could not select storage");
            reveal_strlit("Requested size is out of bounds");
            reveal_strlit("Failed to write the filler file");
            reveal_strlit("Failed to send the file to the device; a partial file may remain on it");
            reveal_strlit("No attached MTP devices detected");
            reveal_strlit("Invalid input");
        }
        match self {
            FillError::DeviceEnumeration => "Could not enumerate devices",
            FillError::DeviceOpen => "Failed to open device",
            FillError::StorageEnumeration => "Could not enumerate storage pools",
            FillError::StorageQuery => "Could not select storage",
            FillError::InvalidSize => "Requested size is out of bounds",
            FillError::FillerWrite => "Failed to write the filler file",
            FillError::Transfer => "Failed to send the file to the device; a partial file may remain on it",
            FillError::NoDeviceFound => "No attached MTP devices detected",
            FillError::UserInput => "Invalid input",
        }
    }
}

} // verus!

//! Configuration values that the slot model consumes.
use vstd::prelude::*;

verus! {

/// Configuration of a slot backed by a block device.
#[derive(Clone, Debug)]
pub struct BlockSlotConfig {
    /// Path of the block device.
    pub device: Option<String>,
    /// Number of a partition of the system's root device.
    pub partition: Option<u32>,
    pub immutable: Option<bool>,
}

/// Configuration of a slot backed by a file.
#[derive(Clone, Debug)]
pub struct FileSlotConfig {
    pub path: String,
    pub immutable: Option<bool>,
}

/// Configuration of a slot backed by a custom handler.
#[derive(Clone, Debug)]
pub struct CustomSlotConfig {
    /// Command line of the handler.
    pub handler: Vec<String>,
}

/// Configuration of one slot.
#[derive(Clone, Debug)]
pub enum SlotConfig {
    Block(BlockSlotConfig),
    File(FileSlotConfig),
    Custom(CustomSlotConfig),
}

/// Error of parsing an architecture name.
#[derive(Clone, Copy, Debug, PartialEq, Eq, Structural)]
pub struct InvalidArchitectureError;

/// Target architectures of a system.
#[derive(Clone, Copy, Debug, PartialEq, Eq, Structural, Hash)]
pub enum Architecture {
    Amd64,
    Arm64,
    Armv7,
    Armhf,
    Arm,
}

impl Architecture {
    /// Name of the architecture.
    pub open spec fn spec_str(self) -> Seq<char> {
        match self {
            Architecture::Amd64 => "amd64"@,
            Architecture::Arm64 => "arm64"@,
            Architecture::Armv7 => "armv7"@,
            Architecture::Armhf => "armhf"@,
            Architecture::Arm => "arm"@,
        }
    }

    /// Name of the architecture.
    pub fn as_str(self) -> (r: &'static str)
        ensures
            r@ == self.spec_str(),
    {
        match self {
            Architecture::Amd64 => "amd64",
            Architecture::Arm64 => "arm64",
            Architecture::Armv7 => "armv7",
            Architecture::Armhf => "armhf",
            Architecture::Arm => "arm",
        }
    }

    /// The architecture with the given name.
    pub open spec fn spec_from_str(s: Seq<char>) -> Result<Architecture, InvalidArchitectureError> {
        if s == "amd64"@ {
            Ok(Architecture::Amd64)
        } else if s == "arm64"@ {
            Ok(Architecture::Arm64)
        } else if s == "armv7"@ {
            Ok(Architecture::Armv7)
        } else if s == "armhf"@ {
            Ok(Architecture::Armhf)
        } else if s == "arm"@ {
            Ok(Architecture::Arm)
        } else {
            Err(InvalidArchitectureError)
        }
    }

    /// The architecture with the given name.
    pub fn from_str(s: &str) -> (r: Result<Architecture, InvalidArchitectureError>)
        ensures
            r == Architecture::spec_from_str(s@),
    {
        if crate::same_text(s, "amd64") {
            Ok(Architecture::Amd64)
        } else if crate::same_text(s, "arm64") {
            Ok(Architecture::Arm64)
        } else if crate::same_text(s, "armv7") {
            Ok(Architecture::Armv7)
        } else if crate::same_text(s, "armhf") {
            Ok(Architecture::Armhf)
        } else if crate::same_text(s, "arm") {
            Ok(Architecture::Arm)
        } else {
            Err(InvalidArchitectureError)
        }
    }
}

} // verus!

//! Domain values shared by the adapters: devices, sizes, partitioning and
//! filesystem choices, ISO kinds, and the errors that operations report.
use vstd::prelude::*;

verus! {

/// How an ISO image can be written to a USB stick.
#[derive(Debug, Clone, Copy, PartialEq, Eq, Structural)]
pub enum IsoKind {
    /// Hybrid image with an MBR partition table: raw copy works.
    Isohybrid,
    /// Anything else.
    Unsupported,
}

/// Partition table layout.
#[derive(Debug, Clone, Copy, PartialEq, Eq, Structural)]
pub enum PartitionScheme {
    /// GUID partition table.
    Gpt,
    /// DOS master boot record.
    Mbr,
}

/// Filesystem to create on the partition.
#[derive(Debug, Clone, Copy, PartialEq, Eq, Structural)]
pub enum FilesystemKind {
    /// FAT32.
    Fat32,
    /// NTFS.
    Ntfs,
    /// exFAT.
    ExFat,
    /// ext4.
    Ext4,
}

/// A size in bytes.
#[derive(Debug, Clone, Copy, PartialEq, Eq, Structural)]
pub struct ByteSize {
    bytes: u64,
}

impl ByteSize {
    /// The size of `bytes` bytes.
    pub fn from_bytes(bytes: u64) -> (r: ByteSize)
        ensures
            r.spec_bytes() == bytes,
    {
        ByteSize { bytes }
    }

    /// The size in bytes.
    pub fn as_bytes(&self) -> (r: u64)
        ensures
            r == self.spec_bytes(),
    {
        self.bytes
    }

    /// The size in bytes, in specifications.
    pub closed spec fn spec_bytes(&self) -> u64 {
        self.bytes
    }
}

/// Path of a block device, such as `/dev/sdb`.
#[derive(Debug, Clone, PartialEq, Eq)]
pub struct DevicePath {
    path: String,
}

impl View for DevicePath {
    type V = Seq<char>;

    closed spec fn view(&self) -> Seq<char> {
        self.path@
    }
}

impl DevicePath {
    /// Wraps a device path.
    pub fn new(path: String) -> (r: DevicePath)
        ensures
            r@ == path@,
    {
        DevicePath { path }
    }

    /// The path text.
    pub fn as_str(&self) -> (r: &str)
        ensures
            r@ == self@,
    {
        self.path.as_str()
    }
}

/// A removable block device offered to the user.
#[derive(Debug, Clone, PartialEq, Eq)]
pub struct Device {
    path: DevicePath,
    model: String,
    size: ByteSize,
    removable: bool,
}

impl Device {
    /// A device with its path, model name, size and removable flag.
    pub fn new(path: DevicePath, model: String, size: ByteSize, removable: bool) -> (r: Device)
        ensures
            r.spec_path() == path@,
            r.spec_model() == model@,
            r.spec_size() == size,
            r.spec_removable() == removable,
    {
        Device { path, model, size, removable }
    }

    /// Path of the device.
    pub closed spec fn spec_path(&self) -> Seq<char> {
        self.path@
    }

    /// Model name.
    pub closed spec fn spec_model(&self) -> Seq<char> {
        self.model@
    }

    /// Capacity.
    pub closed spec fn spec_size(&self) -> ByteSize {
        self.size
    }

    /// Removable flag.
    pub closed spec fn spec_removable(&self) -> bool {
        self.removable
    }

    /// Path of the device.
    pub fn path(&self) -> (r: &DevicePath)
        ensures
            r@ == self.spec_path(),
    {
        &self.path
    }

    /// Path of the device (`caminho`).
    pub fn caminho(&self) -> (r: &DevicePath)
        ensures
            r@ == self.spec_path(),
    {
        &self.path
    }

    /// Model name.
    pub fn model(&self) -> (r: &str)
        ensures
            r@ == self.spec_model(),
    {
        self.model.as_str()
    }

    /// Capacity.
    pub fn size(&self) -> (r: ByteSize)
        ensures
            r == self.spec_size(),
    {
        self.size
    }

    /// Whether the kernel reports the device as removable.
    pub fn removable(&self) -> (r: bool)
        ensures
            r == self.spec_removable(),
    {
        self.removable
    }
}

/// Failures of a format operation.
#[derive(Debug, Clone, PartialEq, Eq)]
pub enum FormatError {
    /// polkit refused the operation.
    Unauthorized,
    /// The device is mounted or in use.
    DeviceBusy,
    /// The `mkfs` tool for the named filesystem is missing.
    ToolMissing(String),
    /// Any other failure, with its message.
    Backend(String),
}

/// Failures of writing an image.
#[derive(Debug, Clone, PartialEq, Eq)]
pub enum WriteError {
    /// The user cancelled.
    Cancelled,
    /// I/O failure, with its message.
    Io(String),
    /// Read-back data differs from the image.
    VerificationMismatch,
    /// polkit refused the operation.
    Unauthorized,
    /// The device is mounted or in use.
    DeviceBusy,
    /// The image is larger than the device.
    DeviceTooSmall,
}

/// Failures of listing devices.
#[derive(Debug, Clone, PartialEq, Eq)]
pub enum DiskError {
    /// The device listing could not be read.
    Unavailable(String),
    /// Any other failure.
    Backend(String),
}

/// Failures of opening a device in the file manager.
#[derive(Debug, Clone, PartialEq, Eq)]
pub enum BrowseError {
    /// No partition holds a mountable filesystem.
    NoFilesystem,
    /// Mounting failed, with its message.
    Mount(String),
    /// Launching the file manager failed, with its message.
    Launch(String),
}

impl BrowseError {
    /// An equal copy of this error.
    pub fn duplicate(&self) -> (r: BrowseError)
        ensures
            r == *self,
    {
        match self {
            BrowseError::NoFilesystem => BrowseError::NoFilesystem,
            BrowseError::Mount(m) => BrowseError::Mount(m.clone()),
            BrowseError::Launch(m) => BrowseError::Launch(m.clone()),
        }
    }
}

/// Stage of an image write.
#[derive(Debug, Clone, Copy, PartialEq, Eq, Structural)]
pub enum WritePhase {
    /// Opening and checking the device.
    Preparing,
    /// Copying the image.
    Writing,
    /// Reading back and comparing.
    Verifying,
}

/// Progress report of an image write.
#[derive(Debug, Clone, Copy, PartialEq, Eq, Structural)]
pub struct WriteProgress {
    phase: WritePhase,
    done: u64,
    total: u64,
}

impl WriteProgress {
    /// Progress `done` of `total` bytes in `phase`.
    pub fn new(phase: WritePhase, done: u64, total: u64) -> (r: WriteProgress)
        ensures
            r.spec_phase() == phase,
            r.spec_done() == done,
            r.spec_total() == total,
    {
        WriteProgress { phase, done, total }
    }

    /// Stage.
    pub closed spec fn spec_phase(&self) -> WritePhase {
        self.phase
    }

    /// Bytes done.
    pub closed spec fn spec_done(&self) -> u64 {
        self.done
    }

    /// Bytes in all.
    pub closed spec fn spec_total(&self) -> u64 {
        self.total
    }

    /// Stage.
    pub fn phase(&self) -> (r: WritePhase)
        ensures
            r == self.spec_phase(),
    {
        self.phase
    }

    /// Bytes done.
    pub fn done(&self) -> (r: u64)
        ensures
            r == self.spec_done(),
    {
        self.done
    }

    /// Bytes in all.
    pub fn total(&self) -> (r: u64)
        ensures
            r == self.spec_total(),
    {
        self.total
    }
}

/// What a format operation creates.
#[derive(Debug, Clone, PartialEq, Eq)]
pub struct FormatOptions {
    scheme: PartitionScheme,
    filesystem: FilesystemKind,
    label: String,
    quick: bool,
}

impl FormatOptions {
    /// Options for a table `scheme`, a `filesystem` labelled `label`, and a
    /// quick format (no zero fill) when `quick`.
    pub fn new(scheme: PartitionScheme, filesystem: FilesystemKind, label: String, quick: bool) -> (r: FormatOptions)
        ensures
            r.spec_scheme() == scheme,
            r.spec_filesystem() == filesystem,
            r.spec_label() == label@,
            r.spec_quick() == quick,
    {
        FormatOptions { scheme, filesystem, label, quick }
    }

    /// Partition table layout.
    pub closed spec fn spec_scheme(&self) -> PartitionScheme {
        self.scheme
    }

    /// Filesystem.
    pub closed spec fn spec_filesystem(&self) -> FilesystemKind {
        self.filesystem
    }

    /// Volume label.
    pub closed spec fn spec_label(&self) -> Seq<char> {
        self.label@
    }

    /// Quick format.
    pub closed spec fn spec_quick(&self) -> bool {
        self.quick
    }

    /// Partition table layout.
    pub fn scheme(&self) -> (r: PartitionScheme)
        ensures
            r == self.spec_scheme(),
    {
        self.scheme
    }

    /// Filesystem.
    pub fn filesystem(&self) -> (r: FilesystemKind)
        ensures
            r == self.spec_filesystem(),
    {
        self.filesystem
    }

    /// Volume label.
    pub fn label(&self) -> (r: &str)
        ensures
            r@ == self.spec_label(),
    {
        self.label.as_str()
    }

    /// Quick format (no zero fill).
    pub fn quick(&self) -> (r: bool)
        ensures
            r == self.spec_quick(),
    {
        self.quick
    }
}

} // verus!

//! Desktop adapters whose work is all outside the library (the native file
//! dialog and PNG encoding), and the default values of the adapters.
use vstd::prelude::*;
use crate::disk_service::{DiskServiceStub, SysfsDiskService};
use crate::iso_inspector::IsoFileInspector;
use crate::udisks::{NativeFatFormatter, Udisks2BlockWriter, Udisks2DeviceBrowser, Udisks2Formatter};

verus! {

/// Chooses an ISO image with the native file dialog.
pub struct RfdIsoPicker;

/// Saves window captures as PNG files.
pub struct PngScreenshotWriter;

impl RfdIsoPicker {
    /// Creates the picker.
    pub fn new() -> (r: RfdIsoPicker)
        ensures
            r == RfdIsoPicker,
    {
        RfdIsoPicker
    }
}

impl PngScreenshotWriter {
    /// Creates the PNG writer.
    pub fn new() -> (r: PngScreenshotWriter)
        ensures
            r == PngScreenshotWriter,
    {
        PngScreenshotWriter
    }
}

impl Default for RfdIsoPicker {
    fn default() -> (r: RfdIsoPicker)
        ensures
            r == RfdIsoPicker,
    {
        RfdIsoPicker::new()
    }
}

impl Default for PngScreenshotWriter {
    fn default() -> (r: PngScreenshotWriter)
        ensures
            r == PngScreenshotWriter,
    {
        PngScreenshotWriter::new()
    }
}

impl Default for IsoFileInspector {
    fn default() -> (r: IsoFileInspector)
        ensures
            r == IsoFileInspector,
    {
        IsoFileInspector::new()
    }
}

impl Default for SysfsDiskService {
    fn default() -> (r: SysfsDiskService)
        ensures
            r == SysfsDiskService,
    {
        SysfsDiskService::new()
    }
}

impl Default for DiskServiceStub {
    fn default() -> (r: DiskServiceStub)
        ensures
            r == DiskServiceStub,
    {
        DiskServiceStub::new()
    }
}

impl Default for NativeFatFormatter {
    fn default() -> (r: NativeFatFormatter)
        ensures
            r == NativeFatFormatter,
    {
        NativeFatFormatter::new()
    }
}

impl Default for Udisks2Formatter {
    fn default() -> (r: Udisks2Formatter)
        ensures
            r == Udisks2Formatter,
    {
        Udisks2Formatter::new()
    }
}

impl Default for Udisks2BlockWriter {
    fn default() -> (r: Udisks2BlockWriter)
        ensures
            r == Udisks2BlockWriter,
    {
        Udisks2BlockWriter::new()
    }
}

impl Default for Udisks2DeviceBrowser {
    fn default() -> (r: Udisks2DeviceBrowser)
        ensures
            r == Udisks2DeviceBrowser,
    {
        Udisks2DeviceBrowser::new()
    }
}

} // verus!

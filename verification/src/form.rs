//! State of the main form of the application window and the decisions it
//! drives: the demo scenarios, when an operation may start, the typed
//! confirmation, and the status line.
use vstd::prelude::*;
use crate::domain::{ByteSize, FilesystemKind, FormatOptions, IsoKind, PartitionScheme};
use crate::text::{chars_of, equal_ignoring_ascii_case, eq_ignore_ascii_case, trim, trimmed};

verus! {

/// What the user wants to do with the device.
#[derive(Debug, Clone, Copy, PartialEq, Eq, Structural)]
pub enum Mode {
    /// Make a bootable stick from an ISO.
    Boot,
    /// Only format the device.
    Format,
}

/// State of the running operation, as the form reads it.
#[derive(Debug, Clone, PartialEq, Eq)]
pub enum WriteState {
    /// Nothing running.
    Idle,
    /// Opening and checking the device.
    Preparing,
    /// Copying or formatting.
    Writing { done: u64, total: u64 },
    /// Reading back.
    Verifying { done: u64, total: u64 },
    /// Finished.
    Done,
    /// Failed with a message.
    Failed(String),
    /// Cancelled by the user.
    Cancelled,
}

/// Colour role of a status line.
#[derive(Debug, Clone, Copy, PartialEq, Eq, Structural)]
pub enum Tone {
    /// Secondary text.
    Muted,
    /// Success accent.
    Success,
    /// Destructive accent.
    Destructive,
}

/// One entry of the device selector.
#[derive(Debug, Clone, PartialEq, Eq)]
pub struct DeviceView {
    /// Device path.
    pub path: String,
    /// Text shown for it.
    pub label: String,
}

/// What the device selector shows.
#[derive(Debug, Clone, PartialEq, Eq)]
pub enum DeviceListState {
    /// Still listing.
    Loading,
    /// The devices found.
    Ready(Vec<DeviceView>),
    /// Listing failed, with a message.
    Failed(String),
}

/// The chosen ISO image.
#[derive(Debug, Clone, PartialEq, Eq)]
pub struct IsoSelection {
    /// File name.
    pub name: String,
    /// Size.
    pub size: ByteSize,
    /// How it can be written.
    pub kind: IsoKind,
}

/// Pre-built states for checking the interface without a device.
#[derive(Debug, Clone, Copy, PartialEq, Eq, Structural)]
pub enum DemoScenario {
    /// Device and ISO chosen, ready to write.
    Ready,
    /// Confirmation dialog open.
    Modal,
    /// Operation running (writing).
    Running,
    /// Format-only mode.
    Format,
}

/// The form fields of the main window.
pub struct FormState {
    selected: Option<usize>,
    mode: Mode,
    partition: usize,
    target: usize,
    filesystem: usize,
    label: String,
    quick_format: bool,
    modal_open: bool,
    confirm_text: String,
}

/// An operation is running: preparing, writing or verifying.
pub open spec fn running(state: WriteState) -> bool {
    match state {
        WriteState::Preparing | WriteState::Writing { .. } | WriteState::Verifying { .. } => true,
        _ => false,
    }
}

/// The status line for a state in a mode, given whether the form is ready.
pub open spec fn status_of(state: WriteState, mode: Mode, ready: bool) -> (Seq<char>, Tone) {
    match state {
        WriteState::Idle => if ready {
            ("Pronto para iniciar."@, Tone::Muted)
        } else {
            ("Selecione um dispositivo para começar."@, Tone::Muted)
        },
        WriteState::Preparing => if mode == Mode::Format {
            ("Formatando\u{2026}"@, Tone::Muted)
        } else {
            ("Preparando dispositivo\u{2026}"@, Tone::Muted)
        },
        WriteState::Writing { .. } => if mode == Mode::Boot {
            ("Gravando imagem\u{2026}"@, Tone::Muted)
        } else {
            ("Formatando\u{2026}"@, Tone::Muted)
        },
        WriteState::Verifying { .. } => ("Verificando\u{2026}"@, Tone::Muted),
        WriteState::Done => if mode == Mode::Boot {
            ("Pendrive bootável pronto!"@, Tone::Success)
        } else {
            ("Formatação concluída!"@, Tone::Success)
        },
        WriteState::Failed(msg) => (msg@, Tone::Destructive),
        WriteState::Cancelled => (
            "Cancelado \u{2014} pendrive incompleto, regrave."@,
            Tone::Destructive,
        ),
    }
}

/// The form may start: a device is chosen, nothing runs, and the mode's input
/// is acceptable (an isohybrid ISO to boot, a valid label to format).
pub open spec fn ready_to_start(
    selected: Option<usize>,
    mode: Mode,
    state: WriteState,
    iso: Option<IsoKind>,
    label_valid: bool,
) -> bool {
    let mode_ok = match mode {
        Mode::Format => label_valid,
        Mode::Boot => iso == Some(IsoKind::Isohybrid),
    };
    selected is Some && mode_ok && !running(state)
}

/// A volume label the format can take: one to eleven ASCII characters, so
/// that it fits the eleven bytes of a FAT label.
pub open spec fn valid_label(label: Seq<char>) -> bool {
    &&& 0 < label.len() <= 11
    &&& forall|i: int| 0 <= i < label.len() ==> (label[i] as u32) < 128
}

/// The partition scheme at index `i` of the form's list (`GPT`, `MBR`).
pub open spec fn scheme_at(i: usize) -> PartitionScheme {
    if i == 1 {
        PartitionScheme::Mbr
    } else {
        PartitionScheme::Gpt
    }
}

/// The filesystem at index `i` of the form's list (`FAT32`, `NTFS`, `exFAT`,
/// `ext4`).
pub open spec fn filesystem_at(i: usize) -> FilesystemKind {
    if i == 1 {
        FilesystemKind::Ntfs
    } else if i == 2 {
        FilesystemKind::ExFat
    } else if i == 3 {
        FilesystemKind::Ext4
    } else {
        FilesystemKind::Fat32
    }
}

impl FormState {
    /// Index of the chosen device.
    pub closed spec fn spec_selected(&self) -> Option<usize> {
        self.selected
    }

    /// Boot or format.
    pub closed spec fn spec_mode(&self) -> Mode {
        self.mode
    }

    /// Index of the partition scheme.
    pub closed spec fn spec_partition(&self) -> usize {
        self.partition
    }

    /// Index of the target system.
    pub closed spec fn spec_target(&self) -> usize {
        self.target
    }

    /// Index of the filesystem.
    pub closed spec fn spec_filesystem(&self) -> usize {
        self.filesystem
    }

    /// Volume label.
    pub closed spec fn spec_label(&self) -> Seq<char> {
        self.label@
    }

    /// Quick format.
    pub closed spec fn spec_quick_format(&self) -> bool {
        self.quick_format
    }

    /// The confirmation dialog is open.
    pub closed spec fn spec_modal_open(&self) -> bool {
        self.modal_open
    }

    /// Text typed in the confirmation dialog.
    pub closed spec fn spec_confirm_text(&self) -> Seq<char> {
        self.confirm_text@
    }

    /// The fields other than the one a setter changes are kept.
    pub open spec fn same_except(
        &self,
        other: &FormState,
        selected: bool,
        mode: bool,
        partition: bool,
        target: bool,
        filesystem: bool,
        label: bool,
        quick: bool,
        modal: bool,
        confirm: bool,
    ) -> bool {
        &&& (selected || other.spec_selected() == self.spec_selected())
        &&& (mode || other.spec_mode() == self.spec_mode())
        &&& (partition || other.spec_partition() == self.spec_partition())
        &&& (target || other.spec_target() == self.spec_target())
        &&& (filesystem || other.spec_filesystem() == self.spec_filesystem())
        &&& (label || other.spec_label() == self.spec_label())
        &&& (quick || other.spec_quick_format() == self.spec_quick_format())
        &&& (modal || other.spec_modal_open() == self.spec_modal_open())
        &&& (confirm || other.spec_confirm_text() == self.spec_confirm_text())
    }

    /// A fresh form: boot mode, label `BOOTUSB`, quick format, nothing chosen.
    pub fn new() -> (f: FormState)
        ensures
            f.spec_selected() is None,
            f.spec_mode() == Mode::Boot,
            f.spec_partition() == 0 && f.spec_target() == 0 && f.spec_filesystem() == 0,
            f.spec_label() == "BOOTUSB"@,
            f.spec_quick_format(),
            !f.spec_modal_open(),
            f.spec_confirm_text().len() == 0,
    {
        FormState {
            selected: None,
            mode: Mode::Boot,
            partition: 0,
            target: 0,
            filesystem: 0,
            label: "BOOTUSB".to_owned(),
            quick_format: true,
            modal_open: false,
            confirm_text: String::new(),
        }
    }

    /// Index of the chosen device.
    pub fn selected(&self) -> (r: Option<usize>)
        ensures
            r == self.spec_selected(),
    {
        self.selected
    }

    /// Chooses the device at index `selected`, or none.
    pub fn set_selected(&mut self, selected: Option<usize>)
        ensures
            final(self).spec_selected() == selected,
            old(self).same_except(&*final(self), true, false, false, false, false, false, false, false, false),
    {
        self.selected = selected;
    }

    /// Boot or format.
    pub fn mode(&self) -> (r: Mode)
        ensures
            r == self.spec_mode(),
    {
        self.mode
    }

    /// Switches the mode.
    pub fn set_mode(&mut self, mode: Mode)
        ensures
            final(self).spec_mode() == mode,
            old(self).same_except(&*final(self), false, true, false, false, false, false, false, false, false),
    {
        self.mode = mode;
    }

    /// Index of the partition scheme.
    pub fn partition(&self) -> (r: usize)
        ensures
            r == self.spec_partition(),
    {
        self.partition
    }

    /// Chooses the partition scheme at index `i`.
    pub fn set_partition(&mut self, i: usize)
        ensures
            final(self).spec_partition() == i,
            old(self).same_except(&*final(self), false, false, true, false, false, false, false, false, false),
    {
        self.partition = i;
    }

    /// Index of the target system.
    pub fn target(&self) -> (r: usize)
        ensures
            r == self.spec_target(),
    {
        self.target
    }

    /// Chooses the target system at index `i`.
    pub fn set_target(&mut self, i: usize)
        ensures
            final(self).spec_target() == i,
            old(self).same_except(&*final(self), false, false, false, true, false, false, false, false, false),
    {
        self.target = i;
    }

    /// Index of the filesystem.
    pub fn filesystem(&self) -> (r: usize)
        ensures
            r == self.spec_filesystem(),
    {
        self.filesystem
    }

    /// Chooses the filesystem at index `i`.
    pub fn set_filesystem(&mut self, i: usize)
        ensures
            final(self).spec_filesystem() == i,
            old(self).same_except(&*final(self), false, false, false, false, true, false, false, false, false),
    {
        self.filesystem = i;
    }

    /// Volume label.
    pub fn label(&self) -> (r: &str)
        ensures
            r@ == self.spec_label(),
    {
        self.label.as_str()
    }

    /// Sets the volume label.
    pub fn set_label(&mut self, label: String)
        ensures
            final(self).spec_label() == label@,
            old(self).same_except(&*final(self), false, false, false, false, false, true, false, false, false),
    {
        self.label = label;
    }

    /// Quick format.
    pub fn quick_format(&self) -> (r: bool)
        ensures
            r == self.spec_quick_format(),
    {
        self.quick_format
    }

    /// Turns quick format on or off.
    pub fn set_quick_format(&mut self, quick: bool)
        ensures
            final(self).spec_quick_format() == quick,
            old(self).same_except(&*final(self), false, false, false, false, false, false, true, false, false),
    {
        self.quick_format = quick;
    }

    /// The confirmation dialog is open.
    pub fn modal_open(&self) -> (r: bool)
        ensures
            r == self.spec_modal_open(),
    {
        self.modal_open
    }

    /// Closes the confirmation dialog.
    pub fn close_confirm(&mut self)
        ensures
            !final(self).spec_modal_open(),
            old(self).same_except(&*final(self), false, false, false, false, false, false, false, true, false),
    {
        self.modal_open = false;
    }

    /// Text typed in the confirmation dialog.
    pub fn confirm_text(&self) -> (r: &str)
        ensures
            r@ == self.spec_confirm_text(),
    {
        self.confirm_text.as_str()
    }

    /// Sets the text typed in the confirmation dialog.
    pub fn set_confirm_text(&mut self, text: String)
        ensures
            final(self).spec_confirm_text() == text@,
            old(self).same_except(&*final(self), false, false, false, false, false, false, false, false, true),
    {
        self.confirm_text = text;
    }

    /// The label typed in the form is one the format can take.
    pub fn label_valid(&self) -> (r: bool)
        ensures
            r == valid_label(self.spec_label()),
    {
        let c = chars_of(self.label.as_str());
        if c.len() == 0 || c.len() > 11 {
            return false;
        }
        let mut i: usize = 0;
        while i < c.len()
            invariant
                i <= c.len(),
                c@ == self.label@,
                forall|k: int| 0 <= k < i ==> (c@[k] as u32) < 128,
            decreases c.len() - i,
        {
            if (c[i] as u32) >= 128 {
                return false;
            }
            i = i + 1;
        }
        true
    }

    /// The format options the form describes: the chosen partition scheme and
    /// filesystem, the label and the quick-format choice.
    pub fn format_options(&self) -> (r: FormatOptions)
        ensures
            r.spec_scheme() == scheme_at(self.spec_partition()),
            r.spec_filesystem() == filesystem_at(self.spec_filesystem()),
            r.spec_label() == self.spec_label(),
            r.spec_quick() == self.spec_quick_format(),
    {
        let scheme = if self.partition == 1 {
            PartitionScheme::Mbr
        } else {
            PartitionScheme::Gpt
        };
        let filesystem = if self.filesystem == 1 {
            FilesystemKind::Ntfs
        } else if self.filesystem == 2 {
            FilesystemKind::ExFat
        } else if self.filesystem == 3 {
            FilesystemKind::Ext4
        } else {
            FilesystemKind::Fat32
        };
        FormatOptions::new(scheme, filesystem, self.label.clone(), self.quick_format)
    }

    /// Applies a demo scenario: the first device is chosen; the modal scenario
    /// opens the dialog with `APAGAR` typed, the format scenario switches mode.
    pub fn apply_demo(&mut self, scenario: DemoScenario)
        ensures
            final(self).spec_selected() == Some(0usize),
            old(self).same_except(&*final(self), true, true, false, false, false, false, false, true, true),
            scenario == DemoScenario::Modal ==> {
                &&& final(self).spec_modal_open()
                &&& final(self).spec_confirm_text() == "APAGAR"@
                &&& final(self).spec_mode() == old(self).spec_mode()
            },
            scenario == DemoScenario::Format ==> {
                &&& final(self).spec_mode() == Mode::Format
                &&& final(self).spec_modal_open() == old(self).spec_modal_open()
                &&& final(self).spec_confirm_text() == old(self).spec_confirm_text()
            },
            (scenario == DemoScenario::Ready || scenario == DemoScenario::Running) ==> {
                &&& final(self).spec_mode() == old(self).spec_mode()
                &&& final(self).spec_modal_open() == old(self).spec_modal_open()
                &&& final(self).spec_confirm_text() == old(self).spec_confirm_text()
            },
    {
        self.selected = Some(0);
        match scenario {
            DemoScenario::Modal => {
                self.modal_open = true;
                self.confirm_text = "APAGAR".to_owned();
            },
            DemoScenario::Format => {
                self.mode = Mode::Format;
            },
            DemoScenario::Ready | DemoScenario::Running => {},
        }
    }

    /// Opens the confirmation dialog with an empty answer.
    pub fn open_confirm(&mut self)
        ensures
            final(self).spec_modal_open(),
            final(self).spec_confirm_text().len() == 0,
            old(self).same_except(&*final(self), false, false, false, false, false, false, false, true, true),
    {
        self.modal_open = true;
        self.confirm_text = String::new();
    }

    /// The typed answer is `APAGAR`, ignoring surrounding white space and ASCII case.
    pub fn confirmation_typed(&self) -> (r: bool)
        ensures
            r == equal_ignoring_ascii_case(trim(self.spec_confirm_text()), "APAGAR"@),
    {
        eq_ignore_ascii_case(&trimmed(&chars_of(self.confirm_text.as_str())), &chars_of("APAGAR"))
    }

    /// An operation is running.
    pub fn in_progress(state: &WriteState) -> (r: bool)
        ensures
            r == running(*state),
    {
        match state {
            WriteState::Preparing | WriteState::Writing { .. } | WriteState::Verifying { .. } => true,
            _ => false,
        }
    }

    /// The form may start (see `ready_to_start`), with the kind of the chosen
    /// ISO and whether the label is valid.
    pub fn ready(&self, state: &WriteState, iso: Option<IsoKind>, label_valid: bool) -> (r: bool)
        ensures
            r == ready_to_start(self.spec_selected(), self.spec_mode(), *state, iso, label_valid),
    {
        let mode_ok = match self.mode {
            Mode::Format => label_valid,
            Mode::Boot => match iso {
                Some(IsoKind::Isohybrid) => true,
                _ => false,
            },
        };
        self.selected.is_some() && mode_ok && !Self::in_progress(state)
    }

    /// The status line and its colour role.
    pub fn status_text(&self, state: &WriteState, ready: bool) -> (r: (String, Tone))
        ensures
            (r.0@, r.1) == status_of(*state, self.spec_mode(), ready),
    {
        match state {
            WriteState::Idle => if ready {
                ("Pronto para iniciar.".to_owned(), Tone::Muted)
            } else {
                ("Selecione um dispositivo para começar.".to_owned(), Tone::Muted)
            },
            WriteState::Preparing => match self.mode {
                Mode::Format => ("Formatando\u{2026}".to_owned(), Tone::Muted),
                Mode::Boot => ("Preparando dispositivo\u{2026}".to_owned(), Tone::Muted),
            },
            WriteState::Writing { .. } => match self.mode {
                Mode::Boot => ("Gravando imagem\u{2026}".to_owned(), Tone::Muted),
                Mode::Format => ("Formatando\u{2026}".to_owned(), Tone::Muted),
            },
            WriteState::Verifying { .. } => ("Verificando\u{2026}".to_owned(), Tone::Muted),
            WriteState::Done => match self.mode {
                Mode::Boot => ("Pendrive bootável pronto!".to_owned(), Tone::Success),
                Mode::Format => ("Formatação concluída!".to_owned(), Tone::Success),
            },
            WriteState::Failed(msg) => (msg.clone(), Tone::Destructive),
            WriteState::Cancelled => (
                "Cancelado \u{2014} pendrive incompleto, regrave.".to_owned(),
                Tone::Destructive,
            ),
        }
    }
}

impl DemoScenario {
    /// The device list of every scenario: one SanDisk stick at `/dev/sdb`.
    pub fn device_list(self) -> (r: DeviceListState)
        ensures
            r matches DeviceListState::Ready(v) && v@.len() == 1 && v@[0].path@ == "/dev/sdb"@
                && v@[0].label@ == "SanDisk Ultra \u{2014} 32.0 GB (/dev/sdb)"@,
    {
        let mut v: Vec<DeviceView> = Vec::new();
        v.push(
            DeviceView {
                path: "/dev/sdb".to_owned(),
                label: "SanDisk Ultra \u{2014} 32.0 GB (/dev/sdb)".to_owned(),
            },
        );
        DeviceListState::Ready(v)
    }

    /// The chosen ISO: none in format mode, otherwise a 6.2 GB isohybrid
    /// Ubuntu image.
    pub fn selected_iso(self) -> (r: Option<IsoSelection>)
        ensures
            self == DemoScenario::Format ==> r is None,
            self != DemoScenario::Format ==> (r matches Some(s) && s.name@
                == "ubuntu-24.04-desktop-amd64.iso"@ && s.size.spec_bytes() == 6_200_000_000
                && s.kind == IsoKind::Isohybrid),
    {
        match self {
            DemoScenario::Format => None,
            _ => Some(
                IsoSelection {
                    name: "ubuntu-24.04-desktop-amd64.iso".to_owned(),
                    size: ByteSize::from_bytes(6_200_000_000),
                    kind: IsoKind::Isohybrid,
                },
            ),
        }
    }

    /// The operation state: writing 42 of 100 in the running scenario, idle
    /// otherwise.
    pub fn write_state(self) -> (r: WriteState)
        ensures
            self == DemoScenario::Running ==> r == (WriteState::Writing { done: 42, total: 100 }),
            self != DemoScenario::Running ==> r == WriteState::Idle,
    {
        match self {
            DemoScenario::Running => WriteState::Writing { done: 42, total: 100 },
            _ => WriteState::Idle,
        }
    }
}

/// No operation can be started while one is under way: from the moment the
/// device is being prepared until the read-back ends, the form is never ready,
/// whatever device, mode, image or label is chosen.
pub proof fn lemma_no_start_while_busy(
    selected: Option<usize>,
    mode: Mode,
    state: WriteState,
    iso: Option<IsoKind>,
    label_valid: bool,
)
    requires
        state is Preparing || state is Writing || state is Verifying,
    ensures
        !ready_to_start(selected, mode, state, iso, label_valid),
{
}

/// A form may be ready only between operations: idle, finished, failed or
/// cancelled.
pub proof fn lemma_ready_only_between_operations(
    selected: Option<usize>,
    mode: Mode,
    state: WriteState,
    iso: Option<IsoKind>,
    label_valid: bool,
)
    requires
        ready_to_start(selected, mode, state, iso, label_valid),
    ensures
        state is Idle || state is Done || state is Failed || state is Cancelled,
{
}

/// The status line tells the two modes apart while the device is prepared,
/// written and finished: writing an image says `Gravando imagem…`, preparing
/// it says `Preparando dispositivo…`, and formatting says `Formatando…`.
pub proof fn lemma_status_tells_modes_apart(done: u64, total: u64, ready: bool)
    ensures
        status_of(WriteState::Writing { done, total }, Mode::Boot, ready).0 == "Gravando imagem\u{2026}"@,
        status_of(WriteState::Writing { done, total }, Mode::Format, ready).0 == "Formatando\u{2026}"@,
        status_of(WriteState::Writing { done, total }, Mode::Boot, ready).0 != status_of(
            WriteState::Writing { done, total },
            Mode::Format,
            ready,
        ).0,
        status_of(WriteState::Preparing, Mode::Boot, ready).0 != status_of(
            WriteState::Preparing,
            Mode::Format,
            ready,
        ).0,
        status_of(WriteState::Done, Mode::Boot, ready).0 != status_of(WriteState::Done, Mode::Format, ready).0,
        status_of(WriteState::Writing { done, total }, Mode::Boot, ready).1 == Tone::Muted,
{
    reveal_strlit("Gravando imagem\u{2026}");
    reveal_strlit("Formatando\u{2026}");
    reveal_strlit("Preparando dispositivo\u{2026}");
    reveal_strlit("Pendrive bootável pronto!");
    reveal_strlit("Formatação concluída!");
    assert("Gravando imagem\u{2026}"@[0] != "Formatando\u{2026}"@[0]);
    assert("Preparando dispositivo\u{2026}"@[0] != "Formatando\u{2026}"@[0]);
    assert("Pendrive bootável pronto!"@[1] != "Formatação concluída!"@[1]);
}

} // verus!

use nur::domain::{FilesystemKind, IsoKind, PartitionScheme};
use nur::form::{DemoScenario, DeviceListState, FormState, Mode, Tone, WriteState};

#[test]
fn fresh_form_defaults() {
    let f = FormState::new();
    assert_eq!(f.label(), "BOOTUSB");
    assert!(f.quick_format());
    assert_eq!(f.mode(), Mode::Boot);
    assert!(f.selected().is_none());
}

#[test]
fn ready_needs_device_input_and_idle() {
    let mut f = FormState::new();
    let idle = WriteState::Idle;
    assert!(!f.ready(&idle, Some(IsoKind::Isohybrid), true));
    f.set_selected(Some(0));
    assert!(f.ready(&idle, Some(IsoKind::Isohybrid), false));
    assert!(!f.ready(&idle, Some(IsoKind::Unsupported), true));
    assert!(!f.ready(&idle, None, true));
    assert!(!f.ready(&WriteState::Writing { done: 1, total: 2 }, Some(IsoKind::Isohybrid), true));
    assert!(f.ready(&WriteState::Done, Some(IsoKind::Isohybrid), true));
    f.set_mode(Mode::Format);
    assert!(f.ready(&idle, None, true));
    assert!(!f.ready(&idle, None, false));
}

#[test]
fn confirmation_accepts_apagar_any_case() {
    let mut f = FormState::new();
    f.open_confirm();
    assert!(f.modal_open());
    assert!(!f.confirmation_typed());
    f.set_confirm_text("  apagar ".to_owned());
    assert!(f.confirmation_typed());
    f.set_confirm_text("APAGA".to_owned());
    assert!(!f.confirmation_typed());
}

#[test]
fn status_lines() {
    let mut f = FormState::new();
    assert_eq!(f.status_text(&WriteState::Idle, true), ("Pronto para iniciar.".to_owned(), Tone::Muted));
    assert_eq!(
        f.status_text(&WriteState::Idle, false),
        ("Selecione um dispositivo para começar.".to_owned(), Tone::Muted)
    );
    assert_eq!(
        f.status_text(&WriteState::Done, false),
        ("Pendrive bootável pronto!".to_owned(), Tone::Success)
    );
    assert_eq!(
        f.status_text(&WriteState::Failed("erro".to_owned()), false),
        ("erro".to_owned(), Tone::Destructive)
    );
    f.set_mode(Mode::Format);
    assert_eq!(f.status_text(&WriteState::Preparing, false).0, "Formatando\u{2026}");
    assert_eq!(f.status_text(&WriteState::Done, false).0, "Formatação concluída!");
    assert!(FormState::in_progress(&WriteState::Verifying { done: 0, total: 1 }));
    assert!(!FormState::in_progress(&WriteState::Cancelled));
}

#[test]
fn demo_scenarios() {
    let mut f = FormState::new();
    f.apply_demo(DemoScenario::Modal);
    assert!(f.modal_open());
    assert_eq!(f.confirm_text(), "APAGAR");
    assert_eq!(f.selected(), Some(0));
    let mut g = FormState::new();
    g.apply_demo(DemoScenario::Format);
    assert_eq!(g.mode(), Mode::Format);
    assert!(DemoScenario::Format.selected_iso().is_none());
    assert_eq!(DemoScenario::Ready.selected_iso().unwrap().kind, IsoKind::Isohybrid);
    assert_eq!(DemoScenario::Running.write_state(), WriteState::Writing { done: 42, total: 100 });
    assert_eq!(DemoScenario::Modal.write_state(), WriteState::Idle);
    match DemoScenario::Ready.device_list() {
        DeviceListState::Ready(v) => assert_eq!(v[0].path, "/dev/sdb"),
        _ => panic!("demo list must be ready"),
    }
}

#[test]
fn label_validity() {
    let mut f = FormState::new();
    assert!(f.label_valid());
    f.set_label(String::new());
    assert!(!f.label_valid());
    f.set_label("ABCDEFGHIJK".to_string());
    assert!(f.label_valid());
    f.set_label("ABCDEFGHIJKL".to_string());
    assert!(!f.label_valid());
    f.set_label("ÇÃO".to_string());
    assert!(!f.label_valid());
}

#[test]
fn format_options_follow_the_form() {
    let mut f = FormState::new();
    let o = f.format_options();
    assert_eq!(o.scheme(), PartitionScheme::Gpt);
    assert_eq!(o.filesystem(), FilesystemKind::Fat32);
    assert_eq!(o.label(), "BOOTUSB");
    assert!(o.quick());
    f.set_partition(1);
    f.set_filesystem(2);
    f.set_label("DADOS".to_owned());
    f.set_quick_format(false);
    let o = f.format_options();
    assert_eq!(o.scheme(), PartitionScheme::Mbr);
    assert_eq!(o.filesystem(), FilesystemKind::ExFat);
    assert_eq!(o.label(), "DADOS");
    assert!(!o.quick());
    f.set_filesystem(1);
    assert_eq!(f.format_options().filesystem(), FilesystemKind::Ntfs);
    f.set_filesystem(3);
    assert_eq!(f.format_options().filesystem(), FilesystemKind::Ext4);
    f.set_target(2);
    assert_eq!(f.target(), 2);
    assert_eq!(f.partition(), 1);
}

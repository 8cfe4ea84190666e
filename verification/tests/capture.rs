use nur::capture::{Capturador, Capturer};

#[test]
fn destino_manual_incrementa_e_numera() {
    let mut cap = Capturador::new(None);
    let p1 = cap.proximo_destino();
    let p2 = cap.proximo_destino();
    assert_ne!(p1, p2);
    assert!(p1.contains("001"));
    assert!(p2.contains("002"));
}

#[test]
fn manual_destination_increments_and_numbers() {
    let mut cap = Capturer::new(None);
    let p1 = cap.next_destination();
    let p2 = cap.next_destination();
    assert_ne!(p1, p2);
    assert!(p1.contains("001"));
    assert!(p2.contains("002"));
}

#[test]
fn numbered_names_are_exact() {
    let mut cap = Capturador::new(None);
    assert_eq!(cap.proximo_destino(), "nur-screenshot-001.png");
    for _ in 1..999 {
        cap.proximo_destino();
    }
    assert_eq!(cap.contador(), 999);
    assert_eq!(cap.proximo_destino(), "nur-screenshot-1000.png");
    assert_eq!(nur::capture::numbered_capture_name(42), "nur-screenshot-042.png");
    assert_eq!(nur::capture::numbered_capture_name(0), "nur-screenshot-000.png");
}

#[test]
fn automatic_destination_is_fixed() {
    let mut cap = Capturador::new(Some("/tmp/shot.png".to_owned()));
    assert!(cap.auto_ativo());
    assert_eq!(cap.proximo_destino(), "/tmp/shot.png");
    assert_eq!(cap.proximo_destino(), "/tmp/shot.png");
    assert_eq!(cap.contador(), 0);
}

#[test]
fn automatic_capture_requested_once_on_third_frame() {
    let mut cap = Capturador::new(Some("a.png".to_owned()));
    assert_eq!(cap.quadro(false).screenshots, 0);
    assert_eq!(cap.quadro(false).screenshots, 0);
    let third = cap.quadro(false);
    assert_eq!(third.screenshots, 1);
    assert!(third.repaint);
    assert_eq!(cap.quadro(true).screenshots, 1);
    assert_eq!(cap.quadro(false).screenshots, 0);
    let mut manual = Capturador::new(None);
    let f = manual.quadro(true);
    assert_eq!(f.screenshots, 1);
    assert!(!f.repaint);
}

#[test]
fn messages_after_saving() {
    let mut cap = Capturador::new(None);
    assert_eq!(cap.mensagem(), None);
    assert!(!cap.registrar("x.png", Ok(())));
    assert_eq!(cap.mensagem(), Some("captura salva em x.png"));
    assert!(!cap.registrar("y.png", Err("disco cheio".to_owned())));
    assert_eq!(cap.mensagem(), Some("falha na captura: disco cheio"));
    let mut auto = Capturador::new(Some("z.png".to_owned()));
    assert!(auto.registrar("z.png", Ok(())));
}

#[test]
fn capturer_gives_up_after_600_frames() {
    let mut cap = Capturer::new(Some("a.png".to_owned()));
    let mut aborted_at = 0;
    for i in 1..=700u32 {
        let r = cap.process_frame(false);
        if i == 3 {
            assert_eq!(r.screenshots, 1);
            assert!(r.repaint);
        }
        if r.abort {
            aborted_at = i;
            break;
        }
    }
    assert_eq!(aborted_at, 601);
}

#[test]
fn capturer_pending_until_image_arrives() {
    let mut cap = Capturer::new(None);
    assert!(!cap.process_frame(false).repaint);
    cap.capture_now();
    assert!(cap.process_frame(false).repaint);
    assert_eq!(cap.image_arrived(), "nur-screenshot-001.png");
    assert!(!cap.process_frame(false).repaint);
    assert!(!cap.saved_completes());
}

#[test]
fn auto_mode_and_message_over_a_run_of_frames() {
    let mut cap = Capturador::new(Some("a.png".to_owned()));
    assert_eq!(cap.mensagem(), None);
    for _ in 0..4 {
        cap.quadro(false);
        assert!(cap.auto_ativo());
        assert_eq!(cap.mensagem(), None);
    }
    let d = cap.proximo_destino();
    assert!(cap.registrar(&d, Err("disco cheio".to_owned())) == false);
    assert_eq!(cap.mensagem(), Some("falha na captura: disco cheio"));
    cap.quadro(true);
    assert_eq!(cap.mensagem(), Some("falha na captura: disco cheio"));
    assert!(cap.registrar(&d, Ok(())));
    assert_eq!(cap.mensagem(), Some("captura salva em a.png"));
    assert!(cap.auto_ativo());
    let mut manual = Capturador::new(None);
    manual.quadro(true);
    assert!(!manual.auto_ativo());
}

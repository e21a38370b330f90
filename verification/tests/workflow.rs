use print_bot::data_types::{Message, OrderState, ReceivedMessage};
use print_bot::handler::{
    handle_image_at, handle_message_at, handle_text_at, Outbound, PromptKind, Step,
    TextResolution,
};
use print_bot::scanner::{scan_order_at, ScanAction};
use print_bot::timestamp::Timestamp;
use print_bot::webhook::{normalize, WebhookFields};

fn msg(chat_id: &str, name: &str, body: &str) -> ReceivedMessage {
    ReceivedMessage {
        chat_id: chat_id.to_string(),
        customer_name: name.to_string(),
        message: body.to_string(),
    }
}

fn t(secs: u64) -> Timestamp {
    Timestamp { secs }
}

fn assert_prompt(step: &Step, kind: PromptKind) {
    match &step.send {
        Some(Outbound::Prompt(k)) => assert_eq!(*k, kind),
        _ => panic!("expected a prompt"),
    }
}

#[test]
fn first_image_to_handoff_end_to_end() {
    // a new customer sends one image: order opened, paper prompt owed and sent
    let step = handle_image_at(None, msg("79001112233@c.us", "Lea", "http://img/1"), t(10));
    assert_prompt(&step, PromptKind::Paper);
    let order = step.order.expect("order must be stored");
    assert_eq!(order.files_count(), 1);
    assert_eq!(order.repeats(), 0);
    match &order {
        OrderState::FilesReceiving { first_prompt_sent, .. } => assert!(first_prompt_sent),
        _ => panic!("expected FilesReceiving"),
    }

    // the customer names a paper type: intake advances to the size question
    let step = handle_text_at(
        Some(order),
        msg("79001112233@c.us", "Lea", "A4"),
        TextResolution::Paper("A4".to_string()),
        t(20),
    );
    assert_prompt(&step, PromptKind::Size);
    let order = step.order.expect("order must be stored");
    assert!(matches!(order, OrderState::SizeRequested { .. }));
    assert_eq!(order.get_paper(), "A4");

    // the customer names a size: the order is handed off and leaves the store
    let step = handle_text_at(
        Some(order),
        msg("79001112233@c.us", "Lea", "A3-20x30"),
        TextResolution::Size("A3-20x30".to_string(), 1500),
        t(30),
    );
    assert!(step.order.is_none());
    match step.send {
        Some(Outbound::Handoff(m)) => {
            assert_eq!(m.phone, "79001112233");
            assert_eq!(m.name, "Lea");
            assert_eq!(m.paper_type, "A4");
            assert_eq!(m.paper_size, "A3-20x30");
            assert_eq!(m.price, 1500);
            assert_eq!(m.files, vec!["http://img/1"]);
        }
        _ => panic!("expected a handoff"),
    }
}

#[test]
fn first_text_opens_a_quiet_order() {
    let step = handle_text_at(
        None,
        msg("1@c.us", "Mia", "hello"),
        TextResolution::Unrecognized,
        t(5),
    );
    assert!(step.send.is_none());
    let order = step.order.expect("order must be stored");
    assert_eq!(order.files_count(), 0);
    match &order {
        OrderState::FilesReceiving { first_prompt_sent, .. } => assert!(first_prompt_sent),
        _ => panic!("expected FilesReceiving"),
    }
}

#[test]
fn paper_answer_while_receiving_files_skips_ahead() {
    let opened = handle_image_at(None, msg("2@c.us", "Nat", "u1"), t(5))
        .order
        .unwrap();
    let step = handle_text_at(
        Some(opened),
        msg("2@c.us", "Nat", "matte"),
        TextResolution::Paper("matte".to_string()),
        t(6),
    );
    assert_prompt(&step, PromptKind::Size);
    let order = step.order.unwrap();
    assert!(matches!(order, OrderState::SizeRequested { .. }));
    assert_eq!(order.get_paper(), "matte");
    assert_eq!(order.repeats(), 0);
}

#[test]
fn paper_answer_without_files_waits_for_files() {
    let opened = handle_text_at(
        None,
        msg("10@c.us", "Vic", "hi"),
        TextResolution::Unrecognized,
        t(5),
    )
    .order
    .unwrap();
    assert!(!opened.have_files());
    let step = handle_text_at(
        Some(opened),
        msg("10@c.us", "Vic", "matte"),
        TextResolution::Paper("matte".to_string()),
        t(6),
    );
    assert_prompt(&step, PromptKind::SendFiles);
    let order = step.order.unwrap();
    assert!(matches!(order, OrderState::FilesReceiving { .. }));
    assert_eq!(order.repeats(), 1);
}

#[test]
fn unrecognized_text_reprompts_and_counts() {
    let opened = handle_image_at(None, msg("3@c.us", "Oli", "u1"), t(5))
        .order
        .unwrap();
    let step = handle_text_at(
        Some(opened),
        msg("3@c.us", "Oli", "???"),
        TextResolution::Unrecognized,
        t(6),
    );
    assert_prompt(&step, PromptKind::Paper);
    let order = step.order.unwrap();
    assert_eq!(order.repeats(), 1);

    // a size answer out of turn is also just a re-prompt
    let step = handle_text_at(
        Some(order),
        msg("3@c.us", "Oli", "10x15"),
        TextResolution::Size("10x15".to_string(), 700),
        t(7),
    );
    assert_prompt(&step, PromptKind::Paper);
    assert_eq!(step.order.unwrap().repeats(), 2);
}

#[test]
fn state_notification_changes_nothing() {
    let opened = handle_image_at(None, msg("4@c.us", "Pia", "u1"), t(5))
        .order
        .unwrap();
    let before = opened.clone();
    let step = handle_message_at(
        Some(opened),
        Message::StateInstance("authorized".to_string()),
        TextResolution::Unrecognized,
        t(6),
    );
    assert!(step.send.is_none());
    assert_eq!(step.order.unwrap(), before);
}

#[test]
fn scan_reminds_a_fileless_order_once_per_quiet_period() {
    let mut order = handle_text_at(
        None,
        msg("5@c.us", "Quin", "hi"),
        TextResolution::Unrecognized,
        t(100),
    )
    .order
    .unwrap();

    // not yet idle long enough
    assert_eq!(scan_order_at(&mut order, t(150), 60, 30, 3), ScanAction::Keep);
    assert_eq!(order.repeats(), 0);

    // the no-files threshold passes: exactly one reminder
    assert_eq!(
        scan_order_at(&mut order, t(161), 60, 30, 3),
        ScanAction::Remind(PromptKind::SendFiles)
    );
    assert_eq!(order.repeats(), 1);

    // the same tick, and the next one shortly after, stay quiet
    assert_eq!(scan_order_at(&mut order, t(161), 60, 30, 3), ScanAction::Keep);
    assert_eq!(scan_order_at(&mut order, t(166), 60, 30, 3), ScanAction::Keep);
    assert_eq!(order.repeats(), 1);

    // only a whole new quiet period earns the next reminder
    assert_eq!(
        scan_order_at(&mut order, t(222), 60, 30, 3),
        ScanAction::Remind(PromptKind::SendFiles)
    );
    assert_eq!(order.repeats(), 2);
}

#[test]
fn scan_reprompts_awaiting_reply_states() {
    let opened = handle_image_at(None, msg("6@c.us", "Rae", "u1"), t(100))
        .order
        .unwrap();
    let mut order = opened
        .into_order_with_paper_requested_at(t(100))
        .unwrap();
    assert_eq!(scan_order_at(&mut order, t(129), 600, 30, 3), ScanAction::Keep);
    assert_eq!(
        scan_order_at(&mut order, t(130), 600, 30, 3),
        ScanAction::Remind(PromptKind::Paper)
    );

    let mut order = order
        .into_order_with_paper_at("A4".to_string(), t(130))
        .unwrap();
    assert_eq!(
        scan_order_at(&mut order, t(161), 600, 30, 3),
        ScanAction::Remind(PromptKind::Size)
    );
}

#[test]
fn scan_escalates_exactly_once_after_repeat_count() {
    let mut order = handle_text_at(
        None,
        msg("7@c.us", "Sol", "hi"),
        TextResolution::Unrecognized,
        t(0),
    )
    .order
    .unwrap();

    // three reminders with no reply
    assert_eq!(
        scan_order_at(&mut order, t(61), 60, 30, 3),
        ScanAction::Remind(PromptKind::SendFiles)
    );
    assert_eq!(
        scan_order_at(&mut order, t(122), 60, 30, 3),
        ScanAction::Remind(PromptKind::SendFiles)
    );
    assert_eq!(
        scan_order_at(&mut order, t(183), 60, 30, 3),
        ScanAction::Remind(PromptKind::SendFiles)
    );
    assert_eq!(order.repeats(), 3);

    // the next pass escalates, leaving the snapshot unchanged; the store
    // removes the order, so no later pass sees it again
    let before = order.clone();
    assert_eq!(scan_order_at(&mut order, t(184), 60, 30, 3), ScanAction::Escalate);
    assert_eq!(order, before);
}

#[test]
fn scan_never_touches_a_terminal_order() {
    let order = OrderState::SizeSelected {
        chat_id: "8@c.us".to_string(),
        customer_name: "Tam".to_string(),
        paper: "A4".to_string(),
        size: "10x15".to_string(),
        price: 700,
        files: vec!["f".to_string()],
    };
    let mut scanned = order.clone();
    assert_eq!(
        scan_order_at(&mut scanned, t(1_000_000), 60, 30, 3),
        ScanAction::Keep
    );
    assert_eq!(scanned, order);
    assert!(scanned.repeats() >= order.repeats());
}

fn empty_fields() -> WebhookFields {
    WebhookFields {
        type_webhook: String::new(),
        type_message: None,
        chat_id: None,
        sender_name: None,
        download_url: None,
        text: None,
        state_instance: None,
    }
}

#[test]
fn normalize_recognizes_image_and_text() {
    let w = WebhookFields {
        type_webhook: "incomingMessageReceived".to_string(),
        type_message: Some("imageMessage".to_string()),
        chat_id: Some("9@c.us".to_string()),
        sender_name: Some("Uma".to_string()),
        download_url: Some("http://img/9".to_string()),
        text: None,
        state_instance: None,
    };
    match normalize(w) {
        Message::Image(m) => {
            assert_eq!(m.chat_id, "9@c.us");
            assert_eq!(m.customer_name, "Uma");
            assert_eq!(m.message, "http://img/9");
        }
        _ => panic!("expected an image message"),
    }

    let w = WebhookFields {
        type_webhook: "incomingMessageReceived".to_string(),
        type_message: Some("textMessage".to_string()),
        chat_id: Some("9@c.us".to_string()),
        sender_name: Some("Uma".to_string()),
        download_url: None,
        text: Some("A4".to_string()),
        state_instance: None,
    };
    match normalize(w) {
        Message::Text(m) => assert_eq!(m.message, "A4"),
        _ => panic!("expected a text message"),
    }
}

#[test]
fn normalize_recognizes_state_changes() {
    let w = WebhookFields {
        type_webhook: "stateInstanceChanged".to_string(),
        state_instance: Some("authorized".to_string()),
        ..empty_fields()
    };
    match normalize(w) {
        Message::StateInstance(s) => assert_eq!(s, "authorized"),
        _ => panic!("expected a state notification"),
    }
}

#[test]
fn normalize_drops_unknown_payloads() {
    let w = WebhookFields {
        type_webhook: "somethingElse".to_string(),
        ..empty_fields()
    };
    assert!(matches!(normalize(w), Message::Empty));

    let w = WebhookFields {
        type_webhook: "incomingMessageReceived".to_string(),
        type_message: Some("videoMessage".to_string()),
        chat_id: Some("9@c.us".to_string()),
        sender_name: Some("Uma".to_string()),
        ..empty_fields()
    };
    assert!(matches!(normalize(w), Message::Empty));
}

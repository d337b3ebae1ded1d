use nchat::client::{forward_client_message, forward_prerender, forward_udp, message_prerender, outbound_template, render_line};
use nchat::{Arrival, Client, ClientCode, ControlCode, Endpoint, Group, InternalMessage, Member, Message, ReceiverStep, RenderStep, SenderStep};

fn endpoint(text: &str) -> Endpoint {
    Endpoint::new(text.to_string())
}

fn message(code: ControlCode, timestamp: i64, text: &str) -> Message {
    Message::new(
        code,
        timestamp,
        Group::new("global".to_string(), 0),
        Member::new("alice".to_string(), endpoint("127.0.0.1:9090")),
        text.to_string(),
    )
}

#[test]
fn internal_message_accessors() {
    let e = InternalMessage::new(ClientCode::SendMessage, "hi".to_string());
    assert_eq!(*e.get_code(), ClientCode::SendMessage);
    assert_eq!(e.get_message(), "hi");
    let e = InternalMessage::new(ClientCode::ClientShutdown, String::new());
    assert_eq!(*e.get_code(), ClientCode::ClientShutdown);
    assert_eq!(e.get_message(), "");
}

#[test]
fn client_starts_without_a_group() {
    let c = Client::new("alice".to_string(), endpoint("127.0.0.1:9090"));
    assert_eq!(c.current_group(), "");
    assert_eq!(c.get_group().get_name(), "");
    assert_eq!(c.get_group().get_id(), 0);
    assert_eq!(c.get_member().get_nickname(), "alice");
    assert_eq!(c.get_member().get_address().as_text(), "127.0.0.1:9090");
}

#[test]
fn try_login_asks_for_the_group_and_records_it() {
    let mut c = Client::new("alice".to_string(), endpoint("127.0.0.1:9090"));
    let request = c.try_login("global");
    assert_eq!(*request.get_code(), ControlCode::JoinGroup);
    assert_eq!(request.get_message(), "global");
    assert_eq!(request.get_group().get_name(), "");
    assert_eq!(request.get_group().get_id(), 0);
    assert_eq!(request.get_sender().get_nickname(), "alice");
    assert_eq!(request.get_sender().get_address().as_text(), "127.0.0.1:9090");
    assert!(request.get_timestamp() > 1_577_836_800);
    assert!(request.get_timestamp() <= nchat::clock::MAX_TIMESTAMP);
    assert!(message_prerender(&request).is_some());
    assert_eq!(c.current_group(), "global");
    assert_eq!(c.get_group().get_name(), "global");
    let second = c.try_login("rust");
    assert_eq!(second.get_group().get_name(), "global");
    assert_eq!(second.get_message(), "rust");
    assert_eq!(c.current_group(), "rust");
}

#[test]
fn receiver_stops_only_on_a_failed_socket() {
    assert!(matches!(forward_udp(Arrival::Failed), ReceiverStep::Stop));
    assert!(matches!(forward_udp(Arrival::Garbled), ReceiverStep::Skip));
    match forward_udp(Arrival::Datagram("{\"code\":\"Error\"}".to_string())) {
        ReceiverStep::Forward(event) => {
            assert_eq!(*event.get_code(), ClientCode::ReceiveMessage);
            assert_eq!(event.get_message(), "{\"code\":\"Error\"}");
        }
        other => panic!("unexpected step {:?}", other),
    }
}

#[test]
fn lines_for_each_code() {
    let t = "2015-05-15 00:00:00 +00:00";
    assert_eq!(render_line(&message(ControlCode::Error, 0, "group rust not exist"), t), "server error: group rust not exist");
    assert_eq!(
        render_line(&message(ControlCode::JoinGroup, 0, "global"), t),
        "😊 alice@127.0.0.1:9090 has joined the group -- 2015-05-15 00:00:00 +00:00"
    );
    assert_eq!(
        render_line(&message(ControlCode::LeaveGroup, 0, ""), t),
        "👋 alice@127.0.0.1:9090 has left the group -- 2015-05-15 00:00:00 +00:00"
    );
    assert_eq!(
        render_line(&message(ControlCode::ExitServer, 0, ""), t),
        "👋 alice@127.0.0.1:9090 has exit the server -- 2015-05-15 00:00:00 +00:00"
    );
    assert_eq!(
        render_line(&message(ControlCode::SendMessage, 0, "hi"), t),
        "~> alice@127.0.0.1:9090 -- 2015-05-15 00:00:00 +00:00 <~\nhi"
    );
    assert_eq!(render_line(&message(ControlCode::SendMessage, 0, ""), ""), "~> alice@127.0.0.1:9090 --  <~\n");
}

#[test]
fn prerender_uses_the_local_time() {
    // 2015-05-15 00:00:00 UTC: in any time zone the local date is the 14th or the 15th.
    let line = message_prerender(&message(ControlCode::SendMessage, 1431648000, "hi")).unwrap();
    assert!(line.starts_with("~> alice@127.0.0.1:9090 -- 2015-05-1"));
    assert!(line.ends_with(" <~\nhi"));
    assert!(!line.contains("1431648000"));
    let line = message_prerender(&message(ControlCode::Error, 1431648000, "no")).unwrap();
    assert_eq!(line, "server error: no");
}

#[test]
fn prerender_shows_the_first_and_the_last_instant() {
    assert_eq!(nchat::clock::MIN_TIMESTAMP, -8_334_601_228_800);
    assert_eq!(nchat::clock::MAX_TIMESTAMP, 8_210_266_876_799);
    assert!(message_prerender(&message(ControlCode::JoinGroup, -8_334_601_228_800, "")).is_some());
    assert!(message_prerender(&message(ControlCode::JoinGroup, -8_334_601_228_801, "")).is_none());
    assert!(message_prerender(&message(ControlCode::JoinGroup, 8_210_266_876_799, "")).is_some());
    assert!(message_prerender(&message(ControlCode::JoinGroup, 8_210_266_876_800, "")).is_none());
}

#[test]
fn prerender_drops_a_time_that_is_no_instant() {
    assert!(message_prerender(&message(ControlCode::SendMessage, i64::MAX, "hi")).is_none());
    assert!(message_prerender(&message(ControlCode::SendMessage, i64::MIN, "hi")).is_none());
    assert!(message_prerender(&message(ControlCode::Error, i64::MAX, "hi")).is_none());
    assert!(message_prerender(&message(ControlCode::SendMessage, 0, "hi")).is_some());
    assert!(message_prerender(&message(ControlCode::SendMessage, -1, "hi")).is_some());
}

#[test]
fn render_stage_steps() {
    let received = InternalMessage::new(ClientCode::ReceiveMessage, "raw".to_string());
    let m = message(ControlCode::Error, 1431648000, "oops");
    match forward_prerender(&received, Some(&m)) {
        RenderStep::Show(line) => assert_eq!(line, "server error: oops"),
        other => panic!("unexpected step {:?}", other),
    }
    assert!(matches!(forward_prerender(&received, None), RenderStep::Skip));
    let broken = message(ControlCode::Error, i64::MAX, "oops");
    assert!(matches!(forward_prerender(&received, Some(&broken)), RenderStep::Skip));
    let quit = InternalMessage::new(ClientCode::ClientShutdown, String::new());
    assert!(matches!(forward_prerender(&quit, None), RenderStep::Stop));
    assert!(matches!(forward_prerender(&quit, Some(&m)), RenderStep::Stop));
    let typed = InternalMessage::new(ClientCode::SendMessage, "hi".to_string());
    assert!(matches!(forward_prerender(&typed, Some(&m)), RenderStep::Skip));
}

#[test]
fn template_is_an_empty_chat_line() {
    let member = Member::new("alice".to_string(), endpoint("127.0.0.1:9090"));
    let group = Group::new("global".to_string(), 0);
    let t = outbound_template(&member, &group);
    assert_eq!(*t.get_code(), ControlCode::SendMessage);
    assert_eq!(t.get_message(), "");
    assert_eq!(t.get_group().get_name(), "global");
    assert_eq!(t.get_sender().get_nickname(), "alice");
    assert_eq!(t.get_sender().get_address().as_text(), "127.0.0.1:9090");
    assert!(t.get_timestamp() > 1_577_836_800);
    assert!(t.get_timestamp() <= nchat::clock::MAX_TIMESTAMP);
}

#[test]
fn sender_rewrites_code_and_text() {
    let mut t = message(ControlCode::SendMessage, 77, "");
    let step = forward_client_message(&mut t, &InternalMessage::new(ClientCode::SendMessage, "hi".to_string()));
    assert_eq!(step, SenderStep::Transmit);
    assert_eq!(*t.get_code(), ControlCode::SendMessage);
    assert_eq!(t.get_message(), "hi");
    assert_eq!(t.get_timestamp(), 77);

    let step = forward_client_message(&mut t, &InternalMessage::new(ClientCode::ReceiveMessage, "x".to_string()));
    assert_eq!(step, SenderStep::Ignore);
    assert_eq!(*t.get_code(), ControlCode::SendMessage);
    assert_eq!(t.get_message(), "hi");

    let step = forward_client_message(&mut t, &InternalMessage::new(ClientCode::ClientShutdown, String::new()));
    assert_eq!(step, SenderStep::TransmitAndStop);
    assert_eq!(*t.get_code(), ControlCode::ExitServer);
    assert_eq!(t.get_message(), "");
    assert_eq!(t.get_sender().get_nickname(), "alice");
    assert_eq!(t.get_group().get_name(), "global");
    assert_eq!(t.get_timestamp(), 77);
}

#[test]
fn farewell_goes_out_once_and_last() {
    let events = vec![
        InternalMessage::new(ClientCode::SendMessage, "one".to_string()),
        InternalMessage::new(ClientCode::ReceiveMessage, "noise".to_string()),
        InternalMessage::new(ClientCode::SendMessage, "two".to_string()),
        InternalMessage::new(ClientCode::ClientShutdown, String::new()),
        InternalMessage::new(ClientCode::SendMessage, "late".to_string()),
    ];
    let mut t = message(ControlCode::SendMessage, 77, "");
    let mut sent: Vec<(ControlCode, String)> = Vec::new();
    for e in events.iter() {
        match forward_client_message(&mut t, e) {
            SenderStep::Ignore => {}
            SenderStep::Transmit => sent.push((*t.get_code(), t.get_message().clone())),
            SenderStep::TransmitAndStop => {
                sent.push((*t.get_code(), t.get_message().clone()));
                break;
            }
        }
    }
    assert_eq!(
        sent,
        vec![
            (ControlCode::SendMessage, "one".to_string()),
            (ControlCode::SendMessage, "two".to_string()),
            (ControlCode::ExitServer, String::new()),
        ]
    );
}

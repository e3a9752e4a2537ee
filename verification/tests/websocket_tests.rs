use obs_reminder::config::ToastDirection;
use obs_reminder::text::decimal;
use obs_reminder::websocket::{
    delivered_to, frame, publish_on, step_for, InboundEvent, OutboundEvent,
    WebSocketMessage, WebSocketServer, WriteStep, CHANNEL_CAPACITY, WEBSOCKET_PORT,
};
use tokio::sync::broadcast::error::TryRecvError;

fn toast(title: &str, content: &str) -> WebSocketMessage {
    WebSocketMessage::new_toast(
        title.to_string(),
        content.to_string(),
        "#FF6B6B".to_string(),
        "#4ECDC4".to_string(),
        "#FFFFFF".to_string(),
        5,
        false,
        None,
        ToastDirection::Top,
    )
}

#[test]
fn a_toast_carries_its_duration_in_milliseconds() {
    let message = WebSocketMessage::new_toast(
        "t".to_string(),
        "c".to_string(),
        "#111111".to_string(),
        "#222222".to_string(),
        "#333333".to_string(),
        7,
        true,
        Some("/audio/abc".to_string()),
        ToastDirection::Left,
    );
    assert_eq!(message.kind, "toast");
    assert_eq!(message.data.title, "t");
    assert_eq!(message.data.content, "c");
    assert_eq!(message.data.color_1, "#111111");
    assert_eq!(message.data.color_2, "#222222");
    assert_eq!(message.data.text_color, "#333333");
    assert_eq!(message.data.duration, 7_000);
    assert!(message.data.enable_sound);
    assert_eq!(message.data.sound_url, Some("/audio/abc".to_string()));
    assert_eq!(message.data.direction, ToastDirection::Left);
}

#[test]
fn the_longest_duration_that_fits_is_taken() {
    let message = WebSocketMessage::new_toast(
        String::new(),
        String::new(),
        String::new(),
        String::new(),
        String::new(),
        4_294_967,
        false,
        None,
        ToastDirection::Top,
    );
    assert_eq!(message.data.duration, 4_294_967_000);
}

#[test]
fn a_frame_has_the_documented_text() {
    let text = toast("Hello", "World").to_message().unwrap();
    assert_eq!(
        text,
        "{\"type\":\"toast\",\"data\":{\"title\":\"Hello\",\"content\":\"World\",\
         \"color_1\":\"#FF6B6B\",\"color_2\":\"#4ECDC4\",\"text_color\":\"#FFFFFF\",\
         \"duration\":5000,\"enable_sound\":false,\"sound_url\":null,\"direction\":\"top\"}}"
    );
}

#[test]
fn a_frame_with_sound_names_the_url() {
    let message = WebSocketMessage::new_toast(
        "a".to_string(),
        "b".to_string(),
        "#000000".to_string(),
        "#000001".to_string(),
        "#000002".to_string(),
        60,
        true,
        Some("/audio/0f".to_string()),
        ToastDirection::Right,
    );
    assert_eq!(
        message.to_message().unwrap(),
        "{\"type\":\"toast\",\"data\":{\"title\":\"a\",\"content\":\"b\",\
         \"color_1\":\"#000000\",\"color_2\":\"#000001\",\"text_color\":\"#000002\",\
         \"duration\":60000,\"enable_sound\":true,\"sound_url\":\"/audio/0f\",\
         \"direction\":\"right\"}}"
    );
}

#[test]
fn a_frame_is_json_that_reads_back() {
    let title = "He said \"hi\"\n\tand left \\ 提醒 \u{1F600} \u{0001}";
    let message = WebSocketMessage::new_toast(
        title.to_string(),
        "line1\r\nline2".to_string(),
        "#FF6B6B".to_string(),
        "#4ECDC4".to_string(),
        "#FFFFFF".to_string(),
        12,
        true,
        Some("/audio/a\"b".to_string()),
        ToastDirection::Bottom,
    );
    let text = message.to_message().unwrap();
    let value: serde_json::Value = serde_json::from_str(&text).unwrap();
    assert_eq!(value["type"].as_str(), Some("toast"));
    let data = &value["data"];
    assert_eq!(data["title"].as_str(), Some(title));
    assert_eq!(data["content"].as_str(), Some("line1\r\nline2"));
    assert_eq!(data["color_1"].as_str(), Some("#FF6B6B"));
    assert_eq!(data["color_2"].as_str(), Some("#4ECDC4"));
    assert_eq!(data["text_color"].as_str(), Some("#FFFFFF"));
    assert_eq!(data["duration"].as_u64(), Some(12_000));
    assert_eq!(data["enable_sound"].as_bool(), Some(true));
    assert_eq!(data["sound_url"].as_str(), Some("/audio/a\"b"));
    assert_eq!(data["direction"].as_str(), Some("bottom"));
    assert_eq!(value.as_object().unwrap().len(), 2);
    assert_eq!(data.as_object().unwrap().len(), 9);
}

#[test]
fn texts_are_escaped_on_the_wire() {
    let text = toast("a\"b", "c\\d").to_message().unwrap();
    assert!(text.contains("\"title\":\"a\\\"b\""));
    assert!(text.contains("\"content\":\"c\\\\d\""));
}

#[test]
fn every_direction_has_its_word_on_the_wire() {
    for (direction, word) in [
        (ToastDirection::Top, "top"),
        (ToastDirection::Bottom, "bottom"),
        (ToastDirection::Left, "left"),
        (ToastDirection::Right, "right"),
    ] {
        let mut message = toast("t", "c");
        message.data.direction = direction;
        let value: serde_json::Value =
            serde_json::from_str(&message.to_message().unwrap()).unwrap();
        assert_eq!(value["data"]["direction"].as_str(), Some(word));
    }
}

#[test]
fn numbers_are_written_in_decimal() {
    assert_eq!(decimal(0), "0");
    assert_eq!(decimal(7), "7");
    assert_eq!(decimal(10), "10");
    assert_eq!(decimal(5000), "5000");
    assert_eq!(decimal(1234567890), "1234567890");
    assert_eq!(decimal(4294967295), "4294967295");
    assert_eq!(decimal(u64::MAX), "18446744073709551615");
}

#[test]
fn a_frame_is_put_together_from_its_parts() {
    assert_eq!(
        frame("K", "T", "C", "1", "2", "3", "D", "E", "S", "R"),
        "{\"type\":K,\"data\":{\"title\":T,\"content\":C,\"color_1\":1,\"color_2\":2,\
         \"text_color\":3,\"duration\":D,\"enable_sound\":E,\"sound_url\":S,\"direction\":R}}"
    );
}

#[test]
fn the_hub_starts_without_connections() {
    let hub = WebSocketServer::new();
    assert_eq!(hub.port(), 7981);
    assert_eq!(WEBSOCKET_PORT, 7981);
    assert_eq!(CHANNEL_CAPACITY, 100);
    assert_eq!(hub._get_client_count(), 0);
    assert_eq!(hub.get_sender().receiver_count(), 0);
}

#[test]
fn publishing_without_subscribers_does_not_fail() {
    let hub = WebSocketServer::new();
    assert_eq!(hub.publish(toast("a", "b")), 0);
    assert_eq!(hub.publish(toast("c", "d")), 0);
    assert_eq!(publish_on(&hub.get_sender(), toast("e", "f")), 0);
}

#[test]
fn two_subscribers_receive_the_same_messages_in_order() {
    let hub = WebSocketServer::new();
    let mut first = hub.subscribe();
    let mut second = hub.subscribe();
    let titles = ["one", "two", "three", "four"];
    for title in titles {
        assert_eq!(hub.publish(toast(title, "body")), 2);
    }
    for title in titles {
        let a = first.try_recv().unwrap();
        let b = second.try_recv().unwrap();
        assert_eq!(a.data.title, title);
        assert_eq!(b.data.title, title);
        assert_eq!(a.to_message().unwrap(), b.to_message().unwrap());
        assert_eq!(a.to_message().unwrap(), toast(title, "body").to_message().unwrap());
    }
    assert_eq!(first.try_recv().err(), Some(TryRecvError::Empty));
    assert_eq!(second.try_recv().err(), Some(TryRecvError::Empty));
}

#[test]
fn a_late_subscriber_misses_what_was_published_before() {
    let hub = WebSocketServer::new();
    let mut early = hub.subscribe();
    assert_eq!(hub.publish(toast("before", "x")), 1);
    let mut late = hub.subscribe();
    assert_eq!(hub.publish(toast("after", "y")), 2);
    assert_eq!(early.try_recv().unwrap().data.title, "before");
    assert_eq!(early.try_recv().unwrap().data.title, "after");
    assert_eq!(late.try_recv().unwrap().data.title, "after");
    assert_eq!(late.try_recv().err(), Some(TryRecvError::Empty));
}

#[test]
fn a_subscriber_that_falls_behind_loses_the_oldest_messages() {
    let hub = WebSocketServer::new();
    let mut slow = hub.subscribe();
    for k in 0..130u32 {
        assert_eq!(hub.publish(toast(&k.to_string(), "x")), 1);
    }
    match slow.try_recv() {
        Err(TryRecvError::Lagged(missed)) => assert!(missed >= 2),
        other => panic!("expected a lag, got {:?}", other.map(|m| m.data.title)),
    }
    let next = slow.try_recv().unwrap();
    assert_ne!(next.data.title, "0");
    assert_ne!(next.data.title, "1");
}

#[test]
fn a_sender_handle_publishes_on_the_same_channel() {
    let hub = WebSocketServer::new();
    let sender = hub.get_sender();
    let mut subscriber = hub.subscribe();
    assert_eq!(publish_on(&sender, toast("via handle", "x")), 1);
    assert_eq!(subscriber.try_recv().unwrap().data.title, "via handle");
    drop(subscriber);
    assert_eq!(publish_on(&sender, toast("nobody", "x")), 0);
}

#[test]
fn deliveries_are_counted_from_the_channels_answer() {
    assert_eq!(delivered_to(Ok(3)), 3);
    assert_eq!(delivered_to(Ok(0)), 0);
    assert_eq!(delivered_to(Err(toast("a", "b"))), 0);
}

#[test]
fn a_connection_is_counted_until_its_reading_ends() {
    let mut hub = WebSocketServer::new();
    let mut a = hub.client_connected();
    let mut b = hub.client_connected();
    assert_eq!(hub._get_client_count(), 2);
    assert!(a.is_reading() && a.is_writing() && !a.is_closed());
    assert!(hub.on_inbound(&mut a, InboundEvent::Text));
    assert!(hub.on_inbound(&mut a, InboundEvent::Other));
    assert_eq!(hub._get_client_count(), 2);
    assert!(!hub.on_inbound(&mut a, InboundEvent::Close));
    assert_eq!(hub._get_client_count(), 1);
    assert!(!a.is_reading());
    assert!(a.is_writing());
    assert!(a.is_closed());
    assert!(!hub.on_inbound(&mut a, InboundEvent::Close));
    assert!(!hub.on_inbound(&mut a, InboundEvent::Failed));
    assert!(!hub.on_inbound(&mut a, InboundEvent::Text));
    assert_eq!(hub._get_client_count(), 1);
    assert!(!hub.on_inbound(&mut b, InboundEvent::Failed));
    assert_eq!(hub._get_client_count(), 0);
    let mut c = hub.client_connected();
    assert!(!hub.on_inbound(&mut c, InboundEvent::Ended));
    assert_eq!(hub._get_client_count(), 0);
}

#[test]
fn the_end_of_writing_does_not_change_the_count() {
    let mut hub = WebSocketServer::new();
    let mut connection = hub.client_connected();
    assert!(!connection.on_sent(false));
    assert!(connection.is_closed());
    assert!(connection.is_reading());
    assert_eq!(hub._get_client_count(), 1);
    assert!(!hub.on_inbound(&mut connection, InboundEvent::Close));
    assert_eq!(hub._get_client_count(), 0);
}

#[test]
fn a_published_message_is_sent_as_its_frame() {
    let mut hub = WebSocketServer::new();
    let mut connection = hub.client_connected();
    let expected = toast("t", "c").to_message().unwrap();
    match connection.on_outbound(OutboundEvent::Message(toast("t", "c"))) {
        WriteStep::Send(text) => assert_eq!(text, expected),
        _ => panic!("expected a frame to send"),
    }
    assert!(connection.on_sent(true));
    assert!(connection.is_writing());
}

#[test]
fn writing_goes_on_after_a_lag() {
    let mut hub = WebSocketServer::new();
    let mut lagging = hub.client_connected();
    assert!(matches!(lagging.on_outbound(OutboundEvent::Lagged), WriteStep::Skip));
    assert!(lagging.is_writing());
    assert!(!lagging.is_closed());
    let expected = toast("t", "c").to_message().unwrap();
    match lagging.on_outbound(OutboundEvent::Message(toast("t", "c"))) {
        WriteStep::Send(text) => assert_eq!(text, expected),
        _ => panic!("expected a frame to send"),
    }
    assert!(lagging.is_writing());
}

#[test]
fn writing_stops_on_a_closed_channel_and_a_failed_send() {
    let mut hub = WebSocketServer::new();
    let mut orphaned = hub.client_connected();
    assert!(matches!(orphaned.on_outbound(OutboundEvent::Closed), WriteStep::Stop));
    assert!(!orphaned.is_writing());
    assert!(matches!(orphaned.on_outbound(OutboundEvent::Lagged), WriteStep::Stop));
    assert!(matches!(
        orphaned.on_outbound(OutboundEvent::Message(toast("t", "c"))),
        WriteStep::Stop
    ));
    let mut broken = hub.client_connected();
    assert!(!broken.on_sent(false));
    assert!(!broken.on_sent(true));
    assert!(matches!(
        broken.on_outbound(OutboundEvent::Message(toast("t", "c"))),
        WriteStep::Stop
    ));
}

#[test]
fn a_connection_that_fell_behind_forwards_the_newer_messages_in_order() {
    let mut hub = WebSocketServer::new();
    let mut subscription = hub.subscribe();
    let mut connection = hub.client_connected();
    let published = 150u32;
    for k in 0..published {
        assert_eq!(hub.publish(toast(&k.to_string(), "x")), 1);
    }
    let mut skipped = 0u64;
    let mut sent = Vec::new();
    loop {
        let event = match subscription.try_recv() {
            Ok(message) => OutboundEvent::Message(message),
            Err(TryRecvError::Lagged(missed)) => {
                skipped += missed;
                OutboundEvent::Lagged
            }
            Err(TryRecvError::Closed) => OutboundEvent::Closed,
            Err(TryRecvError::Empty) => break,
        };
        match connection.on_outbound(event) {
            WriteStep::Send(text) => {
                sent.push(text);
                assert!(connection.on_sent(true));
            }
            WriteStep::Skip => {}
            WriteStep::Stop => panic!("the writing stopped"),
        }
    }
    assert!(connection.is_writing());
    assert!(skipped > 0);
    assert_eq!(skipped + sent.len() as u64, published as u64);
    assert!(sent.len() >= CHANNEL_CAPACITY);
    for (place, text) in sent.iter().enumerate() {
        let k = skipped as u32 + place as u32;
        assert_eq!(text, &toast(&k.to_string(), "x").to_message().unwrap());
    }
}

#[test]
fn every_message_is_written() {
    let odd = toast("\u{0}\u{1f}\"\\/\u{7f}\u{2028}", "\u{10FFFF}");
    assert!(odd.to_message().is_ok());
    let mut hub = WebSocketServer::new();
    let mut connection = hub.client_connected();
    assert!(matches!(connection.on_outbound(OutboundEvent::Message(odd)), WriteStep::Send(_)));
}

#[test]
fn a_message_that_cannot_be_written_is_passed_over() {
    let failure = serde_json::from_str::<serde_json::Value>("{").unwrap_err();
    assert!(matches!(step_for(Err(failure)), WriteStep::Skip));
    match step_for(Ok("frame".to_string())) {
        WriteStep::Send(text) => assert_eq!(text, "frame"),
        _ => panic!("expected a frame to send"),
    }
}

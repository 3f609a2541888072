use marmalade::net::web_socket::{Message, WebSocket, WebSocketError};

fn text_of(message: Option<Message>) -> String {
    match message {
        Some(Message::Text(text)) => text,
        _ => panic!("expected a text message"),
    }
}

#[test]
fn new_socket_is_open_and_has_nothing_to_read() {
    let mut socket = WebSocket::new();
    assert!(socket.is_open());
    assert!(matches!(socket.read(), Ok(None)));
}

#[test]
fn messages_are_read_in_the_order_they_came() {
    let mut socket = WebSocket::new();
    socket.message_received(Message::Text(String::from("one")));
    socket.message_received(Message::Binary(vec![1, 2, 3]));
    socket.message_received(Message::Text(String::from("three")));
    assert_eq!(text_of(socket.read().unwrap()), "one");
    match socket.read() {
        Ok(Some(Message::Binary(bytes))) => assert_eq!(bytes, vec![1, 2, 3]),
        _ => panic!("expected a binary message"),
    }
    assert_eq!(text_of(socket.read().unwrap()), "three");
    assert!(matches!(socket.read(), Ok(None)));
}

#[test]
fn closed_socket_is_drained_before_it_reports_the_error() {
    let mut socket = WebSocket::new();
    socket.message_received(Message::Text(String::from("last words")));
    socket.close();
    assert!(!socket.is_open());
    assert_eq!(text_of(socket.read().unwrap()), "last words");
    assert_eq!(socket.read().err(), Some(WebSocketError));
    assert_eq!(socket.read().err(), Some(WebSocketError));
}

#[test]
fn failure_closes_the_socket() {
    let mut socket = WebSocket::new();
    socket.failed();
    assert!(!socket.is_open());
    assert!(matches!(socket.read(), Err(WebSocketError)));
}

#[test]
fn refused_send_closes_the_socket() {
    let mut socket = WebSocket::new();
    assert_eq!(socket.sent(true), Ok(()));
    assert!(socket.is_open());
    assert_eq!(socket.sent(false), Err(WebSocketError));
    assert!(!socket.is_open());
    // A later send that goes through does not reopen it.
    assert_eq!(socket.sent(true), Ok(()));
    assert!(!socket.is_open());
}

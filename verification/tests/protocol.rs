use rust_chess::client::{compose, interpret_reply, read_reply, Client, Transport};
use rust_chess::connection::{Connection, EchoConnection, SelfConnection};
use rust_chess::protocol::{Message, MessageRegex};

// Test regex handling of replies
#[test]
fn test_messages() {
    // Create a dummy client
    let mut client = Client::with_connection(EchoConnection::new(), false);

    // Message missing payload
    match client.handle_reply(&Message::MakeMove.to_string()) {
        Ok(_) => panic!("Not supposed to accept this message"),
        Err(_) => (),
    };

    // Good message with payload
    match client.handle_reply(&format!("{} e2e4", Message::MakeMove.to_string())) {
        Ok(input) => assert_eq!(input.1, "e2e4"),
        Err(err) => panic!("Made a valid move. {}", err),
    };

    // Good message with no payload
    match client.handle_reply(&Message::Bye.to_string()) {
        Ok(input) => assert_eq!(input.1, "exit"),
        Err(err) => panic!("Valid good bye message. {}", err),
    };

    // Bad message with payload
    match client.handle_reply(&format!("{} random_text", Message::Bye.to_string())) {
        Ok(msg) => panic!("Not supposed to accept this message: {}", msg.0.to_string()),
        Err(_) => (),
    };
}

#[test]
fn headers_and_patterns() {
    assert_eq!(Message::Hello.to_string(), "hello");
    assert_eq!(Message::Bye.to_string(), "bye");
    assert_eq!(Message::BadMessage.to_string(), "bad_msg");
    assert_eq!(Message::MakeMove.to_string(), "make_move");
    assert_eq!(Message::MakeMove.as_str(), "make_move");
    assert_eq!(MessageRegex::Hello.to_string(), "hello [A-Za-z0-9]+");
    assert_eq!(MessageRegex::Bye.to_string(), "bye$");
    assert_eq!(MessageRegex::BadMessage.to_string(), "bad_msg$");
    assert_eq!(MessageRegex::MakeMove.to_string(), "make_move [A-Ha-h][1-8][A-Ha-h][1-8]$");
}

#[test]
fn messages_are_composed() {
    assert_eq!(compose(Message::Hello, "lev"), "hello lev");
    assert_eq!(compose(Message::Bye, "ignored"), "bye");
    assert_eq!(compose(Message::BadMessage, ""), "bad_msg ");
    assert_eq!(compose(Message::MakeMove, "e2e4"), "make_move e2e4");
}

#[test]
fn replies_are_read() {
    assert_eq!(read_reply("bye"), Ok((Message::Bye, String::from("exit"))));
    assert_eq!(read_reply("make_move H7h5"), Ok((Message::MakeMove, String::from("H7h5"))));
    assert_eq!(read_reply("hello lev"), Ok((Message::Hello, String::from("lev"))));
    assert_eq!(read_reply("bad_msg"), Ok((Message::BadMessage, String::new())));
    assert_eq!(
        read_reply("make_move e2e9"),
        Err(String::from("Unknown message received: make_move e2e9"))
    );
    assert_eq!(read_reply(""), Err(String::from("Unknown message received: ")));
    // Two patterns match: a greeting that ends like a goodbye.
    assert_eq!(
        read_reply("hello bye"),
        Err(String::from("Unknown message received: hello bye"))
    );
    // What compose writes for a complaint carries a blank, and is not read.
    assert!(read_reply(&compose(Message::BadMessage, "")).is_err());
    assert_eq!(
        read_reply(&compose(Message::MakeMove, "a1b2")),
        Ok((Message::MakeMove, String::from("a1b2")))
    );
}

#[test]
fn replies_follow_the_pattern_that_matched() {
    assert_eq!(
        interpret_reply(&Some(vec![0]), "anything"),
        Ok((Message::Bye, String::from("exit")))
    );
    assert_eq!(
        interpret_reply(&Some(vec![1]), "make_move e2e4"),
        Ok((Message::MakeMove, String::from("e2e4")))
    );
    assert_eq!(
        interpret_reply(&Some(vec![1]), "012345678"),
        Err(String::from("Unknown message received: 012345678"))
    );
    assert_eq!(
        interpret_reply(&Some(vec![1]), "0123456789"),
        Ok((Message::MakeMove, String::new()))
    );
    assert_eq!(
        interpret_reply(&Some(vec![2]), "hello é1"),
        Ok((Message::Hello, String::from("é1")))
    );
    assert_eq!(
        interpret_reply(&Some(vec![2]), "hello"),
        Err(String::from("Unknown message received: hello"))
    );
    assert_eq!(
        interpret_reply(&Some(vec![3]), "bad_msg"),
        Ok((Message::BadMessage, String::new()))
    );
    for found in [None, Some(vec![]), Some(vec![0, 1]), Some(vec![4]), Some(vec![0, 3])] {
        assert_eq!(
            interpret_reply(&found, "bye"),
            Err(String::from("Unknown message received: bye"))
        );
    }
}

#[test]
fn echo_connection_answers() {
    let mut echo = EchoConnection::new();
    assert!(echo.send_message("anything"));
    assert_eq!(echo.wait_for_message(), Ok(String::from("make_move e7e5")));
    assert_eq!(echo.get_message(), Ok(String::from("Nothing")));
}

#[test]
fn client_over_echo() {
    let mut client = Client::with_connection(EchoConnection::new(), true);
    assert!(client.host);
    client.set_name("lev");
    client.send_message(Message::Hello, "lev");
    assert_eq!(client.wait_for_message(), Ok((Message::MakeMove, String::from("e7e5"))));
    // The echo connection has nothing to poll but the word "Nothing".
    assert_eq!(
        client.get_message(),
        Err(String::from("Unknown message received: Nothing"))
    );
}

struct Silent;

impl Connection for Silent {
    fn send_message(&mut self, _message: &str) -> bool {
        false
    }

    fn wait_for_message(&mut self) -> Result<String, String> {
        Err(String::from("the line is dead"))
    }

    fn get_message(&self) -> Result<String, String> {
        Err(String::from("the line is dead"))
    }
}

#[test]
fn client_over_a_dead_line() {
    let mut client = Client::with_connection(Silent, false);
    assert!(!client.host);
    client.send_message(Message::Bye, "");
    assert_eq!(client.wait_for_message(), Err(String::from("the line is dead")));
    assert_eq!(client.get_message(), Err(String::from("No message received yet.")));
}

#[test]
fn typed_lines_become_messages() {
    assert_eq!(SelfConnection::message_for("exit"), "bye");
    assert_eq!(SelfConnection::message_for("e2e4"), "make_move e2e4");
    assert_eq!(SelfConnection::message_for("zzzz"), "make_move zzzz");
    assert_eq!(SelfConnection::message_for("e2"), "bad_msg");
    assert_eq!(SelfConnection::message_for(""), "bad_msg");
    assert_eq!(SelfConnection::message_for("e2e4 "), "bad_msg");
    // Four bytes, not four characters.
    assert_eq!(SelfConnection::message_for("éé"), "make_move éé");
    assert_eq!(SelfConnection::message_for("éééé"), "bad_msg");
    let mut local = SelfConnection::new();
    assert!(local.send_message("dropped"));
    assert_eq!(local.get_message(), Ok(String::from("Nothing")));
}

#[test]
fn addresses_choose_the_connection() {
    assert_eq!(Transport::to_join("echo"), Transport::Echo);
    assert_eq!(Transport::to_join("echoes"), Transport::Echo);
    assert_eq!(Transport::to_join("tcp://127.0.0.1:54345"), Transport::Tcp);
    assert_eq!(Transport::to_join("http://localhost:8000"), Transport::Http);
    assert_eq!(Transport::to_join("self"), Transport::Local);
    assert_eq!(Transport::to_join(""), Transport::Local);
    assert_eq!(Transport::to_join("tcp:/"), Transport::Local);
    assert_eq!(Transport::to_host("tcp://0.0.0.0:54345"), Transport::Tcp);
    assert_eq!(Transport::to_host("http://localhost"), Transport::Echo);
    assert_eq!(Transport::to_host(""), Transport::Echo);
    assert_eq!(Transport::tcp_address("tcp://0.0.0.0:54345"), Some("0.0.0.0:54345"));
    assert_eq!(Transport::tcp_address("tcp://"), Some(""));
    assert_eq!(Transport::tcp_address("udp://0.0.0.0"), None);
}

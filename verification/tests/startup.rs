use iot_service::data::{AnswerSlot, DataFrame, Sendable};
use iot_service::http_handling::Method;
use iot_service::method_handling::{
    body_text, method_handling, queue_answer_response, queue_response, queue_step, MethodError,
    QueueAnswer, Submission,
};
use iot_service::response::build_response;
use iot_service::status::StatusCode;
use iot_service::util::{after_attempt, load_authentification_data, ConnectStep, MAX_ATTEMPTS};
use std::collections::VecDeque;

fn sample(date: u64) -> DataFrame {
    DataFrame { date, temp: 20, device_id: 7 }
}

fn accepts(content: &str, user: &str, password: &str) -> bool {
    load_authentification_data(content).unwrap().accepts(&user.to_string(), &password.to_string())
}

#[test]
fn users_are_read_line_by_line() {
    let content = "alice secret\nbob hunter2\n";
    assert!(accepts(content, "alice", "secret"));
    assert!(accepts(content, "bob", "hunter2"));
    assert!(!accepts(content, "alice", "hunter2"));
    assert!(!accepts(content, "carol", ""));
    assert!(accepts("alice secret", "alice", "secret"));
    assert!(accepts("alice secret\r\nbob hunter2\r\n", "alice", "secret"));
    assert!(accepts("alice secret\r\nbob hunter2\r\n", "bob", "hunter2"));
    assert!(accepts("alice secret\r", "alice", "secret\r"));
    assert!(!accepts("", "", ""));
}

#[test]
fn only_the_first_two_words_of_a_line_count() {
    assert!(accepts("alice secret trailing words\n", "alice", "secret"));
    assert!(accepts("alice  secret\n", "alice", ""));
    assert!(accepts(" secret\n", "", "secret"));
    assert!(accepts("alice \n", "alice", ""));
    assert!(accepts("m\u{fc}ller pa\u{df}wort\n", "m\u{fc}ller", "pa\u{df}wort"));
}

#[test]
fn the_last_line_of_a_user_counts() {
    let content = "alice old\nbob x\nalice new\n";
    assert!(accepts(content, "alice", "new"));
    assert!(!accepts(content, "alice", "old"));
}

#[test]
fn a_line_without_a_space_is_refused() {
    assert!(load_authentification_data("alice\n").is_none());
    assert!(load_authentification_data("alice secret\n\nbob x\n").is_none());
    assert!(load_authentification_data("\n").is_none());
    assert!(load_authentification_data("alice secret\nbob").is_none());
    assert!(load_authentification_data("alice\tsecret\n").is_none());
}

#[test]
fn lines_and_words_are_split_as_std_splits_them() {
    let contents = [
        "alice secret\nbob hunter2\n",
        "alice secret\r\nbob hunter2",
        "a b\r",
        "a b\r\r\n",
        "a  b c\n d\ne \n",
        "a b\n\rc d\n",
        "x y\n\u{e4} \u{f6}\u{fc}\r\n",
    ];
    for content in contents {
        let table = load_authentification_data(content).unwrap();
        for line in content.lines() {
            let mut words = line.split(" ");
            let user = words.next().unwrap().to_string();
            let password = words.next().unwrap().to_string();
            let last = content
                .lines()
                .filter(|other| other.split(" ").next() == Some(user.as_str()))
                .last()
                .unwrap();
            if last == line {
                assert!(table.accepts(&user, &password), "{:?} {:?}", content, line);
            }
        }
    }
}

#[test]
fn connecting_is_tried_ten_times() {
    assert_eq!(MAX_ATTEMPTS, 10);
    assert_eq!(after_attempt(1, true), ConnectStep::Connected);
    assert_eq!(after_attempt(10, true), ConnectStep::Connected);
    assert_eq!(after_attempt(1, false), ConnectStep::Retry);
    assert_eq!(after_attempt(9, false), ConnectStep::Retry);
    assert_eq!(after_attempt(10, false), ConnectStep::GiveUp);
    assert_eq!(after_attempt(11, false), ConnectStep::GiveUp);
}

#[test]
fn bodies_must_be_utf8() {
    assert_eq!(body_text(b"{\"date\":1}"), Ok("{\"date\":1}".to_string()));
    assert_eq!(body_text("gr\u{fc}n".as_bytes()), Ok("gr\u{fc}n".to_string()));
    assert_eq!(body_text(b""), Ok(String::new()));
    assert_eq!(body_text(b"\xff"), Err(MethodError::UTF8Conversion));
    assert_eq!(body_text(b"ab\xc3"), Err(MethodError::UTF8Conversion));
    assert_eq!(MethodError::UTF8Conversion.to_text(), "UTF8Conversion");
    assert_eq!(MethodError::JSONParsingError.to_text(), "JSONParsingError");
}

#[test]
fn queue_requests_by_method() {
    match method_handling(Method::Post, Ok(sample(1))) {
        Submission::Enqueue(data) => assert_eq!(data, Some(sample(1))),
        other => panic!("{:?}", other),
    }
    match method_handling(Method::Post, Err(MethodError::JSONParsingError)) {
        Submission::Respond(r) => assert_eq!((r.status.as_u16(), r.body.as_str()), (400, "JSONParsingError")),
        other => panic!("{:?}", other),
    }
    match method_handling(Method::Post, Err(MethodError::UTF8Conversion)) {
        Submission::Respond(r) => assert_eq!((r.status.as_u16(), r.body.as_str()), (400, "UTF8Conversion")),
        other => panic!("{:?}", other),
    }
    match method_handling(Method::Get, Err(MethodError::UTF8Conversion)) {
        Submission::Enqueue(data) => assert_eq!(data, None),
        other => panic!("{:?}", other),
    }
    for method in [Method::Put, Method::Delete, Method::Other] {
        match method_handling(method, Ok(sample(1))) {
            Submission::Respond(r) => {
                assert_eq!((r.status.as_u16(), r.body.as_str()), (501, "Method is not implemented"))
            }
            other => panic!("{:?}", other),
        }
    }
}

#[test]
fn the_queue_hands_out_the_oldest_sample() {
    let mut buffer: VecDeque<DataFrame> = VecDeque::with_capacity(100);
    assert_eq!(queue_step(&mut buffer, None), QueueAnswer::Empty);
    assert_eq!(queue_step(&mut buffer, Some(sample(1))), QueueAnswer::Stored);
    assert_eq!(queue_step(&mut buffer, Some(sample(2))), QueueAnswer::Stored);
    assert_eq!(queue_step(&mut buffer, Some(sample(3))), QueueAnswer::Stored);
    assert_eq!(buffer.len(), 3);
    assert_eq!(queue_step(&mut buffer, None), QueueAnswer::Taken(sample(1)));
    assert_eq!(queue_step(&mut buffer, None), QueueAnswer::Taken(sample(2)));
    assert_eq!(queue_step(&mut buffer, Some(sample(4))), QueueAnswer::Stored);
    assert_eq!(queue_step(&mut buffer, None), QueueAnswer::Taken(sample(3)));
    assert_eq!(queue_step(&mut buffer, None), QueueAnswer::Taken(sample(4)));
    assert_eq!(queue_step(&mut buffer, None), QueueAnswer::Empty);
    assert!(buffer.is_empty());
}

#[test]
fn queue_answers_become_responses() {
    let r = queue_answer_response(QueueAnswer::Stored, String::new());
    assert_eq!((r.status.as_u16(), r.body.as_str()), (200, ""));
    let r = queue_answer_response(QueueAnswer::Taken(sample(1)), "{\"date\":1}".to_string());
    assert_eq!((r.status.as_u16(), r.body.as_str()), (200, "{\"date\":1}"));
    let r = queue_answer_response(QueueAnswer::Empty, "ignored".to_string());
    assert_eq!((r.status.as_u16(), r.body.as_str()), (200, "MEMORY QUEUE IS EMPTY"));
    let r = queue_response(None);
    assert_eq!((r.status.as_u16(), r.body.as_str()), (502, "RecvError"));
    let given = build_response(StatusCode::ok(), Some("x".to_string()));
    assert_eq!(queue_response(Some(given.clone())), given);
}

#[test]
fn the_queue_answers_a_request_once() {
    let (sender, receiver) = async_std::channel::bounded(1);
    let mut request = Sendable { sender: AnswerSlot::new(sender), data: None };
    assert!(request.sender.open());
    let first = build_response(StatusCode::ok(), Some("first".to_string()));
    let second = build_response(StatusCode::ok(), Some("second".to_string()));
    assert_eq!(request.sender.fulfill(first.clone()), Ok(()));
    assert!(!request.sender.open());
    assert_eq!(request.sender.fulfill(second.clone()), Err(second));
    assert_eq!(receiver.try_recv().unwrap(), first);
    assert!(receiver.try_recv().is_err());
}

#[test]
fn an_answer_nobody_waits_for_comes_back() {
    let (sender, receiver) = async_std::channel::bounded(1);
    drop(receiver);
    let mut slot = AnswerSlot::new(sender);
    let late = build_response(StatusCode::ok(), None);
    assert_eq!(slot.fulfill(late.clone()), Err(late));
    assert!(!slot.open());
}

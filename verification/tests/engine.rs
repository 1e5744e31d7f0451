use simplex_chat::{
    ChatClient, ChatResponse, ChatSrvResponse, ChatType, ClientError, Inbound, ListenerStep,
    LocalProfile, Poll, User,
};
use std::collections::HashMap;
use std::collections::HashSet;

const URI: &str = "ws://localhost:5225";

fn user(user_id: u64) -> User {
    User {
        user_id,
        agent_user_id: String::from("agent"),
        user_contact_id: 2,
        local_display_name: String::from("alice"),
        profile: LocalProfile {
            profile_id: 3,
            display_name: String::from("alice"),
            full_name: String::from("Alice A."),
            image: None,
            contact_link: None,
            local_alias: String::new(),
            _unknown_fields: HashMap::new(),
        },
        active_user: true,
        show_ntfs: true,
        _unknown_fields: HashMap::new(),
    }
}

fn active_user(user_id: u64) -> ChatResponse {
    ChatResponse::ActiveUser { user: user(user_id), _unknown_fields: HashMap::new() }
}

fn marked(mark: &str) -> ChatResponse {
    ChatResponse::Unknown(serde_json::Value::String(String::from(mark)))
}

fn mark_of(resp: &ChatResponse) -> String {
    match resp {
        ChatResponse::Unknown(serde_json::Value::String(mark)) => mark.clone(),
        other => panic!("no mark: {:?}", other),
    }
}

fn reply(corr_id: &str, resp: ChatResponse) -> Inbound {
    Inbound::Frame(ChatSrvResponse { corr_id: Some(String::from(corr_id)), resp })
}

fn pushed(resp: ChatResponse) -> Inbound {
    Inbound::Frame(ChatSrvResponse { corr_id: None, resp })
}

fn response_of(poll: Poll) -> ChatResponse {
    match poll {
        Poll::Ready(Ok(resp)) => resp,
        other => panic!("no response: {:?}", other),
    }
}

fn error_of(poll: Poll) -> ClientError {
    match poll {
        Poll::Ready(Err(error)) => error,
        other => panic!("no error: {:?}", other),
    }
}

fn next_mark(client: &mut ChatClient) -> String {
    match client.next_message() {
        Ok(Some(message)) => mark_of(&message.resp),
        other => panic!("no message: {:?}", other),
    }
}

#[test]
fn a_started_client_is_idle() {
    let mut client = ChatClient::start(URI);
    assert_eq!(client.uri(), URI);
    assert_eq!(client.timeout(), 3000);
    assert!(client.is_open());
    assert_eq!(client.queued(), 0);
    assert!(!client.is_registered(1));
    assert!(matches!(client.next_message(), Ok(None)));
}

#[test]
fn the_first_call_gets_id_one_and_its_frame() {
    let mut client = ChatClient::start(URI);
    let out = client.send_command("/u", 0).unwrap();
    assert_eq!(out.corr_id, 1);
    assert_eq!(out.frame, "{\"corrId\":\"1\",\"cmd\":\"/u\"}");
    assert!(client.is_waiting(1));
    assert!(client.is_registered(1));
}

#[test]
fn active_user_call_returns_the_user_and_clears_the_entry() {
    let mut client = ChatClient::start(URI);
    let out = client.api_get_active_user(0).unwrap();
    assert_eq!(out.frame, "{\"corrId\":\"1\",\"cmd\":\"/u\"}");
    let step = client.message_listener(reply("1", active_user(42)));
    assert_eq!(step, ListenerStep::Delivered { corr_id: 1 });
    let got = response_of(client.poll(out.corr_id, 10)).into_active_user().unwrap();
    assert_eq!(got.user_id, 42);
    assert_eq!(got.local_display_name, "alice");
    assert!(!client.is_registered(1));
    assert_eq!(client.queued(), 0);
    assert_eq!(error_of(client.poll(1, 10)), ClientError::UnknownCall);
}

#[test]
fn an_unanswered_call_times_out_and_its_late_reply_is_unsolicited() {
    let mut client = ChatClient::start(URI);
    client.send_command("/u", 0).unwrap();
    let out = client.send_command("/chats", 1000).unwrap();
    assert_eq!(out.corr_id, 2);
    assert_eq!(out.frame, "{\"corrId\":\"2\",\"cmd\":\"/chats\"}");
    assert!(matches!(client.poll(2, 1000), Poll::Pending { wait: 3000 }));
    assert!(matches!(client.poll(2, 3999), Poll::Pending { wait: 1 }));
    assert!(client.is_waiting(2));
    assert_eq!(error_of(client.poll(2, 4000)), ClientError::Timeout);
    assert!(!client.is_registered(2));
    assert!(client.is_waiting(1));
    let step = client.message_listener(reply("2", marked("late")));
    assert_eq!(step, ListenerStep::Queued);
    assert!(!client.is_registered(2));
    assert_eq!(error_of(client.poll(2, 4001)), ClientError::UnknownCall);
    let message = client.next_message().unwrap().unwrap();
    assert_eq!(message.corr_id.as_deref(), Some("2"));
    assert_eq!(mark_of(&message.resp), "late");
    assert!(matches!(client.next_message(), Ok(None)));
}

#[test]
fn concurrent_calls_get_only_their_own_responses() {
    let mut client = ChatClient::start(URI);
    let n: u64 = 64;
    let mut ids = Vec::new();
    for i in 0..n {
        let out = client.send_command(&format!("/cmd {}", i), i).unwrap();
        ids.push(out.corr_id);
    }
    let mut order: Vec<u64> = ids.clone();
    order.reverse();
    order.rotate_left(17);
    for k in 0..order.len() {
        if k % 3 == 0 && k + 1 < order.len() {
            order.swap(k, k + 1);
        }
    }
    for id in &order {
        let step =
            client.message_listener(reply(&id.to_string(), marked(&format!("for {}", id))));
        assert_eq!(step, ListenerStep::Delivered { corr_id: *id });
    }
    assert_eq!(client.queued(), 0);
    for id in &ids {
        let resp = response_of(client.poll(*id, 100));
        assert_eq!(mark_of(&resp), format!("for {}", id));
        assert!(!client.is_registered(*id));
    }
}

#[test]
fn delivery_order_does_not_matter() {
    let mut forward = ChatClient::start(URI);
    let mut backward = ChatClient::start(URI);
    for client in [&mut forward, &mut backward] {
        client.send_command("/a", 0).unwrap();
        client.send_command("/b", 0).unwrap();
    }
    forward.message_listener(reply("1", marked("a")));
    forward.message_listener(reply("2", marked("b")));
    backward.message_listener(reply("2", marked("b")));
    backward.message_listener(reply("1", marked("a")));
    for client in [&mut forward, &mut backward] {
        assert_eq!(mark_of(&response_of(client.poll(1, 0))), "a");
        assert_eq!(mark_of(&response_of(client.poll(2, 0))), "b");
        assert_eq!(client.queued(), 0);
    }
}

#[test]
fn pending_calls_never_share_an_id() {
    let mut client = ChatClient::start(URI);
    let mut ids = HashSet::new();
    let mut frames = HashSet::new();
    for i in 0..500u64 {
        let out = client.send_command("/same", i).unwrap();
        assert!(!ids.contains(&out.corr_id));
        assert!(client.is_waiting(out.corr_id));
        ids.insert(out.corr_id);
        frames.insert(out.frame);
        if i % 7 == 0 {
            client.poll(out.corr_id, u64::MAX);
        }
        if i % 11 == 0 {
            client.message_listener(reply(&out.corr_id.to_string(), marked("x")));
        }
    }
    assert_eq!(ids.len(), 500);
    assert_eq!(frames.len(), 500);
    assert_eq!(ids.iter().min(), Some(&1));
    assert_eq!(ids.iter().max(), Some(&500));
}

#[test]
fn a_response_is_delivered_once() {
    let mut client = ChatClient::start(URI);
    client.send_command("/u", 0).unwrap();
    assert_eq!(
        client.message_listener(reply("1", marked("first"))),
        ListenerStep::Delivered { corr_id: 1 }
    );
    assert_eq!(client.message_listener(reply("1", marked("second"))), ListenerStep::Queued);
    assert_eq!(mark_of(&response_of(client.poll(1, 0))), "first");
    assert_eq!(client.message_listener(reply("1", marked("third"))), ListenerStep::Queued);
    assert_eq!(next_mark(&mut client), "second");
    assert_eq!(next_mark(&mut client), "third");
    assert_eq!(error_of(client.poll(1, 0)), ClientError::UnknownCall);
}

#[test]
fn a_response_past_the_deadline_still_wins_over_the_timeout() {
    let mut client = ChatClient::start(URI);
    client.send_command("/u", 0).unwrap();
    assert_eq!(
        client.message_listener(reply("1", marked("just in time"))),
        ListenerStep::Delivered { corr_id: 1 }
    );
    assert_eq!(mark_of(&response_of(client.poll(1, 10_000))), "just in time");
}

#[test]
fn responses_for_unknown_ids_are_queued() {
    let mut client = ChatClient::start(URI);
    client.send_command("/u", 0).unwrap();
    let strays = ["2", "99", "0", "01", "1 ", "+1", "abc", "", "18446744073709551616", "1.0"];
    for stray in strays {
        assert_eq!(client.message_listener(reply(stray, marked(stray))), ListenerStep::Queued);
        assert!(client.is_waiting(1));
    }
    assert_eq!(client.queued(), strays.len());
    for stray in strays {
        let message = client.next_message().unwrap().unwrap();
        assert_eq!(message.corr_id.as_deref(), Some(stray));
        assert_eq!(mark_of(&message.resp), stray);
    }
    assert!(matches!(client.poll(1, 1), Poll::Pending { wait: 2999 }));
}

#[test]
fn uncorrelated_messages_are_queued_in_order() {
    let mut client = ChatClient::start(URI);
    client.send_command("/u", 0).unwrap();
    for mark in ["a", "b", "c"] {
        assert_eq!(client.message_listener(pushed(marked(mark))), ListenerStep::Queued);
    }
    assert_eq!(
        client.message_listener(reply("1", marked("mine"))),
        ListenerStep::Delivered { corr_id: 1 }
    );
    for mark in ["d", "e"] {
        assert_eq!(client.message_listener(pushed(marked(mark))), ListenerStep::Queued);
    }
    assert_eq!(client.queued(), 5);
    assert_eq!(next_mark(&mut client), "a");
    assert_eq!(next_mark(&mut client), "b");
    assert_eq!(client.message_listener(pushed(marked("f"))), ListenerStep::Queued);
    for mark in ["c", "d", "e", "f"] {
        assert_eq!(next_mark(&mut client), mark);
    }
    assert!(matches!(client.next_message(), Ok(None)));
    assert_eq!(mark_of(&response_of(client.poll(1, 0))), "mine");
}

#[test]
fn a_malformed_frame_does_not_stop_the_listener() {
    let mut client = ChatClient::start(URI);
    client.send_command("/u", 0).unwrap();
    assert_eq!(client.message_listener(pushed(marked("before"))), ListenerStep::Queued);
    assert_eq!(client.message_listener(Inbound::Malformed), ListenerStep::Skipped);
    assert_eq!(client.message_listener(Inbound::Malformed), ListenerStep::Skipped);
    assert!(client.is_open());
    assert!(client.is_waiting(1));
    assert_eq!(client.queued(), 1);
    assert_eq!(
        client.message_listener(reply("1", marked("answer"))),
        ListenerStep::Delivered { corr_id: 1 }
    );
    assert_eq!(client.message_listener(pushed(marked("after"))), ListenerStep::Queued);
    assert_eq!(mark_of(&response_of(client.poll(1, 0))), "answer");
    assert_eq!(next_mark(&mut client), "before");
    assert_eq!(next_mark(&mut client), "after");
}

#[test]
fn closing_the_connection_releases_every_waiter() {
    let mut client = ChatClient::start(URI);
    client.send_command("/a", 0).unwrap();
    client.send_command("/b", 0).unwrap();
    client.send_command("/c", 0).unwrap();
    client.message_listener(reply("2", marked("b")));
    client.message_listener(pushed(marked("news")));
    assert_eq!(client.message_listener(Inbound::Closed), ListenerStep::Stopped);
    assert!(!client.is_open());
    assert!(!client.is_waiting(1) && !client.is_waiting(3));
    assert_eq!(error_of(client.poll(1, 0)), ClientError::ConnectionClosed);
    assert_eq!(mark_of(&response_of(client.poll(2, 0))), "b");
    assert_eq!(error_of(client.poll(3, 9999)), ClientError::ConnectionClosed);
    assert_eq!(error_of(client.poll(3, 9999)), ClientError::UnknownCall);
    assert_eq!(client.send_command("/d", 0).err(), Some(ClientError::ConnectionClosed));
    assert!(!client.is_registered(4));
    assert_eq!(next_mark(&mut client), "news");
    assert!(matches!(client.next_message(), Err(ClientError::ConnectionClosed)));
}

#[test]
fn shutdown_is_safe_to_repeat() {
    let mut client = ChatClient::start(URI);
    client.send_command("/a", 0).unwrap();
    client.shutdown();
    client.shutdown();
    assert!(!client.is_open());
    assert_eq!(error_of(client.poll(1, 0)), ClientError::ConnectionClosed);
    assert!(matches!(client.next_message(), Err(ClientError::ConnectionClosed)));
}

#[test]
fn frames_after_the_close_are_still_queued() {
    let mut client = ChatClient::start(URI);
    client.send_command("/a", 0).unwrap();
    client.shutdown();
    assert_eq!(client.message_listener(reply("1", marked("too late"))), ListenerStep::Queued);
    assert_eq!(client.message_listener(pushed(marked("push"))), ListenerStep::Queued);
    assert_eq!(error_of(client.poll(1, 0)), ClientError::ConnectionClosed);
    assert_eq!(next_mark(&mut client), "too late");
    assert_eq!(next_mark(&mut client), "push");
}

#[test]
fn a_failed_write_ends_the_call_with_a_connection_error() {
    let mut client = ChatClient::start(URI);
    let out = client.send_command("/u", 0).unwrap();
    assert_eq!(client.send_failed(out.corr_id), ClientError::Connection);
    assert!(!client.is_registered(out.corr_id));
    assert_eq!(client.message_listener(reply("1", marked("orphan"))), ListenerStep::Queued);
    let next = client.send_command("/u", 0).unwrap();
    assert_eq!(next.corr_id, 2);
}

#[test]
fn the_timeout_is_configurable_for_later_calls() {
    let mut client = ChatClient::start(URI);
    client.send_command("/a", 0).unwrap();
    client.set_timeout(50);
    assert_eq!(client.timeout(), 50);
    client.send_command("/b", 0).unwrap();
    assert!(matches!(client.poll(1, 50), Poll::Pending { wait: 2950 }));
    assert_eq!(error_of(client.poll(2, 50)), ClientError::Timeout);
    client.set_timeout(0);
    client.send_command("/c", 7).unwrap();
    assert_eq!(error_of(client.poll(3, 7)), ClientError::Timeout);
}

#[test]
fn a_deadline_past_the_end_of_time_is_the_end_of_time() {
    let mut client = ChatClient::start(URI);
    client.send_command("/a", u64::MAX - 5).unwrap();
    assert!(matches!(client.poll(1, u64::MAX - 5), Poll::Pending { wait: 5 }));
    assert!(matches!(client.poll(1, u64::MAX - 1), Poll::Pending { wait: 1 }));
    assert_eq!(error_of(client.poll(1, u64::MAX)), ClientError::Timeout);
}

#[test]
fn an_expired_call_does_not_disturb_the_others() {
    let mut client = ChatClient::start(URI);
    client.send_command("/a", 0).unwrap();
    client.send_command("/b", 2000).unwrap();
    assert_eq!(error_of(client.poll(1, 3000)), ClientError::Timeout);
    assert!(client.is_open());
    assert!(matches!(client.poll(2, 3000), Poll::Pending { wait: 2000 }));
    assert_eq!(
        client.message_listener(reply("2", marked("b"))),
        ListenerStep::Delivered { corr_id: 2 }
    );
    assert_eq!(mark_of(&response_of(client.poll(2, 3001))), "b");
}

#[test]
fn a_service_error_is_an_ordinary_response() {
    let mut client = ChatClient::start(URI);
    client.send_command("/u", 0).unwrap();
    let failure = ChatResponse::ChatCmdError {
        user_: None,
        chat_error: simplex_chat::ChatError::ErrorStore { store_error: serde_json::Value::Null },
        _unknown_fields: HashMap::new(),
    };
    assert_eq!(client.message_listener(reply("1", failure)), ListenerStep::Delivered { corr_id: 1 });
    assert!(matches!(response_of(client.poll(1, 0)), ChatResponse::ChatCmdError { .. }));
}

#[test]
fn commands_with_special_characters_are_escaped_in_the_frame() {
    let mut client = ChatClient::start(URI);
    let out = client.send_command("/say \"x\"\n\\", 0).unwrap();
    assert_eq!(out.frame, "{\"corrId\":\"1\",\"cmd\":\"/say \\\"x\\\"\\n\\\\\"}");
}

#[test]
fn an_encoded_command_is_framed_as_it_is() {
    let mut client = ChatClient::start(URI);
    let out = client.send_encoded("{\"structured\":true}", 0).unwrap();
    assert_eq!(out.corr_id, 1);
    assert_eq!(out.frame, "{\"corrId\":\"1\",\"cmd\":{\"structured\":true}}");
    client.shutdown();
    assert_eq!(client.send_encoded("\"/u\"", 0).err(), Some(ClientError::ConnectionClosed));
}

#[test]
fn convenience_calls_send_their_commands() {
    let mut client = ChatClient::start(URI);
    assert_eq!(client.api_get_active_user(0).unwrap().frame, "{\"corrId\":\"1\",\"cmd\":\"/u\"}");
    assert_eq!(client.api_chats(0).unwrap().frame, "{\"corrId\":\"2\",\"cmd\":\"/chats\"}");
    assert_eq!(
        client.api_get_user_address(0).unwrap().frame,
        "{\"corrId\":\"3\",\"cmd\":\"/show_address\"}"
    );
    assert_eq!(
        client.api_create_user_address(8, 0).unwrap().frame,
        "{\"corrId\":\"4\",\"cmd\":\"/_address 8\"}"
    );
    assert_eq!(
        client.api_list_members(15, 0).unwrap().frame,
        "{\"corrId\":\"5\",\"cmd\":\"/_members #15\"}"
    );
    assert_eq!(
        client.api_auto_accept(true, 0).unwrap().frame,
        "{\"corrId\":\"6\",\"cmd\":\"/auto_accept on\"}"
    );
    assert_eq!(
        client.api_auto_accept(false, 0).unwrap().frame,
        "{\"corrId\":\"7\",\"cmd\":\"/auto_accept off\"}"
    );
    for id in 1..=7 {
        assert!(client.is_waiting(id));
    }
}

#[test]
fn send_messages_call_sends_the_messages_as_json() {
    let mut client = ChatClient::start(URI);
    let out = client.api_send_messages(ChatType::Group, 4, "[{\"a\":\"b\"}]", 0).unwrap();
    assert_eq!(
        out.frame,
        "{\"corrId\":\"1\",\"cmd\":\"/_send #4 live=off ttl=default json [{\\\"a\\\":\\\"b\\\"}]\"}"
    );
}

#[test]
fn send_text_message_call_composes_one_text_message() {
    let mut client = ChatClient::start(URI);
    let out = client.api_send_text_message(ChatType::Direct, 5, "hi \"you\"", 0).unwrap();
    assert_eq!(out.corr_id, 1);
    let frame: serde_json::Value = serde_json::from_str(&out.frame).unwrap();
    assert_eq!(frame.get("corrId").and_then(|v| v.as_str()), Some("1"));
    assert_eq!(
        frame.get("cmd").and_then(|v| v.as_str()),
        Some(
            "/_send @5 live=off ttl=default json [{\"msgContent\":{\"text\":{\"text\":\"hi \\\"you\\\"\"}}}]"
        )
    );
    client.shutdown();
    assert_eq!(
        client.api_send_text_message(ChatType::Direct, 5, "x", 0).err(),
        Some(ClientError::ConnectionClosed)
    );
    assert!(!client.is_registered(2));
}

#[test]
fn convenience_calls_fail_on_a_closed_connection() {
    let mut client = ChatClient::start(URI);
    client.shutdown();
    assert_eq!(client.api_get_active_user(0).err(), Some(ClientError::ConnectionClosed));
    assert_eq!(client.api_chats(0).err(), Some(ClientError::ConnectionClosed));
    assert_eq!(client.api_get_user_address(0).err(), Some(ClientError::ConnectionClosed));
    assert_eq!(client.api_create_user_address(1, 0).err(), Some(ClientError::ConnectionClosed));
    assert_eq!(client.api_list_members(1, 0).err(), Some(ClientError::ConnectionClosed));
    assert_eq!(client.api_auto_accept(true, 0).err(), Some(ClientError::ConnectionClosed));
    assert_eq!(
        client.api_send_messages(ChatType::Direct, 1, "[]", 0).err(),
        Some(ClientError::ConnectionClosed)
    );
    assert!(!client.is_registered(1));
}

struct Reference {
    open: bool,
    last_id: u64,
    timeout: u64,
    waiting: HashMap<u64, u64>,
    delivered: HashMap<u64, String>,
    queue: Vec<(Option<String>, String)>,
}

fn next_random(seed: &mut u64) -> u64 {
    *seed = seed.wrapping_mul(6364136223846793005).wrapping_add(1442695040888963407);
    *seed >> 33
}

#[test]
fn a_long_run_agrees_with_a_plain_reference() {
    let mut client = ChatClient::start(URI);
    let mut reference = Reference {
        open: true,
        last_id: 0,
        timeout: 3000,
        waiting: HashMap::new(),
        delivered: HashMap::new(),
        queue: Vec::new(),
    };
    let mut seed: u64 = 0x5eed;
    let mut now: u64 = 0;
    for round in 0..20_000u64 {
        now += next_random(&mut seed) % 400;
        let id = 1 + next_random(&mut seed) % (reference.last_id + 2);
        match next_random(&mut seed) % 16 {
            0..=3 => {
                let sent = client.send_command("/x", now);
                if reference.open {
                    reference.last_id += 1;
                    reference.waiting.insert(reference.last_id, now + reference.timeout);
                    assert_eq!(sent.unwrap().corr_id, reference.last_id);
                } else {
                    assert_eq!(sent.err(), Some(ClientError::ConnectionClosed));
                }
            }
            4..=7 => {
                let mark = format!("r{}", round);
                let text = match next_random(&mut seed) % 8 {
                    0 => format!("0{}", id),
                    1 => format!("{}x", id),
                    _ => id.to_string(),
                };
                let step = client.message_listener(reply(&text, marked(&mark)));
                if reference.open && text == id.to_string() && reference.waiting.contains_key(&id) {
                    reference.waiting.remove(&id);
                    reference.delivered.insert(id, mark);
                    assert_eq!(step, ListenerStep::Delivered { corr_id: id });
                } else {
                    reference.queue.push((Some(text), mark));
                    assert_eq!(step, ListenerStep::Queued);
                }
            }
            8 => {
                let mark = format!("p{}", round);
                assert_eq!(client.message_listener(pushed(marked(&mark))), ListenerStep::Queued);
                reference.queue.push((None, mark));
            }
            9 => {
                assert_eq!(client.message_listener(Inbound::Malformed), ListenerStep::Skipped);
            }
            10..=12 => {
                let poll = client.poll(id, now);
                if let Some(mark) = reference.delivered.remove(&id) {
                    assert_eq!(mark_of(&response_of(poll)), mark);
                } else if let Some(deadline) = reference.waiting.get(&id).copied() {
                    if !reference.open {
                        reference.waiting.remove(&id);
                        assert_eq!(error_of(poll), ClientError::ConnectionClosed);
                    } else if now >= deadline {
                        reference.waiting.remove(&id);
                        assert_eq!(error_of(poll), ClientError::Timeout);
                    } else {
                        match poll {
                            Poll::Pending { wait } => assert_eq!(wait, deadline - now),
                            other => panic!("{:?}", other),
                        }
                    }
                } else {
                    assert_eq!(error_of(poll), ClientError::UnknownCall);
                }
            }
            13 => {
                let next = client.next_message();
                if reference.queue.is_empty() {
                    if reference.open {
                        assert!(matches!(next, Ok(None)));
                    } else {
                        assert!(matches!(next, Err(ClientError::ConnectionClosed)));
                    }
                } else {
                    let (corr_id, mark) = reference.queue.remove(0);
                    let message = next.unwrap().unwrap();
                    assert_eq!(message.corr_id, corr_id);
                    assert_eq!(mark_of(&message.resp), mark);
                }
            }
            14 => {
                if next_random(&mut seed) % 2 == 0 {
                    assert_eq!(client.send_failed(id), ClientError::Connection);
                    reference.waiting.remove(&id);
                    reference.delivered.remove(&id);
                } else {
                    reference.timeout = next_random(&mut seed) % 5000;
                    client.set_timeout(reference.timeout);
                }
            }
            _ => {
                if round >= 15_000 {
                    assert_eq!(client.message_listener(Inbound::Closed), ListenerStep::Stopped);
                    reference.open = false;
                }
            }
        }
        assert_eq!(client.is_open(), reference.open);
        assert_eq!(client.queued(), reference.queue.len());
        assert_eq!(client.timeout(), reference.timeout);
        assert_eq!(client.is_waiting(id), reference.open && reference.waiting.contains_key(&id));
        assert_eq!(
            client.is_registered(id),
            reference.waiting.contains_key(&id) || reference.delivered.contains_key(&id)
        );
    }
    assert!(reference.last_id > 1000);
    assert!(!reference.open);
}

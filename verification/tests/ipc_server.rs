//! What the server reads from its clients, and where it listens.
use jwm::ipc::{IpcMessage, IpcQuery};
use jwm::ipc_server::{
    BindStep, ConnectProbe, DirectoryError, DirectoryFacts, DirectoryStep, EndpointProbe,
    IncomingIpc, IpcClient, MAX_CLIENT_BUF, MAX_CLIENTS, MAX_MESSAGES_PER_POLL,
    MAX_READ_BYTES_PER_POLL, MAX_SUBSCRIPTION_TOPIC_LEN, MAX_SUBSCRIPTION_TOPICS,
    MAX_TOTAL_MESSAGES_PER_POLL, MAX_TOTAL_READ_BYTES_PER_POLL, PollBudget, ReadStep,
    RuntimeDirectorySource, SocketIdentity, directory_step, incoming, may_accept, may_remove,
    next_chunk, next_client_id, normalize_subscriptions, on_connect, on_endpoint, poll_order,
    socket_location_from, turn_after, validate_private_directory, validated_socket_path,
};
use jwm::json::JsonValue;

/// A client at the end of a stream that is held in memory.
struct Connection {
    client: IpcClient,
    stream: Vec<u8>,
    hung_up: bool,
}

impl Connection {
    fn new(stream: &[u8], hung_up: bool) -> Connection {
        Connection {
            client: IpcClient::new(),
            stream: stream.to_vec(),
            hung_up,
        }
    }

    fn read_messages(&mut self, messages: usize, bytes: usize) -> (Option<Vec<String>>, usize) {
        let (taken, step) = self.client.begin_read(messages);
        match step {
            ReadStep::Done => return (Some(taken), 0),
            ReadStep::Disconnect => return (None, 0),
            ReadStep::Read => {}
        }
        let mut bytes_read = 0;
        loop {
            let chunk = next_chunk(bytes, bytes_read);
            if chunk == 0 {
                break;
            }
            let n = chunk.min(self.stream.len());
            if n == 0 {
                if self.hung_up {
                    self.client.close();
                }
                break;
            }
            let rest = self.stream.split_off(n);
            let arrived = std::mem::replace(&mut self.stream, rest);
            bytes_read += n;
            if !self.client.receive(&arrived) {
                return (None, bytes_read);
            }
        }
        (self.client.finish_read(taken, messages), bytes_read)
    }
}

/// Clients that are read in turn.
struct Server {
    clients: Vec<(u64, Connection)>,
    next_poll_client: u64,
    bytes_read: usize,
}

impl Server {
    fn new(ids: std::ops::RangeInclusive<u64>, payload: &[u8]) -> Server {
        Server {
            clients: ids.map(|id| (id, Connection::new(payload, false))).collect(),
            next_poll_client: 1,
            bytes_read: 0,
        }
    }

    fn poll_clients(&mut self) -> Vec<IncomingIpc> {
        let ids = self.clients.iter().map(|(id, _)| *id).collect();
        let order = poll_order(&ids, self.next_poll_client);
        let mut budget = PollBudget::new();
        let mut received = Vec::new();
        for (index, id) in order.iter().enumerate() {
            if budget.exhausted() {
                break;
            }
            self.next_poll_client = turn_after(&order, index);
            let (_, connection) = self.clients.iter_mut().find(|(c, _)| c == id).unwrap();
            let (lines, bytes) = connection
                .read_messages(budget.remaining_messages(), budget.remaining_bytes());
            let lines = lines.unwrap();
            budget.charge(lines.len(), bytes);
            for line in lines {
                assert_eq!(line, "{\"query\":\"get_version\"}");
                received.push(incoming(
                    *id,
                    IpcMessage::Query(IpcQuery {
                        query: "get_version".to_string(),
                        args: JsonValue::Null,
                    }),
                ));
            }
        }
        self.bytes_read += budget.bytes_read;
        received
    }
}

fn query_payload(count: usize) -> Vec<u8> {
    "{\"query\":\"get_version\"}\n".repeat(count).into_bytes()
}

#[test]
fn socket_location_uses_only_nonempty_absolute_xdg_paths() {
    let uid = 4242;
    let fallback = b"/tmp/jwm-4242/jwm-ipc.sock".to_vec();
    assert_eq!(socket_location_from(None, uid).0, fallback);
    assert_eq!(socket_location_from(Some(b""), uid).0, fallback);
    assert_eq!(
        socket_location_from(Some(b"relative/runtime"), uid).0,
        fallback
    );

    let (path, source) = socket_location_from(Some(b"/run/user/4242"), uid);
    assert_eq!(path, b"/run/user/4242/jwm-ipc.sock".to_vec());
    assert_eq!(source, RuntimeDirectorySource::Xdg);
}

#[test]
fn batched_messages_are_limited_and_resumed_without_loss() {
    let total = MAX_MESSAGES_PER_POLL + 7;
    let payload: String = (0..total).map(|index| format!("message-{index}\n")).collect();
    let mut client = Connection::new(payload.as_bytes(), false);

    let first = client
        .read_messages(MAX_MESSAGES_PER_POLL, MAX_READ_BYTES_PER_POLL)
        .0
        .unwrap();
    let second = client
        .read_messages(MAX_MESSAGES_PER_POLL, MAX_READ_BYTES_PER_POLL)
        .0
        .unwrap();

    assert_eq!(first.len(), MAX_MESSAGES_PER_POLL);
    assert_eq!(first.first().unwrap(), "message-0");
    assert_eq!(
        first.last().unwrap(),
        &format!("message-{}", MAX_MESSAGES_PER_POLL - 1)
    );
    assert_eq!(second.len(), 7);
    assert_eq!(
        second.first().unwrap(),
        &format!("message-{MAX_MESSAGES_PER_POLL}")
    );
    assert_eq!(second.last().unwrap(), &format!("message-{}", total - 1));
}

#[test]
fn per_poll_read_bytes_are_bounded() {
    let payload = vec![b'x'; MAX_READ_BYTES_PER_POLL + 17];
    let mut client = Connection::new(&payload, false);

    let (first, first_bytes_read) =
        client.read_messages(MAX_MESSAGES_PER_POLL, MAX_READ_BYTES_PER_POLL);
    assert!(first.unwrap().is_empty());
    assert_eq!(first_bytes_read, MAX_READ_BYTES_PER_POLL);

    let (second, second_bytes_read) =
        client.read_messages(MAX_MESSAGES_PER_POLL, MAX_READ_BYTES_PER_POLL);
    assert!(second.unwrap().is_empty());
    assert_eq!(second_bytes_read, 17);

    client.stream.push(b'\n');
    let (third, _) = client.read_messages(MAX_MESSAGES_PER_POLL, MAX_READ_BYTES_PER_POLL);
    assert_eq!(third.unwrap()[0].len(), payload.len());
}

#[test]
fn complete_final_frame_is_delivered_before_disconnect() {
    let mut client = Connection::new(b"final-message\n", true);

    let (final_frame, bytes_read) =
        client.read_messages(MAX_MESSAGES_PER_POLL, MAX_READ_BYTES_PER_POLL);
    assert_eq!(final_frame.unwrap(), ["final-message"]);
    assert_eq!(bytes_read, b"final-message\n".len());
    let (end, bytes_read) = client.read_messages(MAX_MESSAGES_PER_POLL, MAX_READ_BYTES_PER_POLL);
    assert!(end.is_none());
    assert_eq!(bytes_read, 0);
}

#[test]
fn poll_clients_respects_global_message_budget() {
    let mut server = Server::new(1..=5, &query_payload(MAX_MESSAGES_PER_POLL));

    let messages = server.poll_clients();

    assert_eq!(messages.len(), MAX_TOTAL_MESSAGES_PER_POLL);
    assert_eq!(server.next_poll_client, 5);
}

#[test]
fn poll_clients_respects_global_read_byte_budget() {
    let mut server = Server::new(1..=5, &vec![b'x'; MAX_READ_BYTES_PER_POLL]);

    assert!(server.poll_clients().is_empty());

    assert_eq!(server.bytes_read, MAX_TOTAL_READ_BYTES_PER_POLL);
    assert_eq!(server.next_poll_client, 5);
}

#[test]
fn round_robin_poll_eventually_services_all_flooding_clients() {
    let mut server = Server::new(1..=8, &query_payload(MAX_MESSAGES_PER_POLL * 2));

    let mut served = std::collections::HashSet::new();
    for _ in 0..2 {
        let messages = server.poll_clients();
        assert_eq!(messages.len(), MAX_TOTAL_MESSAGES_PER_POLL);
        for message in messages {
            let client_id = match message {
                IncomingIpc::Command { client_id, .. }
                | IncomingIpc::Query { client_id, .. }
                | IncomingIpc::Subscribe { client_id, .. } => client_id,
            };
            served.insert(client_id);
        }
    }

    assert_eq!(served, (1..=8).collect());
}

#[test]
fn subscription_topics_are_trimmed_deduplicated_and_bounded() {
    let mut topics = vec![
        " window ".to_string(),
        "window".to_string(),
        String::new(),
        "x".repeat(MAX_SUBSCRIPTION_TOPIC_LEN + 1),
    ];
    topics.extend((0..MAX_SUBSCRIPTION_TOPICS + 10).map(|index| format!("topic-{index}")));

    let normalized = normalize_subscriptions(&topics);

    assert_eq!(normalized.len(), MAX_SUBSCRIPTION_TOPICS);
    assert_eq!(normalized[0], "window");
    assert_eq!(
        normalized.iter().filter(|topic| *topic == "window").count(),
        1
    );
    assert!(normalized.iter().all(|topic| !topic.trim().is_empty()));
    assert!(
        normalized
            .iter()
            .all(|topic| topic.len() <= MAX_SUBSCRIPTION_TOPIC_LEN)
    );
}

#[test]
fn normal_topics_are_left_as_they_are() {
    let asked = vec![" a ".to_string(), "b".to_string(), "a".to_string(), " ".to_string()];
    let once = normalize_subscriptions(&asked);
    assert_eq!(once, ["a", "b"]);
    assert_eq!(normalize_subscriptions(&once), once);
}

#[test]
fn subscription_prefix_matching_respects_topic_boundaries() {
    let mut client = IpcClient::new();
    client.subscribe(&vec![" window ".into()]);

    assert!(client.is_subscribed("window"));
    assert!(client.is_subscribed("window/new"));
    assert!(!client.is_subscribed("windowing/new"));
    assert!(!client.is_subscribed("monitor/new"));

    client.subscribe(&vec!["*".into()]);
    assert!(client.is_subscribed("monitor/new"));
}

#[test]
fn topics_are_measured_in_bytes() {
    let wide = "\u{e9}".repeat(MAX_SUBSCRIPTION_TOPIC_LEN / 2);
    let wider = "\u{e9}".repeat(MAX_SUBSCRIPTION_TOPIC_LEN / 2 + 1);
    assert_eq!(normalize_subscriptions(&vec![wide.clone(), wider]), [wide]);
}

#[test]
fn empty_lines_are_no_messages_and_bad_bytes_are_replaced() {
    let mut client = IpcClient::new();
    assert!(client.receive(b"\n\n one \r\n\xff\ntail"));
    assert!(client.has_buffered_frame());
    assert_eq!(client.take_complete_messages(10), [" one \r", "\u{fffd}"]);
    assert!(!client.has_buffered_frame());
    client.compact_input_buffer();
    assert!(client.receive(b"-end\n"));
    assert_eq!(client.take_complete_messages(10), ["tail-end"]);
}

#[test]
fn a_client_that_sends_no_line_is_let_go() {
    let mut client = IpcClient::new();
    assert!(client.receive(&vec![b'x'; MAX_CLIENT_BUF]));
    assert!(!client.receive(b"x"));
}

#[test]
fn answers_are_lines_and_leave_in_order() {
    let mut client = IpcClient::new();
    assert!(!client.wants_write());
    client.queue("{}");
    client.queue("[1]");
    assert_eq!(client.unsent(), b"{}\n[1]\n");
    client.sent(4);
    assert_eq!(client.unsent(), b"1]\n");
    assert!(client.wants_write() && client.keeps_up());
    client.sent(3);
    assert!(!client.wants_write());
}

#[test]
fn turns_begin_at_the_next_client_and_wrap() {
    assert_eq!(poll_order(&vec![7, 3, 9], 4), [7, 9, 3]);
    assert_eq!(poll_order(&vec![7, 3, 9], 100), [3, 7, 9]);
    assert_eq!(turn_after(&vec![7, 9, 3], 2), 7);
    assert!(may_accept(MAX_CLIENTS - 1) && !may_accept(MAX_CLIENTS));
    assert_eq!(next_client_id(5), 6);
}

#[test]
fn runtime_directories_must_be_private() {
    let facts = |owner, mode| DirectoryFacts {
        is_dir: true,
        owner,
        mode,
    };
    let xdg = RuntimeDirectorySource::Xdg;
    let fallback = RuntimeDirectorySource::Fallback;
    assert_eq!(directory_step(facts(5, 0o700), 5, xdg), DirectoryStep::Use);
    assert_eq!(
        directory_step(facts(5, 0o750), 5, xdg),
        DirectoryStep::Refuse(DirectoryError::TooOpen)
    );
    assert_eq!(
        directory_step(facts(5, 0o777), 5, fallback),
        DirectoryStep::Tighten
    );
    assert_eq!(
        directory_step(facts(6, 0o700), 5, fallback),
        DirectoryStep::Refuse(DirectoryError::WrongOwner)
    );
    let link = DirectoryFacts {
        is_dir: false,
        owner: 5,
        mode: 0o777,
    };
    assert_eq!(
        directory_step(link, 5, fallback),
        DirectoryStep::Refuse(DirectoryError::NotDirectory)
    );
    assert_eq!(
        validate_private_directory(facts(5, 0o777), Some(facts(5, 0o700)), 5, fallback),
        Ok(())
    );
    assert_eq!(
        validate_private_directory(facts(5, 0o777), Some(facts(5, 0o770)), 5, fallback),
        Err(DirectoryError::NotSecured)
    );
    assert_eq!(
        validated_socket_path(Some(b"/run/user/5"), 5, facts(5, 0o700), None),
        Ok(b"/run/user/5/jwm-ipc.sock".to_vec())
    );
}

#[test]
fn only_a_dead_socket_of_ones_own_is_replaced() {
    let socket = SocketIdentity {
        device: 1,
        inode: 2,
        owner: 5,
    };
    assert_eq!(on_endpoint(EndpointProbe::Missing, 5), BindStep::Bind);
    assert_eq!(
        on_endpoint(EndpointProbe::NotSocket, 5),
        BindStep::RefuseNotSocket
    );
    assert_eq!(
        on_endpoint(EndpointProbe::Socket(socket), 6),
        BindStep::RefuseForeign
    );
    assert_eq!(
        on_endpoint(EndpointProbe::Socket(socket), 5),
        BindStep::Connect
    );
    assert_eq!(on_endpoint(EndpointProbe::Failed, 5), BindStep::Fail);
    assert_eq!(
        on_connect(socket, ConnectProbe::Connected),
        BindStep::RefuseActive
    );
    assert_eq!(
        on_connect(socket, ConnectProbe::Refused),
        BindStep::RemoveStale(socket)
    );
    let other = SocketIdentity { inode: 3, ..socket };
    assert!(may_remove(socket, EndpointProbe::Socket(socket)));
    assert!(!may_remove(socket, EndpointProbe::Socket(other)));
    assert!(!may_remove(socket, EndpointProbe::Missing));
}

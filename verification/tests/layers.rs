use asansio::pingpong;
use asansio::tlv::Cache;
use asansio::tlv::Tlv;
use asansio::tlv::TlvRequest;
use asansio::tlv::TlvResponse;
use asansio::tlv_pingpong::client_pp_request;
use asansio::tlv_pingpong::client_response;
use asansio::tlv_pingpong::client_tlv_request;
use asansio::tlv_pingpong::server_pp_request;
use asansio::tlv_pingpong::server_response;
use asansio::tlv_pingpong::server_tlv_request;
use asansio::tlv_pingpong::Client;
use asansio::tlv_pingpong::ClientRequest;
use asansio::tlv_pingpong::ClientResponse;
use asansio::tlv_pingpong::ClientStack;
use asansio::tlv_pingpong::Server;
use asansio::tlv_pingpong::ServerRequest;
use asansio::tlv_pingpong::ServerResponse;
use asansio::tlv_pingpong::ServerStack;

#[test]
fn cache_waits_for_a_whole_record() {
    let mut cache = Cache::new();
    assert_eq!(cache.read_packet(&[]), None);
    assert_eq!(cache.read_packet(&[7]), None);
    assert_eq!(cache.read_packet(&[3, 1]), None);
    assert_eq!(cache.read_packet(&[2]), None);
    assert_eq!(cache.read_packet(&[3]), Some(vec![7, 3, 1, 2, 3]));
    assert_eq!(cache.read_packet(&[]), None);
}

#[test]
fn cache_hands_out_one_record_per_call() {
    let mut cache = Cache::new();
    assert_eq!(cache.read_packet(&[1, 0, 2, 2, 8, 9, 3]), Some(vec![1, 0]));
    assert_eq!(cache.read_packet(&[]), Some(vec![2, 2, 8, 9]));
    assert_eq!(cache.read_packet(&[]), None);
    assert_eq!(cache.read_packet(&[1, 5]), Some(vec![3, 1, 5]));
}

#[test]
fn packet_is_tag_length_value() {
    let cache = Cache::new();
    assert_eq!(cache.write_packet(4, &[]), vec![4, 0]);
    assert_eq!(cache.write_packet(0, b"hi"), vec![0, 2, b'h', b'i']);
}

#[test]
fn packet_length_byte_wraps_at_256() {
    let cache = Cache::new();
    let val = vec![1u8; 300];
    let packet = cache.write_packet(9, &val);
    assert_eq!(packet.len(), 302);
    assert_eq!(packet[0], 9);
    assert_eq!(packet[1], 44);
    assert_eq!(&packet[2..], &val[..]);
}

#[test]
fn framing_task_alone() {
    let (sans, io) = asansio::new::<TlvRequest, TlvResponse>();
    let step = io.start(Tlv::new(sans)).unwrap();
    assert_eq!(step.request(), Some(&TlvRequest::ReadPayload));

    let step = io.handle(step, &TlvResponse::ReadPayload { payload: vec![5, 2, 1] }).unwrap();
    assert_eq!(step.request(), Some(&TlvRequest::ReadPayload));

    let step = io.handle(step, &TlvResponse::ReadPayload { payload: vec![2, 6] }).unwrap();
    assert_eq!(step.request(), Some(&TlvRequest::Read { tag: 5, val: vec![1, 2] }));

    let step = io.handle(step, &TlvResponse::Write { tag: 3, val: vec![9, 9, 9] }).unwrap();
    assert_eq!(step.request(), Some(&TlvRequest::WritePayload { payload: vec![3, 3, 9, 9, 9] }));

    // The byte that came after the record is still there.
    let step = io.handle(step, &TlvResponse::ReadPayload { payload: vec![0] }).unwrap();
    assert_eq!(step.request(), Some(&TlvRequest::Read { tag: 6, val: vec![] }));
}

#[test]
fn client_turns_responses_into_requests() {
    assert_eq!(
        pingpong::client_read_message(b"pong"),
        pingpong::ClientRequest::Message { msg: "pong".to_string() }
    );
    assert_eq!(
        pingpong::client_read_message("gr\u{fc}\u{df}e".as_bytes()),
        pingpong::ClientRequest::Message { msg: "gr\u{fc}\u{df}e".to_string() }
    );
    assert_eq!(
        pingpong::client_read_message(&[b'a', 0xff, b'b']),
        pingpong::ClientRequest::Message { msg: "(wrong utf-8 encoding)".to_string() }
    );
    assert_eq!(
        pingpong::client_message("ping"),
        pingpong::ClientRequest::WriteMessage { payload: b"ping".to_vec() }
    );
}

#[test]
fn sleep_order_is_one_byte() {
    assert_eq!(
        pingpong::client_sleep(0),
        pingpong::ClientRequest::WriteSleep { payload: vec![0] }
    );
    assert_eq!(
        pingpong::client_sleep(200),
        pingpong::ClientRequest::WriteSleep { payload: vec![200] }
    );
    assert_eq!(
        pingpong::client_sleep(255),
        pingpong::ClientRequest::WriteSleep { payload: vec![255] }
    );
    assert_eq!(
        pingpong::client_sleep(256),
        pingpong::ClientRequest::WriteSleep { payload: vec![255] }
    );
    assert_eq!(
        pingpong::client_sleep(u128::MAX),
        pingpong::ClientRequest::WriteSleep { payload: vec![255] }
    );
}

#[test]
fn server_turns_responses_into_requests() {
    assert_eq!(
        pingpong::server_read_message(b"ping"),
        pingpong::ServerRequest::WriteMessage { payload: b"Received: ping".to_vec() }
    );
    assert_eq!(pingpong::server_read_sleep(&[20]), pingpong::ServerRequest::Sleep { millis: 20 });
    assert_eq!(pingpong::server_read_sleep(&[]), pingpong::ServerRequest::Read);
    assert_eq!(pingpong::server_read_sleep(&[1, 2]), pingpong::ServerRequest::Read);
}

#[test]
fn message_tasks_alone() {
    let (sans, io) = asansio::new::<pingpong::ClientRequest, pingpong::ClientResponse>();
    let step = io.start(pingpong::Client::new(sans)).unwrap();
    assert_eq!(step.request(), Some(&pingpong::ClientRequest::Ready));
    let step = io.handle(step, &pingpong::ClientResponse::Sleep { millis: 1000 }).unwrap();
    assert_eq!(step.request(), Some(&pingpong::ClientRequest::WriteSleep { payload: vec![255] }));
    let step =
        io.handle(step, &pingpong::ClientResponse::Message { msg: "a".to_string() }).unwrap();
    assert_eq!(step.request(), Some(&pingpong::ClientRequest::WriteMessage { payload: vec![b'a'] }));

    let (sans, io) = asansio::new::<pingpong::ServerRequest, pingpong::ServerResponse>();
    let step = io.start(pingpong::Server::new(sans)).unwrap();
    assert_eq!(step.request(), Some(&pingpong::ServerRequest::Read));
    let step =
        io.handle(step, &pingpong::ServerResponse::ReadSleep { payload: vec![9] }).unwrap();
    assert_eq!(step.request(), Some(&pingpong::ServerRequest::Sleep { millis: 9 }));
}

#[test]
fn client_routes_by_tag() {
    assert_eq!(
        client_tlv_request(TlvRequest::Read { tag: 0, val: vec![1] }),
        Client::Pp(pingpong::ClientResponse::ReadMessage { payload: vec![1] })
    );
    assert_eq!(
        client_tlv_request(TlvRequest::Read { tag: 1, val: vec![1] }),
        Client::Request(ClientRequest::Error)
    );
    assert_eq!(client_tlv_request(TlvRequest::ReadPayload), Client::Request(ClientRequest::ReadPayload));
    assert_eq!(
        client_tlv_request(TlvRequest::WritePayload { payload: vec![3] }),
        Client::Request(ClientRequest::WritePayload { payload: vec![3] })
    );
    assert_eq!(
        client_pp_request(pingpong::ClientRequest::WriteMessage { payload: vec![4] }),
        Client::Tlv(TlvResponse::Write { tag: 0, val: vec![4] })
    );
    assert_eq!(
        client_pp_request(pingpong::ClientRequest::WriteSleep { payload: vec![5] }),
        Client::Tlv(TlvResponse::Write { tag: 1, val: vec![5] })
    );
    assert_eq!(
        client_pp_request(pingpong::ClientRequest::Ready),
        Client::Tlv(TlvResponse::ReadPayload { payload: vec![] })
    );
    assert_eq!(
        client_pp_request(pingpong::ClientRequest::Message { msg: "m".to_string() }),
        Client::Request(ClientRequest::Message { msg: "m".to_string() })
    );
    assert_eq!(
        client_response(&ClientResponse::ReadPayload { payload: vec![6, 7] }),
        Client::Tlv(TlvResponse::ReadPayload { payload: vec![6, 7] })
    );
    assert_eq!(
        client_response(&ClientResponse::Message { msg: "m".to_string() }),
        Client::Pp(pingpong::ClientResponse::Message { msg: "m".to_string() })
    );
    assert_eq!(
        client_response(&ClientResponse::Sleep { millis: 8 }),
        Client::Pp(pingpong::ClientResponse::Sleep { millis: 8 })
    );
}

#[test]
fn server_routes_by_tag() {
    assert_eq!(
        server_tlv_request(TlvRequest::Read { tag: 0, val: vec![1] }),
        Server::Pp(pingpong::ServerResponse::ReadMessage { payload: vec![1] })
    );
    assert_eq!(
        server_tlv_request(TlvRequest::Read { tag: 1, val: vec![2] }),
        Server::Pp(pingpong::ServerResponse::ReadSleep { payload: vec![2] })
    );
    assert_eq!(
        server_tlv_request(TlvRequest::Read { tag: 2, val: vec![] }),
        Server::Request(ServerRequest::Error)
    );
    assert_eq!(
        server_pp_request(pingpong::ServerRequest::Sleep { millis: 3 }),
        Server::Request(ServerRequest::Sleep { millis: 3 })
    );
    assert_eq!(
        server_pp_request(pingpong::ServerRequest::Read),
        Server::Tlv(TlvResponse::ReadPayload { payload: vec![] })
    );
    assert_eq!(
        server_pp_request(pingpong::ServerRequest::WriteMessage { payload: vec![4] }),
        Server::Tlv(TlvResponse::Write { tag: 0, val: vec![4] })
    );
    assert_eq!(
        server_response(&ServerResponse::ReadPayload { payload: vec![5] }),
        Server::Tlv(TlvResponse::ReadPayload { payload: vec![5] })
    );
}

#[test]
fn client_stack_partial_record_asks_for_more() {
    let (sans, io) = asansio::new::<ClientRequest, ClientResponse>();
    let step = io.start(ClientStack::new(sans)).unwrap();
    assert_eq!(step.request(), Some(&ClientRequest::ReadPayload));

    let step = io.handle(step, &ClientResponse::ReadPayload { payload: vec![] }).unwrap();
    assert_eq!(step.request(), Some(&ClientRequest::ReadPayload));

    let step = io.handle(step, &ClientResponse::ReadPayload { payload: vec![0, 4, b'p'] }).unwrap();
    assert_eq!(step.request(), Some(&ClientRequest::ReadPayload));

    let step = io.handle(step, &ClientResponse::ReadPayload { payload: b"on".to_vec() }).unwrap();
    assert_eq!(step.request(), Some(&ClientRequest::ReadPayload));

    let step = io.handle(step, &ClientResponse::ReadPayload { payload: b"g".to_vec() }).unwrap();
    assert_eq!(step.request(), Some(&ClientRequest::Message { msg: "pong".to_string() }));
}

#[test]
fn client_stack_frames_what_it_sends() {
    let (sans, io) = asansio::new::<ClientRequest, ClientResponse>();
    let step = io.start(ClientStack::new(sans)).unwrap();

    let step = io.handle(step, &ClientResponse::Message { msg: "packet 1".to_string() }).unwrap();
    assert_eq!(
        step.request(),
        Some(&ClientRequest::WritePayload { payload: b"\x00\x08packet 1".to_vec() })
    );

    let step = io.handle(step, &ClientResponse::Sleep { millis: 200 }).unwrap();
    assert_eq!(step.request(), Some(&ClientRequest::WritePayload { payload: vec![1, 1, 200] }));

    let step = io.handle(step, &ClientResponse::Sleep { millis: 70_000 }).unwrap();
    assert_eq!(step.request(), Some(&ClientRequest::WritePayload { payload: vec![1, 1, 255] }));
}

#[test]
fn client_stack_unknown_tag_is_error() {
    let (sans, io) = asansio::new::<ClientRequest, ClientResponse>();
    let step = io.start(ClientStack::new(sans)).unwrap();
    let step = io.handle(step, &ClientResponse::ReadPayload { payload: vec![1, 1, 20] }).unwrap();
    assert_eq!(step.request(), Some(&ClientRequest::Error));
}

#[test]
fn server_stack_answers_a_message() {
    let (sans, io) = asansio::new::<ServerRequest, ServerResponse>();
    let step = io.start(ServerStack::new(sans)).unwrap();
    assert_eq!(step.request(), Some(&ServerRequest::ReadPayload));

    let step = io.handle(step, &ServerResponse::ReadPayload { payload: vec![0, 2, b'h'] }).unwrap();
    assert_eq!(step.request(), Some(&ServerRequest::ReadPayload));

    let step = io.handle(step, &ServerResponse::ReadPayload { payload: vec![b'i'] }).unwrap();
    assert_eq!(
        step.request(),
        Some(&ServerRequest::WritePayload { payload: b"\x00\x0cReceived: hi".to_vec() })
    );
}

#[test]
fn server_stack_sleeps_as_ordered() {
    let (sans, io) = asansio::new::<ServerRequest, ServerResponse>();
    let step = io.start(ServerStack::new(sans)).unwrap();
    let step = io.handle(step, &ServerResponse::ReadPayload { payload: vec![1, 1, 20] }).unwrap();
    assert_eq!(step.request(), Some(&ServerRequest::Sleep { millis: 20 }));
}

#[test]
fn server_stack_passes_over_a_bad_sleep_order() {
    let (sans, io) = asansio::new::<ServerRequest, ServerResponse>();
    let step = io.start(ServerStack::new(sans)).unwrap();

    // A sleep order of two bytes, alone: the server reads on.
    let step = io.handle(step, &ServerResponse::ReadPayload { payload: vec![1, 2, 0, 0] }).unwrap();
    assert_eq!(step.request(), Some(&ServerRequest::ReadPayload));

    // Two bad orders and a good one in one read: the good one is found.
    let step = io
        .handle(step, &ServerResponse::ReadPayload { payload: vec![1, 0, 1, 2, 5, 5, 1, 1, 30, 0] })
        .unwrap();
    assert_eq!(step.request(), Some(&ServerRequest::Sleep { millis: 30 }));
}

#[test]
fn server_stack_unknown_tag_is_error() {
    let (sans, io) = asansio::new::<ServerRequest, ServerResponse>();
    let step = io.start(ServerStack::new(sans)).unwrap();
    let step = io.handle(step, &ServerResponse::ReadPayload { payload: vec![2, 0] }).unwrap();
    assert_eq!(step.request(), Some(&ServerRequest::Error));
}

#[test]
fn client_stack_replayed_from_canned_reads() {
    let (sans, io) = asansio::new::<ClientRequest, ClientResponse>();
    let responses = vec![
        ClientResponse::Message { msg: "ping".to_string() },
        ClientResponse::ReadPayload { payload: vec![0, 14, b'R', b'e', b'c'] },
        ClientResponse::ReadPayload { payload: b"eived: ping".to_vec() },
    ];
    assert_eq!(
        io.replay(ClientStack::new(sans), &responses),
        vec![
            ClientRequest::ReadPayload,
            ClientRequest::WritePayload { payload: b"\x00\x04ping".to_vec() },
            ClientRequest::ReadPayload,
            ClientRequest::Message { msg: "Received: ping".to_string() },
        ]
    );
}

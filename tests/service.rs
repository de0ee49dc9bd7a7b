use perf_bench::options::{ClientOpts, ClientSubstreamOpts, Command, ServerOpts};
use perf_bench::perf::{Phase, Step};
use perf_bench::server::{behaviour, handler};
use perf_bench::service::{Direction, Perf, PerfAction, PerfMode};

#[test]
fn modes_open_their_substreams() {
    assert_eq!(Perf::new(PerfMode::Server).num_substreams(), 0);
    let client = Perf::new(PerfMode::Client { upload_bytes: 1, download_bytes: 2 });
    assert_eq!(client.num_substreams(), 1);
    let sub = Perf::new(PerfMode::ClientSubstream { substreams: 4 });
    assert!(matches!(sub.on_connection_established(), PerfAction::OpenSubstreams(4)));
}

#[test]
fn server_and_client_run_the_protocol() {
    let mut server = Perf::new(PerfMode::Server);
    match server.on_substream_opened(Direction::Inbound, 5) {
        PerfAction::Run(run) => assert_eq!(run.next_step(), Step::ReadSize),
        _ => panic!("a server serves every substream"),
    }
    let mut client = Perf::new(PerfMode::Client { upload_bytes: 3, download_bytes: 4 });
    match client.on_substream_opened(Direction::Outbound, 5) {
        PerfAction::Run(run) => {
            assert_eq!(run.phase(), Phase::UploadSize);
            assert_eq!(run.next_step(), Step::WriteSize([0, 0, 0, 0, 0, 0, 0, 3]));
        }
        _ => panic!("a client runs its benchmark"),
    }
}

#[test]
fn substream_timing_reports_the_mean_per_round() {
    let mut p = Perf::new(PerfMode::ClientSubstream { substreams: 3 });
    assert!(matches!(p.on_substream_opened(Direction::Outbound, 10), PerfAction::Idle));
    assert!(matches!(p.on_substream_opened(Direction::Inbound, 1000), PerfAction::Idle));
    assert!(matches!(p.on_substream_opened(Direction::Outbound, 20), PerfAction::Idle));
    assert!(matches!(p.on_substream_opened(Direction::Outbound, 31), PerfAction::AverageOpenTime(20)));
    // a new round starts
    assert!(matches!(p.on_substream_opened(Direction::Outbound, 3), PerfAction::Idle));
    assert!(matches!(p.on_substream_opened(Direction::Outbound, 3), PerfAction::Idle));
    assert!(matches!(p.on_substream_opened(Direction::Outbound, 3), PerfAction::AverageOpenTime(3)));
}

#[test]
fn substream_timing_with_no_substreams_never_reports() {
    let mut p = Perf::new(PerfMode::ClientSubstream { substreams: 0 });
    for _ in 0..3 {
        assert!(matches!(p.on_substream_opened(Direction::Outbound, u64::MAX), PerfAction::Idle));
    }
}

#[test]
fn server_handler_counts_runs() {
    let mut h = handler::Handler::new();
    let run = h.on_inbound_negotiated();
    assert_eq!(run.next_step(), Step::ReadSize);
    assert_eq!(h.in_flight(), 1);
    assert_eq!(h.on_execution_finished(), Ok(handler::Event {}));
    assert_eq!(h.on_execution_finished(), Err(handler::UnknownRun()));

    let mut b = behaviour::Behaviour::new();
    assert!(b.poll().is_none());
    b.on_connection_handler_event(handler::Event {});
    assert_eq!(b.poll(), Some(behaviour::Event {}));
    assert!(b.poll().is_none());
}

#[test]
fn node_key_is_truncated_or_padded() {
    let short = ServerOpts { listen_address: String::new(), node_key: "abc".to_string() };
    let mut expected = vec![b'a', b'b', b'c'];
    expected.resize(32, 0);
    assert_eq!(short.secret_key_bytes(), expected);

    let long_key: String = std::iter::repeat('k').take(40).collect();
    let long = ServerOpts { listen_address: String::new(), node_key: long_key };
    assert_eq!(long.secret_key_bytes(), vec![b'k'; 32]);
}

#[test]
fn commands_select_the_mode() {
    let c = Command::Client(ClientOpts {
        server_address: "/ip4/127.0.0.1/tcp/1".to_string(),
        upload_bytes: 7,
        download_bytes: 9,
    });
    assert_eq!(c.perf_mode(), PerfMode::Client { upload_bytes: 7, download_bytes: 9 });
    let s = Command::ClientSubstream(ClientSubstreamOpts {
        server_address: String::new(),
        substreams: 12,
    });
    assert_eq!(s.perf_mode(), PerfMode::ClientSubstream { substreams: 12 });
    let srv = Command::Server(ServerOpts { listen_address: String::new(), node_key: String::new() });
    assert_eq!(srv.perf_mode(), PerfMode::Server);
}

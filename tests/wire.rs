use perf_bench::perf::{decode_u64, encode_u64, Phase, Step, WireRun, CHUNK_SIZE, PROTOCOL_NAME};

#[test]
fn sizes_are_eight_bytes_big_endian() {
    assert_eq!(encode_u64(0x0102030405060708), [1, 2, 3, 4, 5, 6, 7, 8]);
    assert_eq!(decode_u64([0, 0, 0, 0, 0, 0, 4, 0]), 1024);
    assert_eq!(decode_u64(encode_u64(u64::MAX)), u64::MAX);
    assert_eq!(decode_u64(encode_u64(12345678901)), 12345678901);
}

#[test]
fn protocol_name_is_version_tagged() {
    assert_eq!(PROTOCOL_NAME, "/litep2p-perf/1.0.0");
    assert_eq!(CHUNK_SIZE, 1024);
}

/// Drives a client run to the end, as if the peer took everything, and
/// returns the bytes written as payload and the announcements.
fn drive_client(upload: u64, download: u64) -> (u64, u64, Vec<[u8; 8]>) {
    let mut run = WireRun::client(upload, download);
    let mut written: u64 = 0;
    let mut read: u64 = 0;
    let mut sizes = Vec::new();
    loop {
        match run.next_step() {
            Step::WriteSize(b) => {
                sizes.push(b);
                run.size_written();
            }
            Step::Send(n) => {
                assert!(n as u64 <= CHUNK_SIZE && n > 0);
                written += n as u64;
                run.sent(n);
            }
            Step::Receive(n) => {
                assert!(n as u64 <= CHUNK_SIZE && n > 0);
                read += n as u64;
                run.received(n);
            }
            Step::ReadSize => panic!("a client never reads a size"),
            Step::Done => break,
        }
    }
    assert_eq!(run.phase(), Phase::Finished);
    assert!(!run.was_cut());
    (written, read, sizes)
}

/// Drives a server run over what a client wrote, returning payload bytes read
/// and written.
fn drive_server(upload: u64, download: u64) -> (u64, u64) {
    let mut run = WireRun::server();
    let mut headers = vec![encode_u64(upload), encode_u64(download)].into_iter();
    let mut written: u64 = 0;
    let mut read: u64 = 0;
    loop {
        match run.next_step() {
            Step::ReadSize => run.size_read(headers.next().unwrap()),
            Step::Receive(n) => {
                read += n as u64;
                run.received(n);
            }
            Step::Send(n) => {
                written += n as u64;
                run.sent(n);
            }
            Step::WriteSize(_) => panic!("a server never writes a size"),
            Step::Done => break,
        }
    }
    assert_eq!(run.moved(), (upload, download));
    (read, written)
}

#[test]
fn byte_counts_are_conserved() {
    for &(u, d) in &[(0u64, 0u64), (1, 1), (1023, 1025), (1024, 2048), (5000, 0), (0, 7777)] {
        let (written, read, sizes) = drive_client(u, d);
        assert_eq!((written, read), (u, d));
        assert_eq!(sizes, vec![encode_u64(u), encode_u64(d)]);
        assert_eq!(drive_server(u, d), (u, d));
    }
}

#[test]
fn empty_benchmark_completes_at_once() {
    let mut run = WireRun::client(0, 0);
    assert_eq!(run.next_step(), Step::WriteSize([0; 8]));
    run.size_written();
    assert_eq!(run.next_step(), Step::WriteSize([0; 8]));
    run.size_written();
    assert_eq!(run.next_step(), Step::Done);
    assert_eq!(run.moved(), (0, 0));

    let mut server = WireRun::server();
    assert_eq!(server.next_step(), Step::ReadSize);
    server.size_read([0; 8]);
    assert_eq!(server.next_step(), Step::ReadSize);
    server.size_read([0; 8]);
    assert_eq!(server.next_step(), Step::Done);
}

#[test]
fn last_chunk_is_short() {
    let mut run = WireRun::client(1500, 0);
    run.size_written();
    assert_eq!(run.next_step(), Step::Send(1024));
    run.sent(1024);
    assert_eq!(run.next_step(), Step::Send(476));
    run.sent(476);
    assert_eq!(run.phase(), Phase::DownloadSize);
}

#[test]
fn server_stops_receiving_when_the_peer_closes_early() {
    let mut run = WireRun::server();
    run.size_read(encode_u64(2048));
    assert_eq!(run.next_step(), Step::Receive(1024));
    run.received(1024);
    assert_eq!(run.next_step(), Step::Receive(1024));
    // zero-length read: the peer closed after half of the announced upload
    run.received(0);
    assert!(run.was_cut());
    assert_eq!(run.moved(), (1024, 0));
    assert_eq!(run.phase(), Phase::DownloadSize);
    // no further payload read is asked for: the next step is the announcement
    assert_eq!(run.next_step(), Step::ReadSize);
}

#[test]
fn client_accepts_a_short_download() {
    let mut run = WireRun::client(0, 3000);
    run.size_written();
    run.size_written();
    assert_eq!(run.next_step(), Step::Receive(1024));
    run.received(100);
    assert_eq!(run.next_step(), Step::Receive(1024));
    run.received(0);
    assert_eq!(run.next_step(), Step::Done);
    assert!(run.was_cut());
    assert_eq!(run.moved(), (0, 100));
}

use gophers::{build_request, FetchAction, FetchSession, Gopher};

#[test]
fn request_is_selector_then_crlf() {
    assert_eq!(build_request("/memecache/index.meme"), b"/memecache/index.meme\r\n".to_vec());
}

#[test]
fn empty_selector_sends_bare_crlf() {
    assert_eq!(build_request(""), b"\r\n".to_vec());
}

#[test]
fn request_encodes_selector_as_utf8() {
    assert_eq!(build_request("/caf\u{e9}"), "/caf\u{e9}\r\n".as_bytes().to_vec());
}

/// Drives a session against an in-memory peer: `accept_at_most` bytes are
/// taken per write, the peer then answers with `chunks` and closes.
/// Returns the bytes the peer received and the session's response.
fn drive(path: &str, accept_at_most: usize, chunks: &[&[u8]]) -> (Vec<u8>, Vec<u8>) {
    let mut session = FetchSession::new(path);
    let mut wire: Vec<u8> = Vec::new();
    let mut served: usize = 0;
    loop {
        match session.next_action() {
            FetchAction::Send => {
                let pending = session.pending();
                let n: usize = accept_at_most.min(pending.len());
                wire.extend_from_slice(&pending[..n]);
                assert!(session.record_sent(n));
            }
            FetchAction::Receive => {
                if served < chunks.len() {
                    session.record_received(chunks[served]);
                    served += 1;
                } else {
                    session.record_closed();
                }
            }
            FetchAction::Done => return (wire, session.into_response()),
        }
    }
}

#[test]
fn session_sends_exactly_the_request() {
    let (wire, _) = drive("/files", usize::MAX, &[]);
    assert_eq!(wire, b"/files\r\n".to_vec());
}

#[test]
fn partial_writes_still_send_everything_once() {
    let (wire, _) = drive("/files", 1, &[]);
    assert_eq!(wire, b"/files\r\n".to_vec());
}

#[test]
fn empty_selector_session_sends_crlf_only() {
    let (wire, _) = drive("", 2, &[]);
    assert_eq!(wire, b"\r\n".to_vec());
}

#[test]
fn response_is_what_the_peer_wrote() {
    let (_, response) = drive("/", usize::MAX, &[b"hello ", b"world"]);
    assert_eq!(response, b"hello world".to_vec());
}

#[test]
fn empty_response_is_returned_empty() {
    let (_, response) = drive("/", usize::MAX, &[]);
    assert_eq!(response, Vec::<u8>::new());
}

#[test]
fn write_zero_is_refused() {
    let mut session = FetchSession::new("/");
    assert!(!session.record_sent(0));
}

#[test]
fn round_trip_menu_fetch() {
    let g = Gopher::new("gopher://example.org").unwrap();
    assert_eq!(g.host().as_str(), "example.org");
    assert_eq!(g.port(), 70);
    assert!(!g.tls());
    let menu: &[u8] = b"1Menu\tfake\texample.org\t70\r\n.\r\n";
    let (wire, response) = drive("/", usize::MAX, &[menu]);
    assert_eq!(wire, b"/\r\n".to_vec());
    assert_eq!(response, menu.to_vec());
}

#[test]
fn reference_exchange_sends_request_and_returns_chunks() {
    let chunks = vec![b"abc".to_vec(), b"defg".to_vec()];
    let (wire, response) = gophers::exchange("/x", &chunks);
    assert_eq!(wire, b"/x\r\n".to_vec());
    assert_eq!(response, b"abcdefg".to_vec());
}

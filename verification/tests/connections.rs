use prime_time::connection::{malformed_reply, Connection};
use prime_time::errors::{ServerErrorKind, SolutionError};
use prime_time::protocol::{Protocol, RequestDelimiter};
use prime_time::service::PrimeTimeServer;

#[test]
fn conforming_request_keeps_the_connection_open() {
    let mut conn = Connection::new(PrimeTimeServer);
    conn.feed(b"{\"method\":\"isPrime\",\"number\":7}\n");
    let reply = conn.poll_reply();
    assert_eq!(
        reply,
        Some(b"{\"method\":\"isPrime\",\"prime\":true}\n".to_vec())
    );
    assert!(conn.is_open());
    assert_eq!(conn.poll_reply(), None);
}

#[test]
fn malformed_request_draws_one_reply_and_closes() {
    let mut conn = Connection::new(PrimeTimeServer);
    conn.feed(b"{\"method\":\"isPrime\",\"number\":\"seven\"}\n");
    let reply = conn.poll_reply();
    assert_eq!(reply, Some(b"malformed\n".to_vec()));
    assert!(!conn.is_open());
}

#[test]
fn malformed_request_discards_what_is_still_buffered() {
    let mut conn = Connection::new(PrimeTimeServer);
    conn.feed(b"garbage\n{\"method\":\"isPrime\",\"number\":5}\n");
    assert_eq!(conn.poll_reply(), Some(b"malformed\n".to_vec()));
    assert!(!conn.is_open());
}

#[test]
fn replies_come_back_in_request_order() {
    let mut conn = Connection::new(PrimeTimeServer);
    conn.feed(b"{\"method\":\"isPrime\",\"number\":2}\n{\"method\":\"isPrime\",\"number\":9}\n{\"method\":\"isPrime\",\"number\":11}\n");
    assert_eq!(
        conn.poll_reply(),
        Some(b"{\"method\":\"isPrime\",\"prime\":true}\n".to_vec())
    );
    assert_eq!(
        conn.poll_reply(),
        Some(b"{\"method\":\"isPrime\",\"prime\":false}\n".to_vec())
    );
    assert_eq!(
        conn.poll_reply(),
        Some(b"{\"method\":\"isPrime\",\"prime\":true}\n".to_vec())
    );
    assert!(conn.is_open());
    assert_eq!(conn.poll_reply(), None);
}

#[test]
fn end_of_stream_with_empty_buffer_closes_silently() {
    let mut conn = Connection::new(PrimeTimeServer);
    assert_eq!(conn.on_end_of_stream(), None);
    assert!(!conn.is_open());
}

#[test]
fn end_of_stream_dispatches_the_unterminated_tail() {
    let mut conn = Connection::new(PrimeTimeServer);
    conn.feed(b"{\"method\":\"isPrime\",\"number\":13}");
    assert_eq!(conn.poll_reply(), None);
    let reply = conn.on_end_of_stream();
    assert_eq!(
        reply,
        Some(b"{\"method\":\"isPrime\",\"prime\":true}\n".to_vec())
    );
    assert!(!conn.is_open());
}

#[test]
fn read_and_write_errors_close_the_connection() {
    let mut conn = Connection::new(PrimeTimeServer);
    assert_eq!(conn.on_read_error(), ServerErrorKind::ReadFail);
    assert!(!conn.is_open());

    let mut other = Connection::new(PrimeTimeServer);
    assert_eq!(other.on_write_error(), ServerErrorKind::WriteFail);
    assert!(!other.is_open());
}

#[test]
fn five_interleaved_connections_do_not_interfere() {
    let mut conns: Vec<Connection<PrimeTimeServer>> = Vec::new();
    for _ in 0..5 {
        conns.push(Connection::new(PrimeTimeServer));
    }
    let numbers: [i64; 5] = [2, 4, 11, 9, 778013];
    let expectations: [bool; 5] = [true, false, true, false, true];

    // Feed byte by byte, round-robin across the five connections.
    let lines: Vec<Vec<u8>> = numbers
        .iter()
        .map(|n| format!("{{\"method\":\"isPrime\",\"number\":{}}}\n", n).into_bytes())
        .collect();
    let longest = lines.iter().map(|l| l.len()).max().unwrap();
    for pos in 0..longest {
        for (i, line) in lines.iter().enumerate() {
            if pos < line.len() {
                conns[i].feed(&line[pos..pos + 1]);
            }
        }
    }

    for (i, conn) in conns.iter_mut().enumerate() {
        let expected = format!("{{\"method\":\"isPrime\",\"prime\":{}}}\n", expectations[i]);
        assert_eq!(conn.poll_reply(), Some(expected.into_bytes()));
        assert!(conn.is_open());
        assert_eq!(conn.poll_reply(), None);
    }
}

#[test]
fn handler_signals_malformed_with_the_offending_bytes() {
    let mut handler = PrimeTimeServer;
    let line = b"{\"method\":\"isPrim\",\"number\":123}";
    assert_eq!(
        handler.process_request(line),
        Err(SolutionError::Request(line.to_vec()))
    );

    let ok = handler.process_request(b"{\"method\":\"isPrime\",\"number\":3}");
    assert_eq!(ok, Ok(b"{\"method\":\"isPrime\",\"prime\":true}\n".to_vec()));
}

#[test]
fn the_delimiter_is_a_newline() {
    let handler = PrimeTimeServer;
    assert!(matches!(
        handler.get_delimiter(),
        RequestDelimiter::UntilChar(b'\n')
    ));
}

#[test]
fn the_malformed_reply_is_fixed() {
    assert_eq!(malformed_reply(), b"malformed\n".to_vec());
}

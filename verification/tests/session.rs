use bytes::Bytes;
use clickr::client::Client;
use clickr::insert::{session_request, Ended, Insert, Joined, Phase, BUFFER_SIZE, MIN_CHUNK_SIZE};
use clickr::request::Request;
use clickr::Error;

fn local() -> Client {
    Client {
        url: String::from("http://localhost:8123"),
        database: Some(String::from("db")),
        user: None,
        password: None,
    }
}

fn session() -> Insert {
    Insert::open(Request { url: String::from("http://localhost:8123/"), headers: Vec::new() })
}

fn row(len: usize, seed: u8) -> Vec<u8> {
    (0..len).map(|i| seed.wrapping_add((i % 251) as u8)).collect()
}

#[test]
fn chunk_threshold_lies_a_kibibyte_below_the_capacity() {
    assert_eq!(BUFFER_SIZE, 131_072);
    assert_eq!(MIN_CHUNK_SIZE, 130_048);
}

#[test]
fn a_fresh_session_is_open_and_empty() {
    let insert = session();
    assert_eq!(insert.phase(), Phase::Open);
    assert_eq!(insert.len(), 0);
    assert_eq!(insert.request().url, "http://localhost:8123/");
}

#[test]
fn small_rows_are_buffered() {
    let mut insert = session();
    assert!(insert.write_slice(b"{\"a\":1}\n").is_none());
    assert!(insert.write_slice(b"{\"a\":2}\n").is_none());
    assert_eq!(insert.len(), 16);
    assert_eq!(insert.phase(), Phase::Open);
}

#[test]
fn owned_rows_are_buffered_like_borrowed_ones() {
    let mut insert = session();
    assert!(insert.write_bytes(Bytes::from_static(b"{\"a\":1}\n")).is_none());
    assert!(insert.write_slice(b"{\"a\":2}\n").is_none());
    let chunk = insert.end().expect("the buffer holds two rows");
    assert_eq!(&chunk[..], b"{\"a\":1}\n{\"a\":2}\n");
}

#[test]
fn the_row_that_reaches_the_threshold_hands_out_one_chunk() {
    let mut insert = session();
    let rows = [row(50_000, 1), row(50_000, 2), row(30_047, 3), row(1, 4), row(10, 5)];
    let mut chunks: Vec<(usize, Bytes)> = Vec::new();
    for (k, r) in rows.iter().enumerate() {
        if let Some(chunk) = insert.write_slice(r) {
            chunks.push((k, chunk));
        }
    }
    assert_eq!(chunks.len(), 1);
    let (k, chunk) = &chunks[0];
    assert_eq!(*k, 3);
    assert_eq!(chunk.len(), MIN_CHUNK_SIZE);
    let mut written: Vec<u8> = Vec::new();
    for r in rows.iter().take(4) {
        written.extend_from_slice(r);
    }
    assert_eq!(&chunk[..], &written[..]);
    assert_eq!(insert.len(), 10);
}

#[test]
fn one_byte_below_the_threshold_hands_out_nothing() {
    let mut insert = session();
    assert!(insert.write_slice(&row(MIN_CHUNK_SIZE - 1, 0)).is_none());
    assert_eq!(insert.len(), MIN_CHUNK_SIZE - 1);
    let chunk = insert.write_slice(b"x").expect("the threshold is reached");
    assert_eq!(chunk.len(), MIN_CHUNK_SIZE);
    assert_eq!(insert.len(), 0);
}

#[test]
fn a_row_larger_than_a_chunk_goes_out_whole() {
    let mut insert = session();
    assert!(insert.write_slice(b"head").is_none());
    let big = row(300_000, 9);
    let chunk = insert.write_slice(&big).expect("the threshold is passed");
    assert_eq!(chunk.len(), 300_004);
    assert_eq!(&chunk[..4], b"head");
    assert_eq!(&chunk[4..], &big[..]);
    assert_eq!(insert.len(), 0);
}

#[test]
fn an_empty_row_changes_nothing() {
    let mut insert = session();
    assert!(insert.write_slice(b"").is_none());
    assert_eq!(insert.len(), 0);
    assert!(insert.end().is_none());
}

#[test]
fn the_chunks_put_end_to_end_are_the_rows() {
    let mut insert = session();
    let mut written: Vec<u8> = Vec::new();
    let mut sent: Vec<u8> = Vec::new();
    let mut count = 0;
    for i in 0..400usize {
        let r = row(1 + (i * 997) % 4_000, i as u8);
        written.extend_from_slice(&r);
        if let Some(chunk) = insert.write_slice(&r) {
            assert!(chunk.len() >= MIN_CHUNK_SIZE);
            sent.extend_from_slice(&chunk);
            count += 1;
        }
        assert!(insert.len() < MIN_CHUNK_SIZE);
    }
    if let Some(chunk) = insert.end() {
        assert!(!chunk.is_empty());
        sent.extend_from_slice(&chunk);
        count += 1;
    }
    assert_eq!(sent, written);
    assert_eq!(count, written.len() / MIN_CHUNK_SIZE + 1);
}

#[test]
fn end_hands_out_what_is_left_once() {
    let mut insert = session();
    assert!(insert.write_slice(b"a").is_none());
    let chunk = insert.end().expect("one byte is left");
    assert_eq!(&chunk[..], b"a");
    assert_eq!(insert.len(), 0);
    assert!(insert.end().is_none());
    assert_eq!(insert.phase(), Phase::Open);
}

#[test]
fn end_on_an_empty_buffer_hands_out_nothing() {
    let mut insert = session();
    assert!(insert.end().is_none());
    assert_eq!(insert.len(), 0);
}

#[test]
fn end_right_after_a_chunk_hands_out_nothing() {
    let mut insert = session();
    assert!(insert.write_slice(&row(MIN_CHUNK_SIZE, 0)).is_some());
    assert!(insert.end().is_none());
}

#[test]
fn a_flush_check_cuts_at_its_threshold() {
    let mut insert = session();
    assert!(insert.write_slice(b"abc").is_none());
    assert!(insert.send_chunk_if_exceeds(4).is_none());
    assert_eq!(insert.len(), 3);
    let chunk = insert.send_chunk_if_exceeds(3).expect("three bytes are held");
    assert_eq!(&chunk[..], b"abc");
    assert_eq!(insert.len(), 0);
}

#[test]
fn a_flush_check_at_zero_hands_out_an_empty_buffer() {
    let mut insert = session();
    let chunk = insert.send_chunk_if_exceeds(0).expect("nothing is at least nothing");
    assert!(chunk.is_empty());
}

#[test]
fn a_session_ends_in_three_steps() {
    let mut insert = session();
    assert!(insert.write_slice(b"row").is_none());
    assert!(insert.end().is_some());
    assert_eq!(insert.phase(), Phase::Open);
    insert.close();
    assert_eq!(insert.phase(), Phase::Ending);
    let ended = insert.finish(Joined::Answered(Ok(())));
    assert!(matches!(ended, Ended::Returned(Ok(()))));
    assert_eq!(insert.phase(), Phase::Closed);
}

#[test]
fn the_verdict_of_the_server_is_passed_on() {
    let mut insert = session();
    insert.close();
    let refused = Error::BadResponse(String::from("Code: 60. Unknown table"));
    match insert.finish(Joined::Answered(Err(refused.clone()))) {
        Ended::Returned(Err(e)) => assert_eq!(e, refused),
        other => panic!("unexpected end: {:?}", other),
    }
}

#[test]
fn a_cancelled_wait_is_an_error_of_its_own() {
    let mut insert = session();
    insert.close();
    match insert.finish(Joined::Cancelled(String::from("task 7 was cancelled"))) {
        Ended::Returned(Err(e)) => {
            assert_eq!(e, Error::Custom(String::from("unexpected error: task 7 was cancelled")))
        },
        other => panic!("unexpected end: {:?}", other),
    }
    assert_eq!(insert.phase(), Phase::Closed);
}

#[test]
fn a_panic_stays_a_panic() {
    let mut insert = session();
    insert.close();
    assert!(matches!(insert.finish(Joined::Panicked), Ended::Panicked));
    assert_eq!(insert.phase(), Phase::Closed);
}

#[test]
fn giving_up_an_open_session_aborts_its_stream() {
    let mut insert = session();
    assert!(insert.write_slice(b"row").is_none());
    assert!(insert.abandon());
    assert_eq!(insert.phase(), Phase::Aborted);
}

#[test]
fn giving_up_after_the_last_chunk_still_aborts() {
    let mut insert = session();
    assert!(insert.write_slice(b"row").is_none());
    assert!(insert.end().is_some());
    assert!(insert.abandon());
    assert_eq!(insert.phase(), Phase::Aborted);
}

#[test]
fn giving_up_after_a_clean_close_aborts_nothing() {
    let mut insert = session();
    insert.close();
    assert!(!insert.abandon());
    assert_eq!(insert.phase(), Phase::Ending);
    let _ = insert.finish(Joined::Answered(Ok(())));
    assert!(!insert.abandon());
    assert_eq!(insert.phase(), Phase::Closed);
}

#[test]
fn an_aborted_session_stays_aborted_and_hands_out_nothing() {
    let mut insert = session();
    assert!(insert.write_slice(b"row").is_none());
    assert!(insert.abandon());
    assert!(!insert.abandon());
    assert_eq!(insert.phase(), Phase::Aborted);
    assert!(insert.send_chunk_if_exceeds(1).is_none());
    assert_eq!(insert.len(), 0);
    assert_eq!(insert.phase(), Phase::Aborted);
}

#[test]
fn the_request_of_a_session_names_database_and_statement() {
    let columns = vec![String::from("a"), String::from("b")];
    let request = session_request(&local(), "t", &columns).expect("the URL is absolute");
    assert_eq!(
        request.url,
        "http://localhost:8123/?database=db&query=INSERT+INTO+t%28a%2Cb%29+FORMAT+JSONEachRow"
    );
    assert!(request.headers.is_empty());
}

#[test]
fn the_request_of_a_session_drops_the_pairs_of_the_base() {
    let client = Client {
        url: String::from("HTTP://LocalHost:8123/path?stale=1&more=2#part"),
        database: None,
        user: Some(String::from("writer")),
        password: Some(String::from("s3cret")),
    };
    let insert = Insert::new(&client, "events", vec![String::from("at")]).expect("a session");
    assert_eq!(
        insert.request().url,
        "http://localhost:8123/path?query=INSERT+INTO+events%28at%29+FORMAT+JSONEachRow#part"
    );
    assert_eq!(
        insert.request().headers,
        vec![
            (String::from("X-ClickHouse-User"), String::from("writer")),
            (String::from("X-ClickHouse-Key"), String::from("s3cret")),
        ]
    );
    assert_eq!(insert.phase(), Phase::Open);
    assert_eq!(insert.len(), 0);
}

#[test]
fn a_session_without_columns_has_an_empty_list() {
    let request = session_request(&local(), "t", &Vec::new()).expect("the URL is absolute");
    assert_eq!(
        request.url,
        "http://localhost:8123/?database=db&query=INSERT+INTO+t%28%29+FORMAT+JSONEachRow"
    );
}

#[test]
fn a_base_that_is_no_url_is_an_invalid_parameter() {
    let client = Client { url: String::from("not a url"), database: None, user: None, password: None };
    match Insert::new(&client, "t", Vec::new()) {
        Err(Error::InvalidParams(reason)) => assert_eq!(reason, "relative URL without a base"),
        Err(other) => panic!("unexpected error: {:?}", other),
        Ok(_) => panic!("a session was opened"),
    }
    assert!(matches!(client.insert("t", Vec::new()), Err(Error::InvalidParams(_))));
}

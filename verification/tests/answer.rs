use clickr::response::{map_poll_err, rejected, Chunks, Compression, Response, STATUS_OK};
use clickr::Error;
use std::task::Poll;

fn loading() -> Chunks {
    let mut response = Response::new(Compression::default());
    assert!(response.resolve(200));
    match response {
        Response::Loading(chunks) => chunks,
        Response::Waiting(_) => panic!("the answer is still awaited"),
    }
}

fn transport(e: &'static str) -> Error {
    Error::Hyper(String::from(e))
}

type Polled = Poll<Option<Result<u8, &'static str>>>;

#[test]
fn bodies_are_not_compressed_by_default() {
    assert_eq!(Compression::default(), Compression::Off);
    assert_eq!(clickr::Compression::default(), clickr::Compression::Off);
}

#[test]
fn the_reason_of_a_refusal_is_the_body_trimmed() {
    assert_eq!(
        rejected(b" \r\n\tCode: 60. DB::Exception: Table db.t doesn't exist \n\n"),
        Error::BadResponse(String::from("Code: 60. DB::Exception: Table db.t doesn't exist"))
    );
    assert_eq!(rejected(b""), Error::BadResponse(String::new()));
    assert_eq!(rejected(b" \n "), Error::BadResponse(String::new()));
    assert_eq!(rejected(b"a  b"), Error::BadResponse(String::from("a  b")));
}

#[test]
fn what_is_no_utf8_in_a_refusal_is_replaced() {
    assert_eq!(
        rejected(b"\xff bad \xc3\xa9 \xe2\x82"),
        Error::BadResponse(String::from("\u{fffd} bad \u{e9} \u{fffd}"))
    );
    assert_eq!(
        rejected("\u{2003}M\u{fc}nchen\u{a0}".as_bytes()),
        Error::BadResponse(String::from("M\u{fc}nchen"))
    );
}

#[test]
fn status_200_is_accepted() {
    assert_eq!(STATUS_OK, 200);
    let mut response = Response::new(Compression::Off);
    assert!(matches!(response, Response::Waiting(Compression::Off)));
    assert!(response.resolve(200));
    match &response {
        Response::Loading(chunks) => assert!(!chunks.is_exhausted()),
        Response::Waiting(_) => panic!("the answer is still awaited"),
    }
}

#[test]
fn any_other_status_is_refused() {
    for status in [100u16, 199, 201, 204, 301, 404, 500, 503] {
        let mut response = Response::new(Compression::Off);
        assert!(!response.resolve(status));
        assert!(matches!(response, Response::Waiting(Compression::Off)));
    }
}

#[test]
fn an_answer_that_is_read_stays_as_it_is() {
    let mut response = Response::new(Compression::Off);
    assert!(response.resolve(200));
    if let Response::Loading(chunks) = &mut response {
        let end: Polled = Poll::Ready(None);
        assert_eq!(chunks.poll_next(end, transport), Poll::Ready(None));
    }
    assert!(response.resolve(500));
    match &response {
        Response::Loading(chunks) => assert!(chunks.is_exhausted()),
        Response::Waiting(_) => panic!("the answer is awaited again"),
    }
}

#[test]
fn pieces_waits_and_errors_are_handed_on() {
    let mut chunks = loading();
    let piece: Polled = Poll::Ready(Some(Ok(7)));
    assert_eq!(chunks.poll_next(piece, transport), Poll::Ready(Some(Ok(7))));
    let wait: Polled = Poll::Pending;
    assert_eq!(chunks.poll_next(wait, transport), Poll::Pending);
    let failure: Polled = Poll::Ready(Some(Err("reset")));
    assert_eq!(
        chunks.poll_next(failure, transport),
        Poll::Ready(Some(Err(Error::Hyper(String::from("reset")))))
    );
    assert!(!chunks.is_exhausted());
    assert_eq!(chunks.size_hint((2, Some(5))), (2, Some(5)));
    assert_eq!(chunks.size_hint((0, None)), (0, None));
}

#[test]
fn after_its_end_a_body_gives_its_end() {
    let mut chunks = loading();
    let end: Polled = Poll::Ready(None);
    assert_eq!(chunks.poll_next(end, transport), Poll::Ready(None));
    assert!(chunks.is_exhausted());
    let piece: Polled = Poll::Ready(Some(Ok(7)));
    assert_eq!(chunks.poll_next(piece, transport), Poll::Ready(None));
    let wait: Polled = Poll::Pending;
    assert_eq!(chunks.poll_next(wait, transport), Poll::Ready(None));
    assert_eq!(chunks.size_hint((2, Some(5))), (0, Some(0)));
}

#[test]
fn only_the_error_of_a_poll_is_converted() {
    let double = |e: u8| u16::from(e) * 2;
    let piece: Poll<Option<Result<&str, u8>>> = Poll::Ready(Some(Ok("piece")));
    assert_eq!(map_poll_err(piece, double), Poll::Ready(Some(Ok("piece"))));
    let failure: Poll<Option<Result<&str, u8>>> = Poll::Ready(Some(Err(200)));
    assert_eq!(map_poll_err(failure, double), Poll::Ready(Some(Err(400))));
    let end: Poll<Option<Result<&str, u8>>> = Poll::Ready(None);
    assert_eq!(map_poll_err(end, double), Poll::Ready(None));
    let wait: Poll<Option<Result<&str, u8>>> = Poll::Pending;
    assert_eq!(map_poll_err(wait, double), Poll::Pending);
}

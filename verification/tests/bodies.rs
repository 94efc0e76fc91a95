use http::HeaderMap as HeaderMap0;
use hyper_compat::body::{
    BodyError, BodyErrorKind, Frame, FramePoll, FrameStep, HyperBodyToLegacyStream, LegacyBodyToHyperBody,
    LegacyPoll, StreamStep,
};
use hyper_compat::error::ConversionError;
use hyper_compat::size_hint::SizeHint;

fn stream(poll: FramePoll<&'static str, u8>) -> StreamStep<&'static str> {
    HyperBodyToLegacyStream::<()>::poll_next(poll)
}

fn body(poll: LegacyPoll<&'static str, u8>) -> FrameStep<&'static str, u8> {
    LegacyBodyToHyperBody::<()>::poll_frame(poll).unwrap()
}

/// Reads a whole body of `http_body` 0.4 through both adapters.
fn read_through(polls: Vec<LegacyPoll<&'static str, u8>>) -> Vec<Result<&'static str, BodyError>> {
    let mut items = vec![];
    for poll in polls {
        let answer = match body(poll) {
            FrameStep::PollTrailers => continue,
            FrameStep::Frame(Ok(Frame::Data(data))) => FramePoll::Data(data),
            FrameStep::Frame(Ok(Frame::Trailers(_))) => FramePoll::NoData,
            FrameStep::Frame(Err(error)) => FramePoll::Failed(error),
            FrameStep::End => FramePoll::End,
            FrameStep::Pending => FramePoll::Pending,
        };
        if let StreamStep::Item(item) = stream(answer) {
            items.push(item);
        }
    }
    items
}

#[test]
fn adapters_hold_the_body_they_wrap() {
    assert_eq!(HyperBodyToLegacyStream::new(7).body, 7);
    assert_eq!(LegacyBodyToHyperBody::new("b").body, "b");
}

#[test]
fn a_stream_hands_on_data() {
    assert!(matches!(stream(FramePoll::Data("a")), StreamStep::Item(Ok("a"))));
}

#[test]
fn a_stream_passes_over_frames_without_data() {
    assert!(matches!(stream(FramePoll::NoData), StreamStep::PollAgain));
}

#[test]
fn a_stream_replaces_errors() {
    match stream(FramePoll::Failed(3)) {
        StreamStep::Item(Err(error)) => {
            assert_eq!(error.kind(), BodyErrorKind::Other);
            assert_eq!(error.message(), "hyper body error");
        }
        other => panic!("{:?}", other),
    }
}

#[test]
fn a_stream_ends_and_waits_with_its_body() {
    assert!(matches!(stream(FramePoll::End), StreamStep::End));
    assert!(matches!(stream(FramePoll::Pending), StreamStep::Pending));
}

#[test]
fn a_body_gives_data_frames_and_errors() {
    assert!(matches!(body(LegacyPoll::Data("a")), FrameStep::Frame(Ok(Frame::Data("a")))));
    assert!(matches!(body(LegacyPoll::Failed(9)), FrameStep::Frame(Err(9))));
    assert!(matches!(body(LegacyPoll::Pending), FrameStep::Pending));
}

#[test]
fn a_body_is_asked_for_trailers_after_its_data() {
    assert!(matches!(body(LegacyPoll::DataEnd), FrameStep::PollTrailers));
    assert!(matches!(body(LegacyPoll::NoTrailers), FrameStep::End));
}

#[test]
fn trailers_are_rebuilt() {
    let mut trailers = HeaderMap0::new();
    trailers.append("x-sum", "1".parse().unwrap());
    trailers.append("x-sum", "2".parse().unwrap());
    match body(LegacyPoll::Trailers(trailers)) {
        FrameStep::Frame(Ok(Frame::Trailers(carried))) => {
            let sums: Vec<&[u8]> =
                carried.get_all("x-sum").iter().map(|value| value.as_bytes()).collect();
            assert_eq!(carried.len(), 2);
            assert_eq!(sums, vec![b"1", b"2"]);
        }
        other => panic!("{:?}", other),
    }
}

#[test]
fn trailers_that_cannot_be_carried_are_an_error() {
    let mut trailers = HeaderMap0::new();
    trailers.append(
        http::header::HeaderName::from_bytes(b"a\"").unwrap(),
        http::header::HeaderValue::from_static("v"),
    );
    let poll: LegacyPoll<&str, u8> = LegacyPoll::Trailers(trailers);
    assert_eq!(
        LegacyBodyToHyperBody::<()>::poll_frame(poll).unwrap_err(),
        ConversionError::HeaderName
    );
}

#[test]
fn data_survives_both_adapters_in_order() {
    let mut trailers = HeaderMap0::new();
    trailers.append("x-sum", "1".parse().unwrap());
    let items = read_through(vec![
        LegacyPoll::Pending,
        LegacyPoll::Data("a"),
        LegacyPoll::Data("b"),
        LegacyPoll::Pending,
        LegacyPoll::Data(""),
        LegacyPoll::DataEnd,
        LegacyPoll::Trailers(trailers),
        LegacyPoll::NoTrailers,
    ]);
    assert_eq!(items, vec![Ok("a"), Ok("b"), Ok("")]);
}

#[test]
fn an_error_arrives_as_the_error_of_the_stream() {
    let items = read_through(vec![LegacyPoll::Data("a"), LegacyPoll::Failed(1)]);
    assert_eq!(items, vec![Ok("a"), Err(BodyError)]);
}

#[test]
fn size_hints_keep_their_bounds() {
    for (lower, upper) in [(0, None), (5, None), (5, Some(5)), (5, Some(u64::MAX)), (u64::MAX, None)] {
        let hint = LegacyBodyToHyperBody::<()>::size_hint(lower, upper);
        assert_eq!((hint.lower(), hint.upper()), (lower, upper));
    }
}

#[test]
fn bounds_are_set_one_by_one() {
    let mut hint = SizeHint::new();
    assert_eq!((hint.lower(), hint.upper()), (0, None));
    hint.set_upper(10);
    hint.set_lower(10);
    assert_eq!((hint.lower(), hint.upper()), (10, Some(10)));
}

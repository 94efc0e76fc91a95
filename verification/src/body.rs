//! Body adapters: what each makes of what polling the body below it gave.
//!
//! The adapters are driven from outside. A driver polls the wrapped body, hands
//! what came back to the adapter, and does what the adapter answers.

use http::HeaderMap as HeaderMap0;
use hyper::HeaderMap as HeaderMap1;
use vstd::prelude::*;

use crate::error::ConversionError;
use crate::fields::{fields_converted, Generation};
use crate::headers::{convert_headers_0x_to_1x, header_fields_0x, header_fields_1x};
use crate::size_hint::{bounds_ok, SizeHint};

verus! {

/// A body of hyper 1 read as a stream of bytes, for bodies of `http_body` 0.4.
#[derive(Debug)]
pub struct HyperBodyToLegacyStream<B> {
    pub body: B,
}

/// What polling a body of hyper 1 for a frame gave.
#[derive(Debug)]
pub enum FramePoll<D, E> {
    /// A frame with data.
    Data(D),
    /// A frame without data, such as one with trailers.
    NoData,
    /// The body failed.
    Failed(E),
    /// The body has ended.
    End,
    /// Nothing is there yet.
    Pending,
}

/// The kinds of I/O error that a stream of bytes can end in.
#[derive(Debug, Clone, Copy, PartialEq, Eq, Structural)]
pub enum BodyErrorKind {
    /// The kind for errors that no other kind fits.
    Other,
}

/// The error that stands for any error of the wrapped body.
#[derive(Debug, Clone, Copy, PartialEq, Eq, Structural)]
pub struct BodyError;

impl BodyError {
    /// The kind of I/O error that it is.
    pub fn kind(&self) -> (kind: BodyErrorKind)
        ensures
            kind == BodyErrorKind::Other,
    {
        BodyErrorKind::Other
    }

    /// What the error says.
    pub fn message(&self) -> (message: &'static str)
        ensures
            message@ == "hyper body error"@,
    {
        "hyper body error"
    }
}

/// What a stream does after a poll of the body it reads.
#[derive(Debug)]
pub enum StreamStep<D> {
    /// Poll the body once more before answering.
    PollAgain,
    /// Answer with an item.
    Item(Result<D, BodyError>),
    /// Answer that the stream has ended.
    End,
    /// Answer that nothing is there yet.
    Pending,
}

/// The step that a stream takes after `poll`.
pub open spec fn stream_step<D, E>(poll: FramePoll<D, E>) -> StreamStep<D> {
    match poll {
        FramePoll::Data(data) => StreamStep::Item(Ok(data)),
        FramePoll::NoData => StreamStep::PollAgain,
        FramePoll::Failed(_) => StreamStep::Item(Err(BodyError)),
        FramePoll::End => StreamStep::End,
        FramePoll::Pending => StreamStep::Pending,
    }
}

impl<B> HyperBodyToLegacyStream<B> {
    pub fn new(body: B) -> (stream: Self)
        ensures
            stream.body == body,
    {
        Self { body }
    }

    /// Decides what the stream does after `poll`: data is handed on, frames
    /// without data are passed over, and an error of the body becomes the
    /// stream's own.
    pub fn poll_next<D, E>(poll: FramePoll<D, E>) -> (step: StreamStep<D>)
        ensures
            step == stream_step(poll),
    {
        match poll {
            FramePoll::Data(data) => StreamStep::Item(Ok(data)),
            FramePoll::NoData => StreamStep::PollAgain,
            FramePoll::Failed(_) => StreamStep::Item(Err(BodyError)),
            FramePoll::End => StreamStep::End,
            FramePoll::Pending => StreamStep::Pending,
        }
    }
}

/// A body of `http_body` 0.4 read as a body of hyper 1.
#[derive(Debug)]
pub struct LegacyBodyToHyperBody<B> {
    pub body: B,
}

/// What polling a body of `http_body` 0.4 gave.
#[derive(Debug)]
pub enum LegacyPoll<D, E> {
    /// Polled for data: a chunk of it.
    Data(D),
    /// Polled for data: there is no more.
    DataEnd,
    /// Polled for trailers: there are some.
    Trailers(HeaderMap0),
    /// Polled for trailers: there are none.
    NoTrailers,
    /// Polled for either: the body failed.
    Failed(E),
    /// Polled for either: nothing is there yet.
    Pending,
}

/// A frame of a body of hyper 1.
#[derive(Debug)]
pub enum Frame<D> {
    Data(D),
    Trailers(HeaderMap1),
}

/// What a body does after a poll of the body it wraps.
#[derive(Debug)]
pub enum FrameStep<D, E> {
    /// Poll the wrapped body for trailers before answering.
    PollTrailers,
    /// Answer with a frame or with the error of the wrapped body.
    Frame(Result<Frame<D>, E>),
    /// Answer that the body has ended.
    End,
    /// Answer that nothing is there yet.
    Pending,
}

/// `step` is what a body does after `poll`; it is an error where there are
/// trailers that hyper 1 cannot carry.
pub open spec fn frame_step<D, E>(
    poll: LegacyPoll<D, E>,
    step: Result<FrameStep<D, E>, ConversionError>,
) -> bool {
    match poll {
        LegacyPoll::Data(data) => step == Ok::<FrameStep<D, E>, ConversionError>(
            FrameStep::Frame(Ok(Frame::Data(data))),
        ),
        LegacyPoll::DataEnd => step == Ok::<FrameStep<D, E>, ConversionError>(
            FrameStep::PollTrailers,
        ),
        LegacyPoll::Trailers(trailers) => match step {
            Ok(step) => {
                &&& step matches FrameStep::Frame(Ok(Frame::Trailers(carried)))
                &&& fields_converted(
                    Generation::Modern,
                    header_fields_0x(trailers),
                    Ok(header_fields_1x(carried)),
                )
            },
            Err(error) => fields_converted(
                Generation::Modern,
                header_fields_0x(trailers),
                Err(error),
            ),
        },
        LegacyPoll::NoTrailers => step == Ok::<FrameStep<D, E>, ConversionError>(FrameStep::End),
        LegacyPoll::Failed(error) => step == Ok::<FrameStep<D, E>, ConversionError>(
            FrameStep::Frame(Err(error)),
        ),
        LegacyPoll::Pending => step == Ok::<FrameStep<D, E>, ConversionError>(FrameStep::Pending),
    }
}

impl<B> LegacyBodyToHyperBody<B> {
    pub fn new(body: B) -> (adapter: Self)
        ensures
            adapter.body == body,
    {
        Self { body }
    }

    /// Decides what the body does after `poll`. A driver polls for data first,
    /// and for trailers when told to.
    pub fn poll_frame<D, E>(poll: LegacyPoll<D, E>) -> (step: Result<
        FrameStep<D, E>,
        ConversionError,
    >)
        ensures
            frame_step(poll, step),
    {
        match poll {
            LegacyPoll::Data(data) => Ok(FrameStep::Frame(Ok(Frame::Data(data)))),
            LegacyPoll::DataEnd => Ok(FrameStep::PollTrailers),
            LegacyPoll::Trailers(trailers) => match convert_headers_0x_to_1x(trailers) {
                Ok(carried) => Ok(FrameStep::Frame(Ok(Frame::Trailers(carried)))),
                Err(error) => Err(error),
            },
            LegacyPoll::NoTrailers => Ok(FrameStep::End),
            LegacyPoll::Failed(error) => Ok(FrameStep::Frame(Err(error))),
            LegacyPoll::Pending => Ok(FrameStep::Pending),
        }
    }

    /// The size hint of the body, from the bounds that the wrapped body gives.
    pub fn size_hint(lower: u64, upper: Option<u64>) -> (hint: SizeHint)
        requires
            bounds_ok(lower, upper),
        ensures
            hint.well_formed(),
            hint.lower_bound() == lower,
            hint.upper_bound() == upper,
    {
        let mut hint = SizeHint::new();
        hint.set_lower(lower);
        if let Some(upper) = upper {
            hint.set_upper(upper);
        }
        hint
    }
}

/// The data in a sequence of items of a stream.
pub open spec fn data_in_items<D>(items: Seq<Result<D, BodyError>>) -> Seq<D>
    decreases items.len(),
{
    if items.len() == 0 {
        Seq::empty()
    } else {
        match items.last() {
            Ok(data) => data_in_items(items.drop_last()).push(data),
            Err(_) => data_in_items(items.drop_last()),
        }
    }
}

/// The items that a stream answers with over a sequence of polls.
pub open spec fn stream_items<D, E>(polls: Seq<FramePoll<D, E>>) -> Seq<Result<D, BodyError>>
    decreases polls.len(),
{
    if polls.len() == 0 {
        Seq::empty()
    } else {
        match stream_step(polls.last()) {
            StreamStep::Item(item) => stream_items(polls.drop_last()).push(item),
            _ => stream_items(polls.drop_last()),
        }
    }
}

/// The data in the frames that a sequence of polls gave.
pub open spec fn data_in_frames<D, E>(polls: Seq<FramePoll<D, E>>) -> Seq<D>
    decreases polls.len(),
{
    if polls.len() == 0 {
        Seq::empty()
    } else {
        match polls.last() {
            FramePoll::Data(data) => data_in_frames(polls.drop_last()).push(data),
            _ => data_in_frames(polls.drop_last()),
        }
    }
}

/// A stream hands on all the data of the body that it reads, in order, and no
/// other data.
pub proof fn stream_keeps_data<D, E>(polls: Seq<FramePoll<D, E>>)
    ensures
        data_in_items(stream_items(polls)) == data_in_frames(polls),
    decreases polls.len(),
{
    if polls.len() > 0 {
        stream_keeps_data(polls.drop_last());
        let before = stream_items(polls.drop_last());
        match stream_step(polls.last()) {
            StreamStep::Item(item) => {
                assert(before.push(item).drop_last() == before);
            },
            _ => {},
        }
    }
}

/// A frame without data leaves no trace in what a stream answers with, wherever
/// it comes.
pub proof fn stream_passes_over_frames_without_data<D, E>(
    before: Seq<FramePoll<D, E>>,
    after: Seq<FramePoll<D, E>>,
)
    ensures
        stream_items(before.push(FramePoll::NoData) + after) == stream_items(before + after),
    decreases after.len(),
{
    let with = before.push(FramePoll::NoData) + after;
    let without = before + after;
    if after.len() == 0 {
        assert(with.drop_last() == before);
        assert(without == before);
    } else {
        stream_passes_over_frames_without_data(before, after.drop_last());
        assert(with.drop_last() == before.push(FramePoll::NoData) + after.drop_last());
        assert(without.drop_last() == before + after.drop_last());
    }
}

/// What a poll of the adapted body gives, for a step that answers it.
pub open spec fn answer<D, E>(step: FrameStep<D, E>) -> FramePoll<D, E>
    recommends
        !(step is PollTrailers),
{
    match step {
        FrameStep::Frame(Ok(Frame::Data(data))) => FramePoll::Data(data),
        FrameStep::Frame(Ok(Frame::Trailers(_))) => FramePoll::NoData,
        FrameStep::Frame(Err(error)) => FramePoll::Failed(error),
        FrameStep::End => FramePoll::End,
        _ => FramePoll::Pending,
    }
}

/// What the polls of the adapted body give, over a sequence of steps.
pub open spec fn answers<D, E>(steps: Seq<FrameStep<D, E>>) -> Seq<FramePoll<D, E>>
    decreases steps.len(),
{
    if steps.len() == 0 {
        Seq::empty()
    } else if steps.last() is PollTrailers {
        answers(steps.drop_last())
    } else {
        answers(steps.drop_last()).push(answer(steps.last()))
    }
}

/// The data that a sequence of polls of a body of `http_body` 0.4 gave.
pub open spec fn data_in_chunks<D, E>(polls: Seq<LegacyPoll<D, E>>) -> Seq<D>
    decreases polls.len(),
{
    if polls.len() == 0 {
        Seq::empty()
    } else {
        match polls.last() {
            LegacyPoll::Data(data) => data_in_chunks(polls.drop_last()).push(data),
            _ => data_in_chunks(polls.drop_last()),
        }
    }
}

/// The adapted body gives all the data of the body that it wraps, in order, and
/// no other data.
pub proof fn adapted_body_keeps_data<D, E>(
    polls: Seq<LegacyPoll<D, E>>,
    steps: Seq<FrameStep<D, E>>,
)
    requires
        polls.len() == steps.len(),
        forall|i: int| 0 <= i < polls.len() ==> frame_step(#[trigger] polls[i], Ok(steps[i])),
    ensures
        data_in_frames(answers(steps)) == data_in_chunks(polls),
    decreases polls.len(),
{
    if polls.len() > 0 {
        let front = answers(steps.drop_last());
        adapted_body_keeps_data(polls.drop_last(), steps.drop_last());
        assert(frame_step(polls.last(), Ok(steps.last())));
        assert(front.push(answer(steps.last())).drop_last() == front);
    }
}

/// A body of `http_body` 0.4 that is read through both adapters gives its data,
/// its end and its waiting as they are; its error is replaced by the error of
/// the stream, and its trailers are passed over.
pub proof fn both_adapters_in_a_row<D, E>(poll: LegacyPoll<D, E>, step: FrameStep<D, E>)
    requires
        frame_step(poll, Ok(step)),
        !(poll is DataEnd),
    ensures
        stream_step(answer(step)) == match poll {
            LegacyPoll::Data(data) => StreamStep::Item(Ok(data)),
            LegacyPoll::Trailers(_) => StreamStep::PollAgain,
            LegacyPoll::Failed(_) => StreamStep::Item(Err(BodyError)),
            LegacyPoll::NoTrailers => StreamStep::End,
            _ => StreamStep::Pending,
        },
{
}

/// The body is polled for trailers when, and only when, its data has ended; and
/// a frame with trailers comes from trailers only.
pub proof fn trailers_follow_data<D, E>(poll: LegacyPoll<D, E>, step: FrameStep<D, E>)
    requires
        frame_step(poll, Ok(step)),
    ensures
        step is PollTrailers <==> poll is DataEnd,
        step matches FrameStep::Frame(Ok(Frame::Trailers(_))) <==> poll is Trailers,
{
}

} // verus!

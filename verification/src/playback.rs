//! Whole runs of a video source: what a sequence of events leaves behind,
//! and what holds of every such run.

use crate::event::{answers, EventView, StepView};
use crate::frame::FrameView;
use crate::video::{Phase, VideoView};
use vstd::prelude::*;

verus! {

/// The source after `events`, taken in order.
pub open spec fn run(video: VideoView, events: Seq<EventView>) -> VideoView
    decreases events.len(),
{
    if events.len() == 0 {
        video
    } else {
        run(video, events.drop_last()).next(events.last())
    }
}

/// The frames that the source hands out in answer to `events`, in order.
pub open spec fn frames(video: VideoView, events: Seq<EventView>) -> Seq<FrameView>
    decreases events.len(),
{
    if events.len() == 0 {
        Seq::empty()
    } else {
        let earlier = frames(video, events.drop_last());
        match run(video, events.drop_last()).step(events.last()) {
            StepView::Frame(frame) => earlier.push(frame),
            _ => earlier,
        }
    }
}

/// The number of pictures that the decoder gives in the course of
/// `events`: the `Picture` events that come while the source awaits one.
pub open spec fn pictures(video: VideoView, events: Seq<EventView>) -> nat
    decreases events.len(),
{
    if events.len() == 0 {
        0
    } else {
        let earlier = pictures(video, events.drop_last());
        if run(video, events.drop_last()).phase is Drain && events.last() is Picture {
            earlier + 1
        } else {
            earlier
        }
    }
}

/// The number of packets of the selected stream that the container gives
/// in the course of `events`.
pub open spec fn video_packets(video: VideoView, events: Seq<EventView>) -> nat
    decreases events.len(),
{
    if events.len() == 0 {
        0
    } else {
        let earlier = video_packets(video, events.drop_last());
        if run(video, events.drop_last()).phase is Demux && events.last() == EventView::Packet(
            video.stream,
        ) {
            earlier + 1
        } else {
            earlier
        }
    }
}

/// Whether `event` comes in turn and holds nothing up: the decoder takes
/// the packet and gives a picture for it, and the conversion gives a buffer
/// that makes a frame.
pub open spec fn prompt(video: VideoView, event: EventView) -> bool {
    &&& answers(video.request(), event)
    &&& !(event is Rejected)
    &&& !(event is NotReady)
    &&& !(event is ConversionFailed)
    &&& event matches EventView::Converted(data) ==> video.frame_of(data).wf()
}

/// Whether every one of `events` is prompt when it comes.
pub open spec fn all_prompt(video: VideoView, events: Seq<EventView>) -> bool
    decreases events.len(),
{
    events.len() > 0 ==> all_prompt(video, events.drop_last()) && prompt(
        run(video, events.drop_last()),
        events.last(),
    )
}

/// Whether a packet of the selected stream is on its way to a frame.
pub open spec fn packet_under_way(phase: Phase) -> bool {
    phase is Feed || phase is Drain || phase is Convert
}

/// Whether a picture has been received that has made no frame: one whose
/// conversion is awaited, or one whose conversion went wrong.
pub open spec fn picture_outstanding(phase: Phase) -> bool {
    match phase {
        Phase::Convert => true,
        Phase::Failed(error) => error is MalformedFrame || error is ConversionFailed,
        _ => false,
    }
}

/// Throughout a run that starts with the first packet awaited, every
/// picture of the decoder has made exactly one frame, but for the one, if
/// any, that is outstanding. Dimensions and stream never change.
pub proof fn lemma_frames_follow_pictures(video: VideoView, events: Seq<EventView>)
    requires
        video.phase is Demux,
    ensures
        run(video, events).width == video.width,
        run(video, events).height == video.height,
        run(video, events).stream == video.stream,
        !(run(video, events).phase matches Phase::Failed(error) && error is UnexpectedEvent),
        !(run(video, events).phase matches Phase::Failed(error) && error is CaptureFailed),
        !(run(video, events).phase matches Phase::Failed(error) && error is NoVideoStream),
        !(run(video, events).phase matches Phase::Failed(error) && error is Undecodable),
        pictures(video, events) == frames(video, events).len() + if picture_outstanding(
            run(video, events).phase,
        ) {
            1nat
        } else {
            0nat
        },
    decreases events.len(),
{
    if events.len() > 0 {
        lemma_frames_follow_pictures(video, events.drop_last());
    }
}

/// A run that starts with the first packet awaited and reaches the end of
/// the stream has handed out as many frames as the decoder gave pictures.
pub proof fn lemma_frame_count(video: VideoView, events: Seq<EventView>)
    requires
        video.phase is Demux,
        run(video, events).phase is Ended,
    ensures
        frames(video, events).len() == pictures(video, events),
{
    lemma_frames_follow_pictures(video, events);
}

/// Where the decoder gives one picture for every packet and nothing goes
/// wrong, no packet of the selected stream is lost and none counts twice:
/// throughout a run that starts with the first packet awaited, each has
/// made exactly one frame, but for the one, if any, that is under way.
/// Packets of other streams make no frame. Such a run never fails.
pub proof fn lemma_frames_follow_packets(video: VideoView, events: Seq<EventView>)
    requires
        video.phase is Demux,
        all_prompt(video, events),
    ensures
        !(run(video, events).phase is Failed),
        run(video, events).stream == video.stream,
        video_packets(video, events) == frames(video, events).len() + if packet_under_way(
            run(video, events).phase,
        ) {
            1nat
        } else {
            0nat
        },
    decreases events.len(),
{
    if events.len() > 0 {
        lemma_frames_follow_packets(video, events.drop_last());
    }
}

/// With such a decoder, a run that starts with the first packet awaited
/// and reaches the end of the stream has handed out as many frames as the
/// container holds packets of the selected stream.
pub proof fn lemma_frame_count_is_packet_count(video: VideoView, events: Seq<EventView>)
    requires
        video.phase is Demux,
        all_prompt(video, events),
        run(video, events).phase is Ended,
    ensures
        frames(video, events).len() == video_packets(video, events),
{
    lemma_frames_follow_packets(video, events);
}

/// Every frame of a run has the dimensions of the source and a buffer of
/// exactly three bytes per pixel.
pub proof fn lemma_frames_fit(video: VideoView, events: Seq<EventView>, i: int)
    requires
        0 <= i < frames(video, events).len(),
    ensures
        frames(video, events)[i].wf(),
        frames(video, events)[i].width == video.width,
        frames(video, events)[i].height == video.height,
    decreases events.len(),
{
    if events.len() > 0 {
        lemma_same_dimensions(video, events.drop_last());
        let earlier = frames(video, events.drop_last());
        if i < earlier.len() {
            lemma_frames_fit(video, events.drop_last(), i);
        }
    }
}

/// No event changes the dimensions or the selected stream of a source.
pub proof fn lemma_same_dimensions(video: VideoView, events: Seq<EventView>)
    ensures
        run(video, events).width == video.width,
        run(video, events).height == video.height,
        run(video, events).stream == video.stream,
    decreases events.len(),
{
    if events.len() > 0 {
        lemma_same_dimensions(video, events.drop_last());
    }
}

/// A packet of another stream than the selected one is dropped: the
/// retrieval goes on, and the source awaits the next packet as before.
pub proof fn lemma_other_stream_is_skipped(video: VideoView, stream: nat)
    requires
        video.phase is Demux,
        stream != video.stream,
    ensures
        video.step(EventView::Packet(stream)) == StepView::Continue,
        video.next(EventView::Packet(stream)) == video,
{
}

/// The end of the stream is announced on exactly two occasions: when the
/// container reports that it is exhausted while a packet is awaited, and
/// when a retrieval is asked of a source that has ended before.
pub proof fn lemma_end_only_when_exhausted(video: VideoView, event: EventView)
    ensures
        video.step(event) is EndOfStream <==> (video.phase is Demux && event is Exhausted) || (
        video.phase is Ended && event is Nothing),
{
}

/// A run that starts with the first packet awaited reaches the end of the
/// stream only where the container has reported that it is exhausted.
pub proof fn lemma_ended_means_exhausted(video: VideoView, events: Seq<EventView>)
    requires
        video.phase is Demux,
        run(video, events).phase is Ended,
    ensures
        exists|i: int| 0 <= i < events.len() && #[trigger] events[i] is Exhausted,
    decreases events.len(),
{
    let earlier = events.drop_last();
    if run(video, earlier).phase is Ended {
        lemma_ended_means_exhausted(video, earlier);
        let i = choose|i: int| 0 <= i < earlier.len() && #[trigger] earlier[i] is Exhausted;
        assert(events[i] is Exhausted);
    } else {
        assert(events[events.len() - 1] is Exhausted);
    }
}

/// The end of the stream is final: the source stays ended whatever comes,
/// and hands out no frame.
pub proof fn lemma_ended_is_final(video: VideoView, events: Seq<EventView>)
    requires
        video.phase is Ended,
    ensures
        run(video, events) == video,
        frames(video, events).len() == 0,
    decreases events.len(),
{
    if events.len() > 0 {
        lemma_ended_is_final(video, events.drop_last());
    }
}

/// A failure is final: the source stays failed whatever comes, answers
/// every retrieval with the same failure, and hands out no frame.
pub proof fn lemma_failed_is_final(video: VideoView, events: Seq<EventView>)
    requires
        video.phase is Failed,
    ensures
        run(video, events) == video,
        frames(video, events).len() == 0,
        video.step(EventView::Nothing) == StepView::Failed(video.phase->Failed_0),
    decreases events.len(),
{
    if events.len() > 0 {
        lemma_failed_is_final(video, events.drop_last());
    }
}

} // verus!

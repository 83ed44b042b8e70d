//! The two loops and the queue between them, taken together: what reaches
//! the audio output of an asset that is streamed from storage.

use vstd::prelude::*;
use crate::channel::{
    delivered, lemma_reads_reproduce_writes, lemma_word_round_trip, queue_after_all, written,
    ChannelOp, END_OF_STREAM,
};
use crate::playback::{
    accept_model, boot_model, controller_inv, poll_model, Action, ControllerModel, FillOutcome,
    PlaybackState,
};
use crate::input::ButtonState;
use crate::sample::duty_of;
use crate::storage::{
    chunks_of_asset, lemma_stream_is_payload_then_end, payload, reader_at_start, stream_words,
    words_of_run,
};

verus! {

/// What a run of the consumer's loop brings about.
pub struct Playthrough {
    /// The duty values written to the output, in order.
    pub emitted: Seq<u16>,
    /// Number of refills that brought at least one byte.
    pub refills: nat,
    /// The controller when the loop has nothing left to do.
    pub end: ControllerModel,
}

/// The duty values of the given bytes, in order.
pub open spec fn duty_values(bytes: Seq<u8>) -> Seq<u16> {
    Seq::new(bytes.len(), |i: int| duty_of(bytes[i]))
}

/// The duty value that a round writes, if any.
pub open spec fn emitted_of(action: Action) -> Seq<u16> {
    match action {
        Action::Hold => Seq::empty(),
        Action::Emit(duty) => seq![duty],
        Action::EmitThenRefill(duty) => seq![duty],
    }
}

/// One, if the word ended a refill that brought at least one byte.
pub open spec fn refill_of(outcome: FillOutcome) -> nat {
    match outcome {
        FillOutcome::Pending => 0,
        FillOutcome::Filled(bytes) => if bytes > 0 {
            1
        } else {
            0
        },
    }
}

/// The consumer's loop while the pause button is left alone: a controller
/// that refills takes the next word, one that plays makes a round, and the
/// loop is over when the words have run out or playback has ended.
pub open spec fn playthrough(m: ControllerModel, words: Seq<u32>) -> Playthrough
    decreases words.len(), m.valid - m.counter,
{
    if m.filling {
        if words.len() == 0 {
            Playthrough { emitted: Seq::empty(), refills: 0, end: m }
        } else {
            let step = accept_model(m, words[0]);
            let rest = playthrough(step.0, words.drop_first());
            Playthrough {
                emitted: rest.emitted,
                refills: refill_of(step.1) + rest.refills,
                end: rest.end,
            }
        }
    } else if m.state == PlaybackState::Playing && m.counter < m.valid {
        let step = poll_model(m, false);
        let rest = playthrough(step.0, words);
        Playthrough {
            emitted: emitted_of(step.1) + rest.emitted,
            refills: rest.refills,
            end: rest.end,
        }
    } else {
        Playthrough { emitted: Seq::empty(), refills: 0, end: m }
    }
}

/// Number of windows of `len` bytes that `bytes` bytes fill, the last one
/// perhaps in part.
pub open spec fn windows_needed(bytes: int, len: int) -> int {
    (bytes + len - 1) / len
}

/// The bytes that a playing controller still reads from its window.
pub open spec fn rest_of_window(m: ControllerModel) -> Seq<u8> {
    m.window.subrange(m.counter, m.valid)
}

/// The controller once it has read the last byte of its window with the
/// pause button left alone: it refills, or is idle if the stream has ended.
pub open spec fn window_played(m: ControllerModel) -> ControllerModel {
    let button = ButtonState { pressed: false, already_down: false };
    if m.ended {
        ControllerModel { state: PlaybackState::Idle, button, counter: m.valid, ..m }
    } else {
        ControllerModel { button, counter: m.valid, filling: true, filled: 0, ..m }
    }
}

proof fn lemma_windows_needed(bytes: int, len: int)
    requires
        0 <= bytes,
        0 < len,
    ensures
        windows_needed(bytes + len, len) == 1 + windows_needed(bytes, len),
        bytes == 0 ==> windows_needed(bytes, len) == 0,
        0 < bytes <= len ==> windows_needed(bytes, len) == 1,
{
    assert((bytes + len + len - 1) / len == 1 + (bytes + len - 1) / len) by (nonlinear_arith)
        requires
            0 <= bytes,
            0 < len,
    ;
    assert(bytes == 0 ==> (bytes + len - 1) / len == 0) by (nonlinear_arith)
        requires
            0 < len,
    ;
    assert(0 < bytes <= len ==> (bytes + len - 1) / len == 1) by (nonlinear_arith)
        requires
            0 < len,
    ;
}

/// A playing controller emits what is left of its window, one byte per
/// round, and goes on as `window_played` says.
proof fn lemma_play_rest(m: ControllerModel, words: Seq<u32>)
    requires
        controller_inv(m),
        !m.filling,
        m.state == PlaybackState::Playing,
    ensures
        playthrough(m, words).emitted == duty_values(rest_of_window(m)) + playthrough(
            window_played(m),
            words,
        ).emitted,
        playthrough(m, words).refills == playthrough(window_played(m), words).refills,
        playthrough(m, words).end == playthrough(window_played(m), words).end,
        controller_inv(window_played(m)),
    decreases m.valid - m.counter,
{
    let next = poll_model(m, false).0;
    let read = m.window[m.counter];
    if m.counter + 1 < m.valid {
        // More of the window is left after this round.
        lemma_play_rest(next, words);
        assert(window_played(next) == window_played(m));
        assert(rest_of_window(m) =~= seq![read] + rest_of_window(next));
    } else {
        // This round reads the last byte.
        assert(next == window_played(m));
        assert(rest_of_window(m) =~= seq![read]);
    }
}

/// A controller that refills takes the rest of the stream, plays each
/// window as it is filled, and is idle in the end. Nothing of what the refill
/// under way has brought, and nothing of the rest of the stream, is left out.
proof fn lemma_fill_and_play(m: ControllerModel, data: Seq<u8>)
    requires
        controller_inv(m),
        m.filling,
    ensures
        ({
            let run = playthrough(m, stream_words(data) + seq![END_OF_STREAM]);
            let all = m.window.take(m.filled) + data;
            &&& run.emitted == duty_values(all)
            &&& run.refills == windows_needed(all.len() as int, m.window.len() as int)
            &&& run.end.state == PlaybackState::Idle
            &&& !run.end.filling
            &&& run.end.ended
        }),
    decreases data.len(),
{
    let len = m.window.len() as int;
    let words = stream_words(data) + seq![END_OF_STREAM];
    let all = m.window.take(m.filled) + data;
    let next = accept_model(m, words[0]).0;
    lemma_windows_needed(all.len() as int, len);
    if data.len() == 0 {
        // The stream ends here: what the refill has brought is played.
        assert(words.drop_first() =~= Seq::<u32>::empty());
        if next.state == PlaybackState::Playing {
            lemma_play_rest(next, words.drop_first());
            assert(rest_of_window(next) =~= all);
            assert(playthrough(next, words.drop_first()).emitted =~= duty_values(all));
        } else {
            assert(all =~= Seq::<u8>::empty());
            assert(duty_values(all) =~= Seq::<u16>::empty());
        }
    } else {
        let rest = data.drop_first();
        let rest_words = stream_words(rest) + seq![END_OF_STREAM];
        lemma_word_round_trip(data[0]);
        assert(words.drop_first() =~= rest_words);
        if m.filled + 1 < len {
            // The window takes more.
            assert(next.window.take(next.filled) + rest =~= all);
            lemma_fill_and_play(next, rest);
        } else {
            // The window is full: it is played, then refilled with the rest.
            let after = window_played(next);
            lemma_play_rest(next, rest_words);
            lemma_fill_and_play(after, rest);
            lemma_windows_needed(rest.len() as int, len);
            assert(rest_of_window(next) =~= next.window);
            assert(after.window.take(after.filled) + rest =~= rest);
            assert(all =~= next.window + rest);
            assert(duty_values(next.window + rest) =~= duty_values(next.window) + duty_values(
                rest,
            ));
        }
    }
}

/// A stream that is played from boot on, with the pause button left alone:
/// what is emitted are the duty values of the samples of the stream, each
/// once and in the order of the stream; the window is refilled once for each
/// window's worth of the stream; and the controller is idle in the end.
pub proof fn lemma_stream_plays(window: Seq<u8>, button_low: bool, data: Seq<u8>)
    requires
        0 < window.len() <= usize::MAX,
    ensures
        ({
            let run = playthrough(
                boot_model(window, button_low),
                stream_words(data) + seq![END_OF_STREAM],
            );
            &&& run.emitted == duty_values(data)
            &&& run.emitted.len() == data.len()
            &&& run.refills == windows_needed(data.len() as int, window.len() as int)
            &&& run.end.state == PlaybackState::Idle
            &&& !run.end.filling
            &&& run.end.ended
        }),
{
    let m = boot_model(window, button_low);
    lemma_fill_and_play(m, data);
    assert(m.window.take(m.filled) + data =~= data);
}

/// From storage to the output: when storage answers the producer's reads
/// with the chunks of an asset, and the queue has delivered every word that
/// the producer wrote, the consumer has emitted the duty value of every
/// sample of the asset, each once and in the asset's order, and has refilled
/// its window once for each window's worth of them.
pub proof fn lemma_asset_plays(
    chunks: Seq<Seq<u8>>,
    ops: Seq<ChannelOp>,
    window: Seq<u8>,
    button_low: bool,
)
    requires
        chunks_of_asset(chunks),
        queue_after_all(Seq::empty(), ops) is Some,
        written(ops) == words_of_run(reader_at_start(), chunks),
        delivered(Seq::empty(), ops).len() == written(ops).len(),
        0 < window.len() <= usize::MAX,
    ensures
        ({
            let samples = payload(chunks.flatten());
            let run = playthrough(boot_model(window, button_low), delivered(Seq::empty(), ops));
            &&& run.emitted == duty_values(samples)
            &&& run.emitted.len() == samples.len()
            &&& run.refills == windows_needed(samples.len() as int, window.len() as int)
            &&& run.end.state == PlaybackState::Idle
        }),
{
    lemma_stream_is_payload_then_end(chunks);
    lemma_reads_reproduce_writes(ops);
    lemma_stream_plays(window, button_low, payload(chunks.flatten()));
}

/// Of a stream whose samples all have one value, every duty value that is
/// emitted is the duty value of that sample.
pub proof fn lemma_constant_stream_plays(
    window: Seq<u8>,
    button_low: bool,
    data: Seq<u8>,
    value: u8,
)
    requires
        0 < window.len() <= usize::MAX,
        forall|i: int| 0 <= i < data.len() ==> data[i] == value,
    ensures
        ({
            let run = playthrough(
                boot_model(window, button_low),
                stream_words(data) + seq![END_OF_STREAM],
            );
            &&& run.emitted.len() == data.len()
            &&& forall|j: int|
                0 <= j < run.emitted.len() ==> (#[trigger] run.emitted[j]) == duty_of(value)
            &&& run.refills == windows_needed(data.len() as int, window.len() as int)
        }),
{
    lemma_stream_plays(window, button_low, data);
}

} // verus!

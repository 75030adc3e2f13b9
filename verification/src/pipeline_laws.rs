//! What holds of every run of the pipeline.

use vstd::prelude::*;
use crate::pipeline::{ActionModel, ErrorModel, EventModel, PipelineModel, Stage};
use crate::signing::TranslateErrorModel;
use crate::text::is_blank;

verus! {

/// A run: the state after the events, and the actions handed out, one per
/// event and in their order.
pub open spec fn run(p: PipelineModel, events: Seq<EventModel>) -> (
    PipelineModel,
    Seq<ActionModel>,
)
    decreases events.len(),
{
    if events.len() == 0 {
        (p, Seq::empty())
    } else {
        let first = p.step(events[0]);
        let rest = run(first.0, events.drop_first());
        (rest.0, seq![first.1] + rest.1)
    }
}

/// How many of the actions deliver a terminal event.
pub open spec fn emitted(actions: Seq<ActionModel>) -> nat
    decreases actions.len(),
{
    if actions.len() == 0 {
        0
    } else {
        (if actions[0] is Emit {
            1nat
        } else {
            0nat
        }) + emitted(actions.drop_first())
    }
}

/// One step delivers the terminal event exactly when it ends the run, and
/// a run that has ended stays so and hands out nothing more.
pub proof fn step_emits_on_ending(p: PipelineModel, e: EventModel)
    ensures
        p.stage != Stage::Done ==> (p.step(e).1 is Emit <==> p.step(e).0.stage == Stage::Done),
        p.stage == Stage::Done ==> p.step(e) == (p, ActionModel::Ignore),
{
}

/// Whatever events arrive, a run delivers the terminal event exactly once
/// if it reaches its end, and never otherwise.
pub proof fn terminal_event_once(p: PipelineModel, events: Seq<EventModel>)
    ensures
        run(p, events).1.len() == events.len(),
        p.stage == Stage::Done ==> run(p, events).0.stage == Stage::Done,
        emitted(run(p, events).1) == (if p.stage != Stage::Done && run(p, events).0.stage
            == Stage::Done {
            1nat
        } else {
            0nat
        }),
    decreases events.len(),
{
    if events.len() > 0 {
        let first = p.step(events[0]);
        let rest = run(first.0, events.drop_first());
        step_emits_on_ending(p, events[0]);
        terminal_event_once(first.0, events.drop_first());
        let actions = seq![first.1] + rest.1;
        assert(actions.drop_first() =~= rest.1);
        assert(actions[0] == first.1);
    }
}

/// The text that a run past its emptiness check holds is not blank.
pub open spec fn text_checked(p: PipelineModel) -> bool {
    (p.stage == Stage::Positioning || p.stage == Stage::Authorizing || p.stage
        == Stage::Translating) ==> !is_blank(p.captured)
}

/// From a state whose text is checked, no run asks for a translation of a
/// blank text or with an empty API key.
pub proof fn translate_needs_text_and_key(p: PipelineModel, events: Seq<EventModel>, i: int)
    requires
        text_checked(p),
        0 <= i < events.len(),
    ensures
        text_checked(run(p, events).0),
        run(p, events).1.len() == events.len(),
        run(p, events).1[i] matches ActionModel::Translate(key, _, text) ==> key.len() > 0
            && !is_blank(text),
    decreases events.len(),
{
    let first = p.step(events[0]);
    let rest = run(first.0, events.drop_first());
    let actions = seq![first.1] + rest.1;
    assert(actions[0] == first.1);
    terminal_event_once(first.0, events.drop_first());
    if events.len() > 1 {
        let j = if i == 0 {
            0
        } else {
            i - 1
        };
        translate_needs_text_and_key(first.0, events.drop_first(), j);
        if i > 0 {
            assert(actions[i] == rest.1[i - 1]);
        }
    } else {
        assert(events.drop_first().len() == 0);
    }
}

/// A run that has not begun holds no text to check.
pub proof fn idle_is_checked()
    ensures
        text_checked(PipelineModel::idle()),
{
}

/// The text of a snapshot, empty where none could be taken.
pub open spec fn snapshot_text(snapshot: Option<Seq<char>>) -> Seq<char> {
    match snapshot {
        Some(text) => text,
        None => Seq::empty(),
    }
}

/// A capture of text that is not blank, with an API key: the snapshot is
/// written back, the captured text is sent with the stored credentials,
/// and the run ends in success exactly when the translation client gives
/// a text, else in that client's failure.
pub proof fn captured_text_is_translated(
    snapshot: Option<Seq<char>>,
    text: Seq<char>,
    restored: bool,
    pointer: Option<(i32, i32)>,
    key: Seq<char>,
    id: Seq<char>,
    result: Result<Seq<char>, TranslateErrorModel>,
)
    requires
        !is_blank(text),
        key.len() > 0,
    ensures
        ({
            let s1 = PipelineModel::idle().step(EventModel::Snapshot(snapshot));
            let s2 = s1.0.step(EventModel::CopySimulated(Ok(())));
            let s3 = s2.0.step(EventModel::ClipboardRead(Ok(text)));
            let s4 = s3.0.step(EventModel::Restored(restored));
            let s5 = s4.0.step(EventModel::Pointer(pointer));
            let s6 = s5.0.step(EventModel::Credentials(key, id));
            let s7 = s6.0.step(EventModel::Translated(result));
            &&& s1.1 == ActionModel::SimulateCopy
            &&& s2.1 is ReadAfterDelay
            &&& s3.1 == ActionModel::RestoreClipboard(snapshot_text(snapshot))
            &&& s4.1 == ActionModel::QueryPointer
            &&& s5.1 is ShowSurface
            &&& s6.1 == ActionModel::Translate(key, id, text)
            &&& s7.0.stage == Stage::Done
            &&& s7.1 == ActionModel::Emit(
                match result {
                    Ok(t) => Ok(t),
                    Err(e) => Err(ErrorModel::Translation(e)),
                },
            )
            &&& (s7.1 matches ActionModel::Emit(Ok(_))) <==> result is Ok
        }),
{
}

/// A capture that is empty or white space only ends the run, once the
/// snapshot is written back, with `EmptyCapture`; from there on every
/// action is `Ignore`, so no translation is ever asked for.
pub proof fn blank_capture_fails(
    snapshot: Option<Seq<char>>,
    text: Seq<char>,
    restored: bool,
    later: EventModel,
)
    requires
        is_blank(text),
    ensures
        ({
            let s1 = PipelineModel::idle().step(EventModel::Snapshot(snapshot));
            let s2 = s1.0.step(EventModel::CopySimulated(Ok(())));
            let s3 = s2.0.step(EventModel::ClipboardRead(Ok(text)));
            let s4 = s3.0.step(EventModel::Restored(restored));
            &&& s3.1 == ActionModel::RestoreClipboard(snapshot_text(snapshot))
            &&& s4.0.stage == Stage::Done
            &&& s4.1 == ActionModel::Emit(Err(ErrorModel::EmptyCapture))
            &&& s4.0.step(later).1 == ActionModel::Ignore
        }),
{
}

/// With an empty API key the run ends with `CredentialMissing` as soon as
/// the credentials are read; from there on every action is `Ignore`, so no
/// translation is ever asked for.
pub proof fn missing_key_fails(
    snapshot: Option<Seq<char>>,
    text: Seq<char>,
    restored: bool,
    pointer: Option<(i32, i32)>,
    id: Seq<char>,
    later: EventModel,
)
    requires
        !is_blank(text),
    ensures
        ({
            let s1 = PipelineModel::idle().step(EventModel::Snapshot(snapshot));
            let s2 = s1.0.step(EventModel::CopySimulated(Ok(())));
            let s3 = s2.0.step(EventModel::ClipboardRead(Ok(text)));
            let s4 = s3.0.step(EventModel::Restored(restored));
            let s5 = s4.0.step(EventModel::Pointer(pointer));
            let s6 = s5.0.step(EventModel::Credentials(Seq::empty(), id));
            &&& s6.0.stage == Stage::Done
            &&& s6.1 == ActionModel::Emit(Err(ErrorModel::CredentialMissing))
            &&& s6.0.step(later).1 == ActionModel::Ignore
        }),
{
}

} // verus!

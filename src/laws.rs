use vstd::prelude::*;
use crate::machine::{next, overloaded, ActionView, EventView, FailureView, StageView};
use crate::passage::PassageView;
use crate::replace::{entry_passage, locate, Entry};

verus! {

/// The stage that a run reaches from `stage` on `events`, in order, and the
/// actions that it asks for on the way.
pub open spec fn run(template: Seq<u8>, stage: StageView, events: Seq<EventView>) -> (
    StageView,
    Seq<ActionView>,
)
    decreases events.len(),
{
    if events.len() == 0 {
        (stage, seq![])
    } else {
        let (s1, a) = next(template, stage, events[0]);
        let (s2, rest) = run(template, s1, events.drop_first());
        (s2, seq![a] + rest)
    }
}

/// Whether an action changes the file system or the repository.
pub open spec fn mutates(a: ActionView) -> bool {
    a is Write || a is RunCheck || a is Commit
}

/// Where no entry of the tree holds a match, the search finds nothing and the
/// run then finishes at once, with nothing written, checked or committed.
pub proof fn lemma_no_match_finishes(template: Seq<u8>, entries: Seq<Entry>, pattern: Seq<char>)
    requires
        forall|i: int| 0 <= i < entries.len() ==> #[trigger] entry_passage(entries[i], pattern) is None,
    ensures
        locate(entries, pattern) is None,
        run(template, StageView::Searching, seq![EventView::Located(locate(entries, pattern))])
            == (StageView::Done, seq![ActionView::Finish]),
    decreases entries.len(),
{
    if entries.len() > 0 {
        assert forall|i: int| 0 <= i < entries.drop_first().len() implies #[trigger] entry_passage(
            entries.drop_first()[i],
            pattern,
        ) is None by {
            assert(entry_passage(entries[i + 1], pattern) is None);
        }
        assert(entry_passage(entries[0], pattern) is None);
        lemma_no_match_finishes(template, entries.drop_first(), pattern);
    }
    let evs = seq![EventView::Located(locate(entries, pattern))];
    assert(evs.drop_first() =~= Seq::<EventView>::empty());
    assert(run(template, StageView::Done, Seq::<EventView>::empty()) == (
        StageView::Done,
        Seq::<ActionView>::empty(),
    ));
    assert(seq![ActionView::Finish] + Seq::<ActionView>::empty() =~= seq![ActionView::Finish]);
}

/// The passage found is that of the first entry, in walk order, that holds a
/// match, whatever later entries hold.
pub proof fn lemma_first_entry_wins(entries: Seq<Entry>, pattern: Seq<char>, i: int)
    requires
        0 <= i < entries.len(),
        entry_passage(entries[i], pattern) is Some,
        forall|j: int| 0 <= j < i ==> #[trigger] entry_passage(entries[j], pattern) is None,
    ensures
        locate(entries, pattern) == entry_passage(entries[i], pattern),
    decreases i,
{
    if i > 0 {
        assert(entry_passage(entries[0], pattern) is None);
        assert forall|j: int| 0 <= j < i - 1 implies #[trigger] entry_passage(
            entries.drop_first()[j],
            pattern,
        ) is None by {
            assert(entry_passage(entries[j + 1], pattern) is None);
        }
        assert(entries.drop_first()[i - 1] == entries[i]);
        lemma_first_entry_wins(entries.drop_first(), pattern, i - 1);
    }
}

/// The spliced text is the text before the span, the replacement, and the
/// text after the span: the replacement stands at the span's start.
pub proof fn lemma_splice(p: PassageView, replacement: Seq<u8>)
    requires
        p.wf(),
    ensures
        p.spliced(replacement).len() == p.text.len() - (p.end - p.start) + replacement.len(),
        p.spliced(replacement).subrange(0, p.start) == p.text.subrange(0, p.start),
        p.spliced(replacement).subrange(p.start, p.start + replacement.len()) == replacement,
        p.spliced(replacement).subrange(
            p.start + replacement.len(),
            p.spliced(replacement).len() as int,
        ) == p.text.subrange(p.end, p.text.len() as int),
{
    let s = p.spliced(replacement);
    assert(s.subrange(0, p.start) =~= p.text.subrange(0, p.start));
    assert(s.subrange(p.start, p.start + replacement.len()) =~= replacement);
    assert(s.subrange(p.start + replacement.len(), s.len() as int) =~= p.text.subrange(
        p.end,
        p.text.len() as int,
    ));
}

/// Overload failures, however many, change nothing: each asks again with the
/// same prompt, nothing is written, checked or committed, and the first answer
/// after them is spliced into the original passage.
pub proof fn lemma_overload_retries(
    template: Seq<u8>,
    passage: PassageView,
    prompt: Seq<u8>,
    failures: Seq<Seq<char>>,
    replacement: Seq<u8>,
)
    requires
        forall|k: int| 0 <= k < failures.len() ==> overloaded(true, #[trigger] failures[k]),
    ensures
        run(
            template,
            StageView::Generating { passage, prompt },
            failures.map_values(|m: Seq<char>| EventView::CompletionFailed { http: true, message: m })
                + seq![EventView::Generated(replacement)],
        ) == (
            StageView::Applying { passage },
            Seq::new(failures.len(), |k: int| ActionView::Complete(prompt)) + seq![
                ActionView::Write { path: passage.path, content: passage.spliced(replacement) },
            ],
        ),
    decreases failures.len(),
{
    let stage = StageView::Generating { passage, prompt };
    let write = ActionView::Write { path: passage.path, content: passage.spliced(replacement) };
    let evs = failures.map_values(|m: Seq<char>| EventView::CompletionFailed { http: true, message: m })
        + seq![EventView::Generated(replacement)];
    if failures.len() == 0 {
        assert(evs =~= seq![EventView::Generated(replacement)]);
        assert(evs.drop_first() =~= Seq::<EventView>::empty());
        assert(run(template, StageView::Applying { passage }, Seq::<EventView>::empty()) == (
            StageView::Applying { passage },
            Seq::<ActionView>::empty(),
        ));
        assert(Seq::new(0, |k: int| ActionView::Complete(prompt)) + seq![write] =~= seq![write]
            + Seq::<ActionView>::empty());
    } else {
        let rest = failures.drop_first();
        assert forall|k: int| 0 <= k < rest.len() implies overloaded(true, #[trigger] rest[k]) by {
            assert(overloaded(true, failures[k + 1]));
        }
        lemma_overload_retries(template, passage, prompt, rest, replacement);
        assert(evs.drop_first() =~= rest.map_values(
            |m: Seq<char>| EventView::CompletionFailed { http: true, message: m },
        ) + seq![EventView::Generated(replacement)]);
        assert(overloaded(true, failures[0]));
        assert(seq![ActionView::Complete(prompt)] + (Seq::new(
            rest.len(),
            |k: int| ActionView::Complete(prompt),
        ) + seq![write]) =~= Seq::new(failures.len(), |k: int| ActionView::Complete(prompt))
            + seq![write]);
    }
}

/// From the failed stage, every event is refused: nothing more is written,
/// checked or committed.
pub proof fn lemma_failed_is_final(template: Seq<u8>, events: Seq<EventView>)
    ensures
        run(template, StageView::Failed, events).0 == StageView::Failed,
        forall|k: int|
            0 <= k < events.len() ==> !mutates(#[trigger] run(template, StageView::Failed, events).1[k]),
        run(template, StageView::Failed, events).1.len() == events.len(),
    decreases events.len(),
{
    if events.len() > 0 {
        lemma_failed_is_final(template, events.drop_first());
        let r = run(template, StageView::Failed, events).1;
        let t = run(template, StageView::Failed, events.drop_first()).1;
        assert forall|k: int| 0 <= k < events.len() implies !mutates(#[trigger] r[k]) by {
            if k > 0 {
                assert(r[k] == t[k - 1]);
            }
        }
    }
}

/// When the check fails after the spliced text was written, the run fails
/// with the check's error and asks for nothing that would revert the file or
/// commit it, whatever events follow.
pub proof fn lemma_check_failure_stops(template: Seq<u8>, passage: PassageView, events: Seq<EventView>)
    requires
        events.len() >= 2,
        events[0] == EventView::Written,
        events[1] == EventView::CheckExited(false),
    ensures
        run(template, StageView::Applying { passage }, events).0 == StageView::Failed,
        run(template, StageView::Applying { passage }, events).1.subrange(0, 2) == seq![
            ActionView::RunCheck,
            ActionView::Fail(FailureView::CheckFailed),
        ],
        forall|k: int|
            2 <= k < events.len() ==> !mutates(
                #[trigger] run(template, StageView::Applying { passage }, events).1[k],
            ),
{
    let later = events.drop_first().drop_first();
    lemma_failed_is_final(template, later);
    let r = run(template, StageView::Applying { passage }, events).1;
    let t = run(template, StageView::Failed, later).1;
    let v = run(template, StageView::Validating { passage }, events.drop_first());
    assert(events.drop_first()[0] == EventView::CheckExited(false));
    assert(v == (StageView::Failed, seq![ActionView::Fail(FailureView::CheckFailed)] + t));
    assert(r =~= seq![ActionView::RunCheck] + (seq![ActionView::Fail(FailureView::CheckFailed)] + t));
    assert(r.subrange(0, 2) =~= seq![
        ActionView::RunCheck,
        ActionView::Fail(FailureView::CheckFailed),
    ]);
    assert forall|k: int| 2 <= k < events.len() implies !mutates(#[trigger] r[k]) by {
        assert(r[k] == t[k - 2]);
    }
}

} // verus!

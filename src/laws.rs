use vstd::prelude::*;

use crate::enforcer::{
    expects, first_match, first_match_unique, is_configuration, transition, Action, Enforcer,
    Event, Outcome, Persistence, Step, EXPECTED_DISPLAYS,
};
use crate::mode::{has_match, is_first_match, mode_matches, DisplayMode, Target};

verus! {

/// When the active displays are not exactly two, the run ends at once, and
/// an ended run takes no further answer: no configuration is ever attempted.
pub proof fn law_wrong_display_count_ends_run(t: Target, ids: Vec<u32>) -> (r: Step)
    requires
        ids@.len() != EXPECTED_DISPLAYS,
    ensures
        r == transition(Enforcer::Listing, t, Event::DisplaysListed(Ok(ids))),
        r.next == Enforcer::Finished(Outcome::WrongDisplayCount(ids@.len() as usize)),
        r.action == Action::Stop(Outcome::WrongDisplayCount(ids@.len() as usize)),
        !is_configuration(r.action),
        forall|e: Event| !expects(r.next, e),
{
    transition(Enforcer::Listing, t, Event::DisplaysListed(Ok(ids)))
}

/// When the managed display already runs at the target mode, the run ends
/// as already correct without any configuration call.
pub proof fn law_correct_mode_is_left_alone(
    t: Target,
    ids: Vec<u32>,
    index: usize,
    is_main: bool,
    m: DisplayMode,
) -> (r: (Step, Step))
    requires
        index < ids@.len(),
        mode_matches(m, t.mode),
    ensures
        r.0 == transition(
            (Enforcer::ReadingSerial { ids, index }),
            t,
            (Event::SerialRead { serial: t.serial, is_main }),
        ),
        r.0.action == (Action::ReadMode { id: ids@[index as int] }),
        r.1 == transition(r.0.next, t, Event::ModeRead(Some(m))),
        r.1.next == Enforcer::Finished(Outcome::AlreadyCorrect),
        r.1.action == Action::Stop(Outcome::AlreadyCorrect),
        forall|e: Event| !expects(r.1.next, e),
{
    let s0 = transition(
        Enforcer::ReadingSerial { ids, index },
        t,
        Event::SerialRead { serial: t.serial, is_main },
    );
    (s0, transition(s0.next, t, Event::ModeRead(Some(m))))
}

/// When the managed display runs at another mode and exactly one supported
/// mode equals the target, the run begins a transaction, applies that mode
/// and commits it permanently, in this order.
pub proof fn law_single_match_is_applied_then_committed(
    t: Target,
    ids: Vec<u32>,
    index: usize,
    current: DisplayMode,
    modes: Vec<DisplayMode>,
    k: usize,
) -> (r: (Step, Step, Step))
    requires
        index < ids@.len(),
        !mode_matches(current, t.mode),
        k < modes@.len(),
        mode_matches(modes@[k as int], t.mode),
        forall|j: int| 0 <= j < modes@.len() && j != k ==> !mode_matches(#[trigger] modes@[j], t.mode),
    ensures
        r.0 == transition(
            (Enforcer::ListingModes { ids, index, current }),
            t,
            Event::ModesListed(Some(modes)),
        ),
        r.0.action == (Action::BeginConfiguration { id: ids@[index as int] }),
        r.1 == transition(r.0.next, t, Event::ConfigurationBegun(Ok(()))),
        r.1.action == (Action::ApplyMode { id: ids@[index as int], mode_index: k }),
        r.2 == transition(r.1.next, t, Event::ModeApplied(Ok(()))),
        r.2.action == (Action::Commit {
            id: ids@[index as int],
            persistence: Persistence::Permanently,
        }),
{
    assert(is_first_match(modes@, t.mode, k as int));
    first_match_unique(modes@, t.mode, k);
    assert(has_match(modes@, t.mode));
    let s0 = transition(
        Enforcer::ListingModes { ids, index, current },
        t,
        Event::ModesListed(Some(modes)),
    );
    let s1 = transition(s0.next, t, Event::ConfigurationBegun(Ok(())));
    (s0, s1, transition(s1.next, t, Event::ModeApplied(Ok(()))))
}

/// When no supported mode equals the target, or the supported modes cannot
/// be listed, the run ends without beginning a transaction.
pub proof fn law_no_match_begins_nothing(
    t: Target,
    ids: Vec<u32>,
    index: usize,
    current: DisplayMode,
    modes: Option<Vec<DisplayMode>>,
) -> (r: Step)
    requires
        (modes is Some ==> !has_match(modes->0@, t.mode)),
    ensures
        r == transition((Enforcer::ListingModes { ids, index, current }), t, Event::ModesListed(modes)),
        !is_configuration(r.action),
        r.next is Finished,
        r.action == Action::Stop(
            if modes is Some { Outcome::NoMatchingMode } else { Outcome::ModesUnavailable },
        ),
        forall|e: Event| !expects(r.next, e),
{
    transition(Enforcer::ListingModes { ids, index, current }, t, Event::ModesListed(modes))
}

/// A display whose serial number differs from the managed one is skipped
/// whatever its mode: its mode is not even read, and the run goes on with
/// the next display or ends.
pub proof fn law_other_serial_is_skipped(
    t: Target,
    ids: Vec<u32>,
    index: usize,
    serial: u32,
    is_main: bool,
) -> (r: Step)
    requires
        index < ids@.len(),
        serial != t.serial,
    ensures
        r == transition((Enforcer::ReadingSerial { ids, index }), t, (Event::SerialRead { serial, is_main })),
        !is_configuration(r.action),
        r.action is ReadSerial || r.action == Action::Stop(Outcome::AllDisplaysVisited),
        r.next is ReadingSerial || r.next == Enforcer::Finished(Outcome::AllDisplaysVisited),
        (r.next is ReadingSerial ==> r.next->ReadingSerial_index == index + 1),
{
    assert(ids.len() == ids@.len());
    transition(Enforcer::ReadingSerial { ids, index }, t, Event::SerialRead { serial, is_main })
}

/// Once a run has applied the mode it chose, a second run that finds the
/// managed display at that mode ends as already correct: running twice does
/// nothing more than running once.
pub proof fn law_second_run_is_no_op(
    t: Target,
    ids: Vec<u32>,
    index: usize,
    current: DisplayMode,
    modes: Vec<DisplayMode>,
    is_main: bool,
) -> (r: (Step, Step, Step, Step))
    requires
        index < ids@.len(),
        !mode_matches(current, t.mode),
        has_match(modes@, t.mode),
    ensures
        r.0 == transition(
            (Enforcer::ListingModes { ids, index, current }),
            t,
            Event::ModesListed(Some(modes)),
        ),
        r.1 == transition(r.0.next, t, Event::ConfigurationBegun(Ok(()))),
        (r.1.action is ApplyMode && r.1.action->ApplyMode_mode_index < modes@.len()),
        r.2 == transition(
            (Enforcer::ReadingSerial { ids, index }),
            t,
            (Event::SerialRead { serial: t.serial, is_main }),
        ),
        r.3 == transition(
            r.2.next,
            t,
            Event::ModeRead(Some(modes@[r.1.action->ApplyMode_mode_index as int])),
        ),
        r.3.next == Enforcer::Finished(Outcome::AlreadyCorrect),
        r.3.action == Action::Stop(Outcome::AlreadyCorrect),
{
    let k = first_match(modes@, t.mode);
    let w = choose|i: int| 0 <= i < modes@.len() && mode_matches(#[trigger] modes@[i], t.mode);
    lemma_first_match_exists(modes@, t.mode, w);
    assert(modes.len() == modes@.len());
    let s0 = transition(
        Enforcer::ListingModes { ids, index, current },
        t,
        Event::ModesListed(Some(modes)),
    );
    let s1 = transition(s0.next, t, Event::ConfigurationBegun(Ok(())));
    let s2 = transition(
        Enforcer::ReadingSerial { ids, index },
        t,
        Event::SerialRead { serial: t.serial, is_main },
    );
    (s0, s1, s2, transition(s2.next, t, Event::ModeRead(Some(modes@[k]))))
}

/// A list with an acceptable mode at `w` has a first acceptable mode.
proof fn lemma_first_match_exists(modes: Seq<DisplayMode>, t: DisplayMode, w: int)
    requires
        0 <= w < modes.len(),
        mode_matches(modes[w], t),
    ensures
        is_first_match(modes, t, first_match(modes, t)),
    decreases w,
{
    if forall|j: int| 0 <= j < w ==> !mode_matches(#[trigger] modes[j], t) {
        assert(is_first_match(modes, t, w));
    } else {
        let j = choose|j: int| 0 <= j < w && !!mode_matches(#[trigger] modes[j], t);
        lemma_first_match_exists(modes, t, j);
    }
}

} // verus!

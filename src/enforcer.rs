use vstd::prelude::*;

use crate::commit_error::{kind_of_code, CommitErrorKind};
use crate::mode::{find_mode, has_match, is_first_match, mode_matches, DisplayMode, Target};

verus! {

/// How long a committed configuration lasts.
#[derive(Clone, Copy, Debug, PartialEq, Eq, Structural)]
pub enum Persistence {
    ForAppOnly,
    ForSession,
    Permanently,
}

/// Why a run ended.
#[derive(Clone, Copy, Debug, PartialEq, Eq, Structural)]
pub enum Outcome {
    /// The active displays could not be listed; holds the service's code.
    ListingFailed(i32),
    /// There were not exactly two active displays; holds how many there were.
    WrongDisplayCount(usize),
    /// The managed display already runs at the target mode.
    AlreadyCorrect,
    /// The supported modes of the managed display could not be listed.
    ModesUnavailable,
    /// No supported mode equals the target.
    NoMatchingMode,
    /// The configuration transaction could not be begun.
    BeginFailed,
    /// The mode could not be applied to the transaction.
    ApplyFailed,
    /// The transaction could not be committed.
    CommitFailed(CommitErrorKind),
    /// Every display was looked at without an early stop.
    AllDisplaysVisited,
}

/// What the caller is to do next with the display service.
#[derive(Clone, Copy, Debug, PartialEq, Eq, Structural)]
pub enum Action {
    /// List the active displays and report `Event::DisplaysListed`.
    ListDisplays,
    /// Read the serial number and the main-display flag of a display, and
    /// report `Event::SerialRead`.
    ReadSerial { id: u32 },
    /// Read the current mode of a display and report `Event::ModeRead`.
    ReadMode { id: u32 },
    /// List the supported modes of a display and report
    /// `Event::ModesListed`, keeping the list for `ApplyMode`.
    ListModes { id: u32 },
    /// Begin a configuration transaction and report
    /// `Event::ConfigurationBegun`.
    BeginConfiguration { id: u32 },
    /// Apply the supported mode at `mode_index` of the listed modes to the
    /// transaction, and report `Event::ModeApplied`.
    ApplyMode { id: u32, mode_index: usize },
    /// Commit the transaction and report `Event::Committed`.
    Commit { id: u32, persistence: Persistence },
    /// Nothing more to do.
    Stop(Outcome),
}

/// Something worth telling the user about a step.
#[derive(Clone, Copy, Debug, PartialEq, Eq, Structural)]
pub enum Notice {
    Nothing,
    /// A display other than the managed one was skipped.
    OtherDisplay { id: u32, serial: u32 },
    /// The managed display is not the main display; this is left as it is.
    NotMain,
    /// The current mode of a display could not be read; it was skipped.
    ModeUnavailable { id: u32, serial: u32 },
    /// A supported mode equal to the target was found at `mode_index`, and
    /// the display is about to be switched from `current` to it.
    Switching { mode_index: usize, current: DisplayMode },
}

/// What the display service answered to the last action.
#[derive(Debug)]
pub enum Event {
    DisplaysListed(Result<Vec<u32>, i32>),
    SerialRead { serial: u32, is_main: bool },
    ModeRead(Option<DisplayMode>),
    ModesListed(Option<Vec<DisplayMode>>),
    ConfigurationBegun(Result<(), i32>),
    ModeApplied(Result<(), i32>),
    Committed(Result<(), i32>),
}

/// Where a run stands. `ids` are the active displays, `index` the one being
/// looked at.
#[derive(Debug)]
pub enum Enforcer {
    Listing,
    ReadingSerial { ids: Vec<u32>, index: usize },
    ReadingMode { ids: Vec<u32>, index: usize, serial: u32 },
    ListingModes { ids: Vec<u32>, index: usize, current: DisplayMode },
    Beginning { ids: Vec<u32>, index: usize, mode_index: usize },
    Applying { ids: Vec<u32>, index: usize, mode_index: usize },
    Committing { ids: Vec<u32>, index: usize },
    Finished(Outcome),
}

/// The result of one step: the new state, the next action and a notice.
#[derive(Debug)]
pub struct Step {
    pub next: Enforcer,
    pub action: Action,
    pub notice: Notice,
}

/// The number of active displays the program is meant for.
pub const EXPECTED_DISPLAYS: usize = 2;

/// The actions that change the display configuration.
pub open spec fn is_configuration(a: Action) -> bool {
    ||| a is BeginConfiguration
    ||| a is ApplyMode
    ||| a is Commit
}

/// The state is well formed: the display being looked at exists.
pub open spec fn wf(s: Enforcer) -> bool {
    match s {
        Enforcer::ReadingSerial { ids, index } => index < ids@.len(),
        Enforcer::ReadingMode { ids, index, .. } => index < ids@.len(),
        Enforcer::ListingModes { ids, index, .. } => index < ids@.len(),
        Enforcer::Beginning { ids, index, .. } => index < ids@.len(),
        Enforcer::Applying { ids, index, .. } => index < ids@.len(),
        Enforcer::Committing { ids, index } => index < ids@.len(),
        _ => true,
    }
}

/// The event is the answer to the action that the state asked for.
pub open spec fn expects(s: Enforcer, e: Event) -> bool {
    match s {
        Enforcer::Listing => e is DisplaysListed,
        Enforcer::ReadingSerial { .. } => e is SerialRead,
        Enforcer::ReadingMode { .. } => e is ModeRead,
        Enforcer::ListingModes { .. } => e is ModesListed,
        Enforcer::Beginning { .. } => e is ConfigurationBegun,
        Enforcer::Applying { .. } => e is ModeApplied,
        Enforcer::Committing { .. } => e is Committed,
        Enforcer::Finished(_) => false,
    }
}

/// Go on with the display after `index`, or stop when there is none.
pub open spec fn advance(ids: Vec<u32>, index: usize, notice: Notice) -> Step {
    if index + 1 < ids@.len() {
        Step {
            next: Enforcer::ReadingSerial { ids, index: (index + 1) as usize },
            action: Action::ReadSerial { id: ids@[index + 1] },
            notice,
        }
    } else {
        stop(Outcome::AllDisplaysVisited, notice)
    }
}

/// End the run with `o`.
pub open spec fn stop(o: Outcome, notice: Notice) -> Step {
    Step { next: Enforcer::Finished(o), action: Action::Stop(o), notice }
}

/// The position of the first supported mode equal to the target.
pub open spec fn first_match(modes: Seq<DisplayMode>, t: DisplayMode) -> int {
    choose|i: int| is_first_match(modes, t, i)
}

/// One step of a run: the state that follows `s` when the display service
/// answers `e`, with the next action.
pub open spec fn transition(s: Enforcer, t: Target, e: Event) -> Step {
    match s {
        Enforcer::Listing => match e {
            Event::DisplaysListed(Err(code)) => stop(Outcome::ListingFailed(code), Notice::Nothing),
            Event::DisplaysListed(Ok(ids)) => if ids@.len() != EXPECTED_DISPLAYS {
                stop(Outcome::WrongDisplayCount(ids@.len() as usize), Notice::Nothing)
            } else {
                Step {
                    next: Enforcer::ReadingSerial { ids, index: 0 },
                    action: Action::ReadSerial { id: ids@[0] },
                    notice: Notice::Nothing,
                }
            },
            _ => arbitrary(),
        },
        Enforcer::ReadingSerial { ids, index } => match e {
            Event::SerialRead { serial, is_main } => if serial != t.serial {
                advance(ids, index, Notice::OtherDisplay { id: ids@[index as int], serial })
            } else {
                Step {
                    next: Enforcer::ReadingMode { ids, index, serial },
                    action: Action::ReadMode { id: ids@[index as int] },
                    notice: if is_main { Notice::Nothing } else { Notice::NotMain },
                }
            },
            _ => arbitrary(),
        },
        Enforcer::ReadingMode { ids, index, serial } => match e {
            Event::ModeRead(None) => advance(
                ids,
                index,
                Notice::ModeUnavailable { id: ids@[index as int], serial },
            ),
            Event::ModeRead(Some(m)) => if mode_matches(m, t.mode) {
                stop(Outcome::AlreadyCorrect, Notice::Nothing)
            } else {
                Step {
                    next: Enforcer::ListingModes { ids, index, current: m },
                    action: Action::ListModes { id: ids@[index as int] },
                    notice: Notice::Nothing,
                }
            },
            _ => arbitrary(),
        },
        Enforcer::ListingModes { ids, index, current } => match e {
            Event::ModesListed(None) => stop(Outcome::ModesUnavailable, Notice::Nothing),
            Event::ModesListed(Some(modes)) => if !has_match(modes@, t.mode) {
                stop(Outcome::NoMatchingMode, Notice::Nothing)
            } else {
                let k = first_match(modes@, t.mode) as usize;
                Step {
                    next: Enforcer::Beginning { ids, index, mode_index: k },
                    action: Action::BeginConfiguration { id: ids@[index as int] },
                    notice: Notice::Switching { mode_index: k, current },
                }
            },
            _ => arbitrary(),
        },
        Enforcer::Beginning { ids, index, mode_index } => match e {
            Event::ConfigurationBegun(Err(_)) => stop(Outcome::BeginFailed, Notice::Nothing),
            Event::ConfigurationBegun(Ok(())) => Step {
                next: Enforcer::Applying { ids, index, mode_index },
                action: Action::ApplyMode { id: ids@[index as int], mode_index },
                notice: Notice::Nothing,
            },
            _ => arbitrary(),
        },
        Enforcer::Applying { ids, index, mode_index } => match e {
            Event::ModeApplied(Err(_)) => stop(Outcome::ApplyFailed, Notice::Nothing),
            Event::ModeApplied(Ok(())) => Step {
                next: Enforcer::Committing { ids, index },
                action: Action::Commit { id: ids@[index as int], persistence: Persistence::Permanently },
                notice: Notice::Nothing,
            },
            _ => arbitrary(),
        },
        Enforcer::Committing { ids, index } => match e {
            Event::Committed(Err(code)) => stop(
                Outcome::CommitFailed(kind_of_code(code)),
                Notice::Nothing,
            ),
            Event::Committed(Ok(())) => advance(ids, index, Notice::Nothing),
            _ => arbitrary(),
        },
        Enforcer::Finished(_) => arbitrary(),
    }
}

/// Moves on to the display after `index`, or ends the run after the last.
fn advance_exec(ids: Vec<u32>, index: usize, notice: Notice) -> (r: Step)
    requires
        index < ids@.len(),
    ensures
        r == advance(ids, index, notice),
{
    if ids.len() - index > 1 {
        let id = ids[index + 1];
        Step { next: Enforcer::ReadingSerial { ids, index: index + 1 }, action: Action::ReadSerial { id }, notice }
    } else {
        stop_exec(Outcome::AllDisplaysVisited, notice)
    }
}

/// Ends the run with `o`.
fn stop_exec(o: Outcome, notice: Notice) -> (r: Step)
    ensures
        r == stop(o, notice),
{
    Step { next: Enforcer::Finished(o), action: Action::Stop(o), notice }
}

impl Enforcer {
    /// Starts a run: the first action lists the active displays.
    pub fn start() -> (r: Step)
        ensures
            r.next is Listing,
            wf(r.next),
            r.action == Action::ListDisplays,
            r.notice == Notice::Nothing,
    {
        Step { next: Enforcer::Listing, action: Action::ListDisplays, notice: Notice::Nothing }
    }

    /// Whether the run has ended.
    pub fn is_finished(&self) -> (r: bool)
        ensures
            r == (*self is Finished),
    {
        match self {
            Enforcer::Finished(_) => true,
            _ => false,
        }
    }

    /// Whether `e` answers the action this state asked for.
    pub fn accepts(&self, e: &Event) -> (r: bool)
        ensures
            r == expects(*self, *e),
    {
        match (self, e) {
            (Enforcer::Listing, Event::DisplaysListed(_)) => true,
            (Enforcer::ReadingSerial { .. }, Event::SerialRead { .. }) => true,
            (Enforcer::ReadingMode { .. }, Event::ModeRead(_)) => true,
            (Enforcer::ListingModes { .. }, Event::ModesListed(_)) => true,
            (Enforcer::Beginning { .. }, Event::ConfigurationBegun(_)) => true,
            (Enforcer::Applying { .. }, Event::ModeApplied(_)) => true,
            (Enforcer::Committing { .. }, Event::Committed(_)) => true,
            _ => false,
        }
    }

    /// Takes the display service's answer to the last action and decides
    /// what comes next.
    pub fn step(self, t: &Target, e: Event) -> (r: Step)
        requires
            wf(self),
            expects(self, e),
        ensures
            r == transition(self, *t, e),
            wf(r.next),
    {
        match self {
            Enforcer::Listing => match e {
                Event::DisplaysListed(Err(code)) => stop_exec(Outcome::ListingFailed(code), Notice::Nothing),
                Event::DisplaysListed(Ok(ids)) => {
                    if ids.len() != EXPECTED_DISPLAYS {
                        stop_exec(Outcome::WrongDisplayCount(ids.len()), Notice::Nothing)
                    } else {
                        let id = ids[0];
                        Step {
                            next: Enforcer::ReadingSerial { ids, index: 0 },
                            action: Action::ReadSerial { id },
                            notice: Notice::Nothing,
                        }
                    }
                },
                _ => unreached(),
            },
            Enforcer::ReadingSerial { ids, index } => match e {
                Event::SerialRead { serial, is_main } => {
                    let id = ids[index];
                    if serial != t.serial {
                        advance_exec(ids, index, Notice::OtherDisplay { id, serial })
                    } else {
                        Step {
                            next: Enforcer::ReadingMode { ids, index, serial },
                            action: Action::ReadMode { id },
                            notice: if is_main { Notice::Nothing } else { Notice::NotMain },
                        }
                    }
                },
                _ => unreached(),
            },
            Enforcer::ReadingMode { ids, index, serial } => match e {
                Event::ModeRead(None) => {
                    let id = ids[index];
                    advance_exec(ids, index, Notice::ModeUnavailable { id, serial })
                },
                Event::ModeRead(Some(m)) => {
                    if m.matches(&t.mode) {
                        stop_exec(Outcome::AlreadyCorrect, Notice::Nothing)
                    } else {
                        let id = ids[index];
                        Step {
                            next: Enforcer::ListingModes { ids, index, current: m },
                            action: Action::ListModes { id },
                            notice: Notice::Nothing,
                        }
                    }
                },
                _ => unreached(),
            },
            Enforcer::ListingModes { ids, index, current } => match e {
                Event::ModesListed(None) => stop_exec(Outcome::ModesUnavailable, Notice::Nothing),
                Event::ModesListed(Some(modes)) => match find_mode(&modes, &t.mode) {
                    None => stop_exec(Outcome::NoMatchingMode, Notice::Nothing),
                    Some(k) => {
                        proof {
                            first_match_unique(modes@, t.mode, k);
                        }
                        let id = ids[index];
                        Step {
                            next: Enforcer::Beginning { ids, index, mode_index: k },
                            action: Action::BeginConfiguration { id },
                            notice: Notice::Switching { mode_index: k, current },
                        }
                    },
                },
                _ => unreached(),
            },
            Enforcer::Beginning { ids, index, mode_index } => match e {
                Event::ConfigurationBegun(Err(_)) => stop_exec(Outcome::BeginFailed, Notice::Nothing),
                Event::ConfigurationBegun(Ok(())) => {
                    let id = ids[index];
                    Step {
                        next: Enforcer::Applying { ids, index, mode_index },
                        action: Action::ApplyMode { id, mode_index },
                        notice: Notice::Nothing,
                    }
                },
                _ => unreached(),
            },
            Enforcer::Applying { ids, index, mode_index } => match e {
                Event::ModeApplied(Err(_)) => stop_exec(Outcome::ApplyFailed, Notice::Nothing),
                Event::ModeApplied(Ok(())) => {
                    let id = ids[index];
                    Step {
                        next: Enforcer::Committing { ids, index },
                        action: Action::Commit { id, persistence: Persistence::Permanently },
                        notice: Notice::Nothing,
                    }
                },
                _ => unreached(),
            },
            Enforcer::Committing { ids, index } => match e {
                Event::Committed(Err(code)) => stop_exec(
                    Outcome::CommitFailed(CommitErrorKind::from_code(code)),
                    Notice::Nothing,
                ),
                Event::Committed(Ok(())) => advance_exec(ids, index, Notice::Nothing),
                _ => unreached(),
            },
            Enforcer::Finished(_) => unreached(),
        }
    }
}

/// Only one position of a list is the first acceptable one.
pub proof fn first_match_unique(modes: Seq<DisplayMode>, t: DisplayMode, k: usize)
    requires
        is_first_match(modes, t, k as int),
    ensures
        first_match(modes, t) == k,
{
    let c = first_match(modes, t);
    assert(is_first_match(modes, t, c));
    if c < k {
        assert(!mode_matches(modes[c], t));
    } else if k < c {
        assert(!mode_matches(modes[k as int], t));
    }
}

} // verus!

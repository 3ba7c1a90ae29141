use display_mode::commit_error::{describe_error_code, CommitErrorKind};
use display_mode::enforcer::{Action, Enforcer, Event, Notice, Outcome, Persistence};
use display_mode::mode::{find_mode, DisplayMode, Target, HOME_SERIAL, REFRESH_60_HZ_BITS};

struct FakeDisplay {
    id: u32,
    serial: u32,
    is_main: bool,
    mode: Option<DisplayMode>,
    modes: Option<Vec<DisplayMode>>,
}

struct FakeService {
    listing: Result<Vec<u32>, i32>,
    displays: Vec<FakeDisplay>,
    begin: Result<(), i32>,
    apply: Result<(), i32>,
    commit: Result<(), i32>,
}

fn mode(width: u64, height: u64, bit_depth: usize, hz: f64) -> DisplayMode {
    DisplayMode::new(width, height, bit_depth, hz.to_bits())
}

fn full_hd() -> DisplayMode {
    mode(1920, 1080, 32, 60.0)
}

fn display(service: &FakeService, id: u32) -> &FakeDisplay {
    service.displays.iter().find(|d| d.id == id).unwrap()
}

/// Runs the machine against the fake service, applying configurations to it,
/// and returns every action and notice in order.
fn run(service: &mut FakeService) -> (Vec<Action>, Vec<Notice>) {
    let target = Target::home();
    let mut actions = Vec::new();
    let mut notices = Vec::new();
    let first = Enforcer::start();
    let mut state = first.next;
    let mut action = first.action;
    let mut pending: Option<DisplayMode> = None;
    loop {
        actions.push(action);
        let event = match action {
            Action::ListDisplays => Event::DisplaysListed(service.listing.clone()),
            Action::ReadSerial { id } => {
                let d = display(service, id);
                Event::SerialRead { serial: d.serial, is_main: d.is_main }
            }
            Action::ReadMode { id } => Event::ModeRead(display(service, id).mode),
            Action::ListModes { id } => Event::ModesListed(display(service, id).modes.clone()),
            Action::BeginConfiguration { .. } => Event::ConfigurationBegun(service.begin),
            Action::ApplyMode { id, mode_index } => {
                pending = Some(display(service, id).modes.as_ref().unwrap()[mode_index]);
                Event::ModeApplied(service.apply)
            }
            Action::Commit { id, .. } => {
                if service.commit.is_ok() {
                    let m = pending.take();
                    service.displays.iter_mut().find(|d| d.id == id).unwrap().mode = m;
                }
                Event::Committed(service.commit)
            }
            Action::Stop(_) => break,
        };
        assert!(state.accepts(&event));
        let step = state.step(&target, event);
        notices.push(step.notice);
        state = step.next;
        action = step.action;
    }
    assert!(state.is_finished());
    (actions, notices)
}

fn is_configuration(a: &Action) -> bool {
    matches!(
        a,
        Action::BeginConfiguration { .. } | Action::ApplyMode { .. } | Action::Commit { .. }
    )
}

fn two_displays(b_mode: DisplayMode, b_modes: Vec<DisplayMode>) -> FakeService {
    FakeService {
        listing: Ok(vec![7, 9]),
        displays: vec![
            FakeDisplay {
                id: 7,
                serial: 111,
                is_main: false,
                mode: Some(mode(1280, 800, 32, 60.0)),
                modes: Some(vec![full_hd()]),
            },
            FakeDisplay {
                id: 9,
                serial: HOME_SERIAL,
                is_main: true,
                mode: Some(b_mode),
                modes: Some(b_modes),
            },
        ],
        begin: Ok(()),
        apply: Ok(()),
        commit: Ok(()),
    }
}

#[test]
fn home_target_is_full_hd_at_sixty_hertz() {
    let t = Target::home();
    assert_eq!(t.serial, 959853388);
    assert_eq!(t.mode, full_hd());
    assert_eq!(REFRESH_60_HZ_BITS, 60.0f64.to_bits());
}

#[test]
fn matches_needs_all_four_fields() {
    let t = full_hd();
    assert!(full_hd().matches(&t));
    assert!(!mode(1920, 1080, 32, 59.94).matches(&t));
    assert!(!mode(1920, 1080, 16, 60.0).matches(&t));
    assert!(!mode(1920, 1200, 32, 60.0).matches(&t));
    assert!(!mode(2560, 1080, 32, 60.0).matches(&t));
}

#[test]
fn find_mode_takes_the_first_match() {
    let modes = vec![mode(1280, 800, 32, 60.0), full_hd(), mode(800, 600, 8, 60.0), full_hd()];
    assert_eq!(find_mode(&modes, &full_hd()), Some(1));
    assert_eq!(find_mode(&vec![], &full_hd()), None);
    assert_eq!(find_mode(&vec![mode(1920, 1080, 32, 30.0)], &full_hd()), None);
}

#[test]
fn example_other_display_skipped_home_display_reconfigured() {
    let mut service = two_displays(mode(1280, 800, 32, 60.0), vec![mode(1280, 800, 32, 60.0), full_hd()]);
    let (actions, notices) = run(&mut service);
    assert_eq!(
        actions,
        vec![
            Action::ListDisplays,
            Action::ReadSerial { id: 7 },
            Action::ReadSerial { id: 9 },
            Action::ReadMode { id: 9 },
            Action::ListModes { id: 9 },
            Action::BeginConfiguration { id: 9 },
            Action::ApplyMode { id: 9, mode_index: 1 },
            Action::Commit { id: 9, persistence: Persistence::Permanently },
            Action::Stop(Outcome::AllDisplaysVisited),
        ]
    );
    assert_eq!(notices[1], Notice::OtherDisplay { id: 7, serial: 111 });
    assert_eq!(notices[4], Notice::Switching { mode_index: 1, current: mode(1280, 800, 32, 60.0) });
    assert_eq!(display(&service, 9).mode, Some(full_hd()));
    assert_eq!(display(&service, 7).mode, Some(mode(1280, 800, 32, 60.0)));
}

#[test]
fn wrong_display_count_configures_nothing() {
    for ids in [vec![], vec![9], vec![7, 9, 11]] {
        let n = ids.len();
        let mut service = two_displays(mode(1280, 800, 32, 60.0), vec![full_hd()]);
        service.listing = Ok(ids);
        let (actions, _) = run(&mut service);
        assert_eq!(actions, vec![Action::ListDisplays, Action::Stop(Outcome::WrongDisplayCount(n))]);
    }
}

#[test]
fn listing_failure_ends_run() {
    let mut service = two_displays(full_hd(), vec![full_hd()]);
    service.listing = Err(1001);
    let (actions, _) = run(&mut service);
    assert_eq!(actions, vec![Action::ListDisplays, Action::Stop(Outcome::ListingFailed(1001))]);
}

#[test]
fn correct_mode_needs_no_configuration() {
    let mut service = two_displays(full_hd(), vec![full_hd()]);
    let (actions, _) = run(&mut service);
    assert_eq!(actions.last(), Some(&Action::Stop(Outcome::AlreadyCorrect)));
    assert!(!actions.iter().any(is_configuration));
}

#[test]
fn no_matching_mode_begins_nothing() {
    let mut service = two_displays(mode(1280, 800, 32, 60.0), vec![mode(1920, 1080, 32, 59.0)]);
    let (actions, _) = run(&mut service);
    assert_eq!(actions.last(), Some(&Action::Stop(Outcome::NoMatchingMode)));
    assert!(!actions.iter().any(is_configuration));
}

#[test]
fn unavailable_mode_list_begins_nothing() {
    let mut service = two_displays(mode(1280, 800, 32, 60.0), vec![]);
    service.displays[1].modes = None;
    let (actions, _) = run(&mut service);
    assert_eq!(actions.last(), Some(&Action::Stop(Outcome::ModesUnavailable)));
    assert!(!actions.iter().any(is_configuration));
}

#[test]
fn other_serial_never_reconfigured() {
    let mut service = two_displays(full_hd(), vec![full_hd()]);
    service.displays[1].serial = HOME_SERIAL + 1;
    let (actions, notices) = run(&mut service);
    assert_eq!(
        actions,
        vec![
            Action::ListDisplays,
            Action::ReadSerial { id: 7 },
            Action::ReadSerial { id: 9 },
            Action::Stop(Outcome::AllDisplaysVisited),
        ]
    );
    assert_eq!(notices[2], Notice::OtherDisplay { id: 9, serial: HOME_SERIAL + 1 });
}

#[test]
fn second_run_is_a_no_op() {
    let mut service = two_displays(mode(1024, 768, 32, 75.0), vec![full_hd()]);
    let (first, _) = run(&mut service);
    assert_eq!(first.last(), Some(&Action::Stop(Outcome::AllDisplaysVisited)));
    let (second, _) = run(&mut service);
    assert_eq!(second.last(), Some(&Action::Stop(Outcome::AlreadyCorrect)));
    assert!(!second.iter().any(is_configuration));
}

#[test]
fn home_display_not_main_gets_a_warning() {
    let mut service = two_displays(full_hd(), vec![full_hd()]);
    service.displays[1].is_main = false;
    let (actions, notices) = run(&mut service);
    assert_eq!(notices[2], Notice::NotMain);
    assert_eq!(actions.last(), Some(&Action::Stop(Outcome::AlreadyCorrect)));
}

#[test]
fn unreadable_mode_skips_display() {
    let mut service = two_displays(full_hd(), vec![full_hd()]);
    service.displays[1].mode = None;
    let (actions, notices) = run(&mut service);
    assert_eq!(actions.last(), Some(&Action::Stop(Outcome::AllDisplaysVisited)));
    assert_eq!(notices[3], Notice::ModeUnavailable { id: 9, serial: HOME_SERIAL });
}

#[test]
fn transaction_failures_stop_the_run() {
    let mut service = two_displays(mode(1280, 800, 32, 60.0), vec![full_hd()]);
    service.begin = Err(1000);
    assert_eq!(run(&mut service).0.last(), Some(&Action::Stop(Outcome::BeginFailed)));

    let mut service = two_displays(mode(1280, 800, 32, 60.0), vec![full_hd()]);
    service.apply = Err(1000);
    assert_eq!(run(&mut service).0.last(), Some(&Action::Stop(Outcome::ApplyFailed)));

    let mut service = two_displays(mode(1280, 800, 32, 60.0), vec![full_hd()]);
    service.commit = Err(1004);
    assert_eq!(
        run(&mut service).0.last(),
        Some(&Action::Stop(Outcome::CommitFailed(CommitErrorKind::CannotComplete)))
    );
}

#[test]
fn error_codes_decode_by_table() {
    let table = [
        (1000, CommitErrorKind::Failure),
        (1001, CommitErrorKind::IllegalArgument),
        (1002, CommitErrorKind::InvalidConnection),
        (1003, CommitErrorKind::InvalidContext),
        (1004, CommitErrorKind::CannotComplete),
        (1006, CommitErrorKind::NotImplemented),
        (1007, CommitErrorKind::RangeCheck),
        (1008, CommitErrorKind::TypeCheck),
        (1010, CommitErrorKind::InvalidOperation),
        (1011, CommitErrorKind::NoneAvailable),
        (1005, CommitErrorKind::Unknown),
        (0, CommitErrorKind::Unknown),
        (-1, CommitErrorKind::Unknown),
    ];
    for (code, kind) in table {
        assert_eq!(CommitErrorKind::from_code(code), kind);
    }
}

#[test]
fn error_codes_have_messages() {
    assert_eq!(
        describe_error_code(1002),
        "The parameter representing a connection to the window server is invalid."
    );
    assert_eq!(describe_error_code(42), "Unknown error");
    assert!(describe_error_code(1000).starts_with("A general failure occurred."));
}

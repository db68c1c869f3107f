//! End-to-end runs of the boot orchestrator against a simulated firmware.

use boot_shim::device_path::{build_boot_path, boot_image_path, PathNode};
use boot_shim::flow::{Action, BootFlow, Event, Outcome, STALL_MICROSECONDS};
use boot_shim::types::{DisplayPowerState, FwError, Handle, MilestoneId, ProtocolId};

struct SimVolume {
    handle_id: u64,
    descriptor_nodes: usize,
    path_opens: bool,
    fs_opens: bool,
    volume_opens: bool,
    has_boot_file: bool,
}

struct Sim {
    init_ok: bool,
    display_handle_ids: Vec<u64>,
    retrieve_status_ok: bool,
    retrieve_interface: Option<u64>,
    get_state_ok: bool,
    all_handles_result: Result<Vec<u64>, u64>,
    connect_ok: bool,
    create_ok: bool,
    signal_ok: bool,
    volumes: Vec<SimVolume>,
    load_ok: bool,
    start_returns: bool,
}

fn good_volume(handle_id: u64) -> SimVolume {
    SimVolume {
        handle_id,
        descriptor_nodes: 4,
        path_opens: true,
        fs_opens: true,
        volume_opens: true,
        has_boot_file: true,
    }
}

fn base_sim() -> Sim {
    Sim {
        init_ok: true,
        display_handle_ids: Vec::new(),
        retrieve_status_ok: true,
        retrieve_interface: Some(0xD15B),
        get_state_ok: true,
        all_handles_result: Ok(vec![1, 2]),
        connect_ok: true,
        create_ok: true,
        signal_ok: true,
        volumes: vec![good_volume(100)],
        load_ok: true,
        start_returns: false,
    }
}

fn make_nodes(n: usize) -> Vec<PathNode> {
    (0..n)
        .map(|i| PathNode::Device { node_type: 2, sub_type: i as u8, data: vec![i as u8, 9] })
        .collect()
}

fn vol<'a>(sim: &'a Sim, id: u64) -> &'a SimVolume {
    sim.volumes.iter().find(|v| v.handle_id == id).expect("probe of an unknown handle")
}

fn unit_result(ok: bool, code: u64) -> Result<(), FwError> {
    if ok {
        Ok(())
    } else {
        Err(FwError { code })
    }
}

/// Drive the machine against the simulated firmware until it halts or
/// transfers control into the started image. Returns the full action trace,
/// the halt outcome (`None` when control was transferred away), and the
/// final content of the interface slot.
fn drive(sim: &Sim) -> (Vec<Action>, Option<Outcome>, Option<u64>) {
    let (mut m, mut action) = BootFlow::boot();
    let mut log: Vec<Action> = Vec::new();
    let mut next_event_id: u64 = 9000;
    loop {
        let response: Option<Event> = match &action {
            Action::InitializeHelpers => Some(Event::Completed(unit_result(sim.init_ok, 10))),
            Action::LocateHandles(ProtocolId::DisplayPower) => Some(Event::Handles(Ok(
                sim.display_handle_ids.iter().map(|id| Handle { id: *id }).collect(),
            ))),
            Action::LocateHandles(ProtocolId::SimpleFileSystem) => Some(Event::Handles(Ok(
                sim.volumes.iter().map(|v| Handle { id: v.handle_id }).collect(),
            ))),
            Action::LocateAllHandles => Some(Event::Handles(match &sim.all_handles_result {
                Ok(ids) => Ok(ids.iter().map(|id| Handle { id: *id }).collect()),
                Err(code) => Err(FwError { code: *code }),
            })),
            Action::RetrieveRawInterface(_) => Some(Event::RawInterface {
                status_ok: sim.retrieve_status_ok,
                interface: sim.retrieve_interface,
            }),
            Action::PublishInterface(_) => Some(Event::Completed(Ok(()))),
            Action::GetDisplayState => Some(Event::StateRead(if sim.get_state_ok {
                Ok(DisplayPowerState::Off)
            } else {
                Err(FwError { code: 30 })
            })),
            Action::SetDisplayState(_) => Some(Event::Completed(Ok(()))),
            Action::RegisterExitHook => Some(Event::Completed(Ok(()))),
            Action::CreateMilestoneEvent(_) => Some(Event::EventCreated(if sim.create_ok {
                next_event_id += 1;
                Ok(Handle { id: next_event_id })
            } else {
                Err(FwError { code: 40 })
            })),
            Action::SignalEvent(_) => Some(Event::Completed(unit_result(sim.signal_ok, 41))),
            Action::CloseEvent(_) => Some(Event::Completed(Ok(()))),
            Action::ConnectController(_) => Some(Event::Completed(unit_result(sim.connect_ok, 50))),
            Action::OpenDevicePath(h) => {
                let v = vol(sim, h.id);
                Some(Event::PathOpened(if v.path_opens {
                    Ok(make_nodes(v.descriptor_nodes))
                } else {
                    Err(FwError { code: 60 })
                }))
            }
            Action::OpenFileSystem(h) => Some(Event::Completed(unit_result(vol(sim, h.id).fs_opens, 61))),
            Action::OpenVolume(h) => Some(Event::Completed(unit_result(vol(sim, h.id).volume_opens, 62))),
            Action::OpenBootFile(h) => Some(Event::Completed(unit_result(vol(sim, h.id).has_boot_file, 63))),
            Action::LoadImage(_) => Some(Event::ImageLoaded(if sim.load_ok {
                Ok(Handle { id: 777 })
            } else {
                Err(FwError { code: 70 })
            })),
            Action::StartImage(_) => {
                if sim.start_returns {
                    Some(Event::Completed(Ok(())))
                } else {
                    // A successful start transfers control away permanently.
                    None
                }
            }
            Action::Stall(_) => Some(Event::Completed(Ok(()))),
            Action::Halt(_) => None,
        };
        match response {
            None => {
                let outcome = match &action {
                    Action::Halt(o) => Some(*o),
                    _ => None,
                };
                let slot = m.slot.interface;
                log.push(action);
                return (log, outcome, slot);
            }
            Some(event) => {
                log.push(action);
                let (next_m, next_action) = m.step(event);
                m = next_m;
                action = next_action;
            }
        }
    }
}

fn connect_targets(log: &[Action]) -> Vec<u64> {
    log.iter()
        .filter_map(|a| match a {
            Action::ConnectController(h) => Some(h.id),
            _ => None,
        })
        .collect()
}

fn count_publishes(log: &[Action]) -> usize {
    log.iter().filter(|a| matches!(a, Action::PublishInterface(_))).count()
}

fn create_position(log: &[Action], id: MilestoneId) -> usize {
    log.iter()
        .position(|a| matches!(a, Action::CreateMilestoneEvent(i) if *i == id))
        .expect("milestone was never created")
}

#[test]
fn connect_attempts_every_handle_even_when_all_fail() {
    let sim = Sim {
        all_handles_result: Ok(vec![10, 11, 12]),
        connect_ok: false,
        ..base_sim()
    };
    let (log, outcome, _) = drive(&sim);
    assert_eq!(connect_targets(&log), vec![10, 11, 12]);
    // The failed attempts are discarded: boot goes on to the next milestone
    // and all the way to the image transfer.
    let last_connect = log
        .iter()
        .rposition(|a| matches!(a, Action::ConnectController(_)))
        .unwrap();
    assert!(create_position(&log, MilestoneId::ReadyToBoot) > last_connect);
    assert_eq!(outcome, None);
}

#[test]
fn connect_with_zero_handles_still_succeeds() {
    let sim = Sim { all_handles_result: Ok(vec![]), ..base_sim() };
    let (log, outcome, _) = drive(&sim);
    assert_eq!(connect_targets(&log), Vec::<u64>::new());
    assert_eq!(outcome, None);
}

#[test]
fn connect_enumeration_failure_is_fatal() {
    let sim = Sim { all_handles_result: Err(5), ..base_sim() };
    let (log, outcome, _) = drive(&sim);
    assert_eq!(outcome, Some(Outcome::Failed(FwError { code: 5 })));
    assert_eq!(connect_targets(&log), Vec::<u64>::new());
}

#[test]
fn initialize_without_capability_leaves_slot_absent() {
    let sim = base_sim();
    let (log, outcome, slot) = drive(&sim);
    assert!(!log.iter().any(|a| matches!(a, Action::RetrieveRawInterface(_))));
    assert_eq!(count_publishes(&log), 0);
    assert_eq!(slot, None);
    assert_eq!(outcome, None);
}

#[test]
fn initialize_uses_first_handle_and_publishes_once() {
    let sim = Sim {
        display_handle_ids: vec![21, 22],
        retrieve_interface: Some(0xABC),
        ..base_sim()
    };
    let (log, outcome, slot) = drive(&sim);
    let retrievals: Vec<u64> = log
        .iter()
        .filter_map(|a| match a {
            Action::RetrieveRawInterface(h) => Some(h.id),
            _ => None,
        })
        .collect();
    assert_eq!(retrievals, vec![21]);
    assert_eq!(count_publishes(&log), 1);
    assert_eq!(slot, Some(0xABC));
    assert_eq!(outcome, None);
}

#[test]
fn initialize_null_interface_is_soft_failure() {
    let sim = Sim {
        display_handle_ids: vec![21],
        retrieve_interface: None,
        ..base_sim()
    };
    let (log, outcome, slot) = drive(&sim);
    assert_eq!(count_publishes(&log), 0);
    assert_eq!(slot, None);
    assert_eq!(outcome, None);
}

#[test]
fn initialize_bad_status_is_soft_failure() {
    let sim = Sim {
        display_handle_ids: vec![21],
        retrieve_status_ok: false,
        ..base_sim()
    };
    let (log, outcome, slot) = drive(&sim);
    assert_eq!(count_publishes(&log), 0);
    assert_eq!(slot, None);
    assert_eq!(outcome, None);
}

#[test]
fn self_test_sets_display_on_only_after_successful_get() {
    let on = Sim { display_handle_ids: vec![21], ..base_sim() };
    let (log, _, _) = drive(&on);
    let get = log.iter().position(|a| matches!(a, Action::GetDisplayState)).unwrap();
    let set = log
        .iter()
        .position(|a| matches!(a, Action::SetDisplayState(s) if *s == DisplayPowerState::On))
        .unwrap();
    assert!(get < set);

    let off = Sim { display_handle_ids: vec![21], get_state_ok: false, ..base_sim() };
    let (log, outcome, _) = drive(&off);
    assert!(!log.iter().any(|a| matches!(a, Action::SetDisplayState(_))));
    assert_eq!(outcome, None);
}

#[test]
fn signal_pairs_every_created_event_with_a_close() {
    let (log, outcome, _) = drive(&base_sim());
    let mut signals: usize = 0;
    for (i, a) in log.iter().enumerate() {
        if let Action::SignalEvent(ev) = a {
            signals += 1;
            assert_eq!(log[i + 1], Action::CloseEvent(*ev));
        }
    }
    assert_eq!(signals, 3);
    assert_eq!(log.iter().filter(|a| matches!(a, Action::CloseEvent(_))).count(), 3);
    assert_eq!(outcome, None);
}

#[test]
fn signal_failure_still_closes_the_event_then_halts() {
    let sim = Sim { signal_ok: false, ..base_sim() };
    let (log, outcome, _) = drive(&sim);
    assert_eq!(outcome, Some(Outcome::Failed(FwError { code: 41 })));
    let signal = log.iter().position(|a| matches!(a, Action::SignalEvent(_))).unwrap();
    let ev = match &log[signal] {
        Action::SignalEvent(h) => *h,
        _ => unreachable!(),
    };
    assert_eq!(log[signal + 1], Action::CloseEvent(ev));
    assert_eq!(log[signal + 2], Action::Halt(Outcome::Failed(FwError { code: 41 })));
}

#[test]
fn event_creation_failure_is_fatal_and_opens_nothing() {
    let sim = Sim { create_ok: false, ..base_sim() };
    let (log, outcome, _) = drive(&sim);
    assert_eq!(outcome, Some(Outcome::Failed(FwError { code: 40 })));
    assert!(!log.iter().any(|a| matches!(a, Action::SignalEvent(_))));
    assert!(!log.iter().any(|a| matches!(a, Action::CloseEvent(_))));
}

#[test]
fn locate_probes_in_order_and_builds_three_node_path() {
    let sim = Sim {
        volumes: vec![
            SimVolume { has_boot_file: false, ..good_volume(100) },
            good_volume(101),
            good_volume(102),
        ],
        ..base_sim()
    };
    let (log, outcome, _) = drive(&sim);
    assert_eq!(outcome, None);
    // First match wins: the third handle is never probed.
    assert!(!log.iter().any(|a| matches!(a, Action::OpenDevicePath(h) if h.id == 102)));
    let descriptor = log
        .iter()
        .find_map(|a| match a {
            Action::LoadImage(d) => Some(d),
            _ => None,
        })
        .expect("no load was requested");
    assert_eq!(*descriptor, make_nodes(4));
    let path = build_boot_path(make_nodes(4));
    assert_eq!(path.len(), 3);
    assert_eq!(path[0], make_nodes(4)[0]);
    assert_eq!(path[1], make_nodes(4)[1]);
    assert_eq!(path[2], PathNode::FilePath { name: boot_image_path() });
    assert!(log.iter().any(|a| matches!(a, Action::StartImage(h) if h.id == 777)));
}

#[test]
fn per_handle_probe_failures_skip_to_the_next_handle() {
    let sim = Sim {
        volumes: vec![
            SimVolume { path_opens: false, ..good_volume(100) },
            SimVolume { fs_opens: false, ..good_volume(101) },
            SimVolume { volume_opens: false, ..good_volume(102) },
            good_volume(103),
        ],
        ..base_sim()
    };
    let (log, outcome, _) = drive(&sim);
    assert_eq!(outcome, None);
    // Each failed probe stops that handle's pipeline where it failed.
    assert!(!log.iter().any(|a| matches!(a, Action::OpenFileSystem(h) if h.id == 100)));
    assert!(!log.iter().any(|a| matches!(a, Action::OpenVolume(h) if h.id == 101)));
    assert!(!log.iter().any(|a| matches!(a, Action::OpenBootFile(h) if h.id == 102)));
    assert!(log.iter().any(|a| matches!(a, Action::LoadImage(_))));
}

#[test]
fn end_to_end_success_emits_milestones_in_order_and_transfers() {
    let (log, outcome, slot) = drive(&base_sim());
    let sd = create_position(&log, MilestoneId::SdCardDetect);
    let ready = create_position(&log, MilestoneId::ReadyToBoot);
    let dxe = create_position(&log, MilestoneId::EndOfDxe);
    assert!(sd < ready && ready < dxe);
    assert!(log.iter().any(|a| matches!(a, Action::LoadImage(_))));
    assert!(matches!(log.last().unwrap(), Action::StartImage(_)));
    // The terminal pause and the sentinel are never reached.
    assert!(!log.iter().any(|a| matches!(a, Action::Stall(_))));
    assert!(!log.iter().any(|a| matches!(a, Action::Halt(_))));
    assert_eq!(outcome, None);
    assert_eq!(slot, None);
}

#[test]
fn end_to_end_missing_file_reports_not_found() {
    let sim = Sim {
        volumes: vec![
            SimVolume { has_boot_file: false, ..good_volume(100) },
            SimVolume { has_boot_file: false, ..good_volume(101) },
        ],
        ..base_sim()
    };
    let (log, outcome, _) = drive(&sim);
    assert_eq!(outcome, Some(Outcome::ImageNotFound));
    assert_eq!(*log.last().unwrap(), Action::Halt(Outcome::ImageNotFound));
    assert!(!log.iter().any(|a| matches!(a, Action::LoadImage(_))));
    // Both handles were probed before giving up.
    assert!(log.iter().any(|a| matches!(a, Action::OpenBootFile(h) if h.id == 100)));
    assert!(log.iter().any(|a| matches!(a, Action::OpenBootFile(h) if h.id == 101)));
}

#[test]
fn zero_filesystem_handles_reports_not_found() {
    let sim = Sim { volumes: vec![], ..base_sim() };
    let (_, outcome, _) = drive(&sim);
    assert_eq!(outcome, Some(Outcome::ImageNotFound));
}

#[test]
fn load_failure_after_match_is_fatal_not_absence() {
    let sim = Sim { load_ok: false, ..base_sim() };
    let (_, outcome, _) = drive(&sim);
    assert_eq!(outcome, Some(Outcome::Failed(FwError { code: 70 })));
}

#[test]
fn short_descriptor_on_matching_handle_is_fatal() {
    let sim = Sim {
        volumes: vec![SimVolume { descriptor_nodes: 1, ..good_volume(100) }],
        ..base_sim()
    };
    let (_, outcome, _) = drive(&sim);
    assert_eq!(outcome, Some(Outcome::ShortDevicePath));
}

#[test]
fn abnormal_return_after_start_pauses_then_reports_sentinel() {
    let sim = Sim { start_returns: true, ..base_sim() };
    let (log, outcome, _) = drive(&sim);
    assert!(log.iter().any(|a| matches!(a, Action::Stall(us) if *us == STALL_MICROSECONDS)));
    assert_eq!(outcome, Some(Outcome::ReturnedAfterStart));
}

#[test]
fn helper_initialization_failure_is_fatal() {
    let sim = Sim { init_ok: false, ..base_sim() };
    let (log, outcome, _) = drive(&sim);
    assert_eq!(outcome, Some(Outcome::Failed(FwError { code: 10 })));
    assert_eq!(log.len(), 2);
}

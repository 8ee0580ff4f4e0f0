use monitord_units::name_map::NameMap;
use monitord_units::units::{
    is_unit_unhealthy, parse_state, parse_unit, parse_unit_state, process_count, record_service_stats, ServiceStats,
    SystemdUnitActiveState, SystemdUnitLoadState, SystemdUnitStats, UnitRecord, UnitStates,
    UnitsConfig,
};

fn unit_with(name: &str, load: &str, active: &str, job_id: u32) -> UnitRecord {
    UnitRecord {
        name: String::from(name),
        description: String::from(
            "Process error reports when automatic reporting is enabled (timer based)",
        ),
        load_state: String::from(load),
        active_state: String::from(active),
        sub_state: String::from("dead"),
        following: String::from(""),
        unit_path: String::from("/org/freedesktop/systemd1/unit/apport_2dautoreport_2etimer"),
        job_id,
        job_type: String::from(""),
        job_path: String::from("/"),
    }
}

fn get_unit_file() -> UnitRecord {
    unit_with("apport-autoreport.timer", "loaded", "inactive", 0)
}

#[test]
fn test_is_unit_healthy() {
    assert!(!is_unit_unhealthy(
        SystemdUnitActiveState::active,
        SystemdUnitLoadState::loaded
    ));
    assert!(is_unit_unhealthy(
        SystemdUnitActiveState::activating,
        SystemdUnitLoadState::loaded
    ));
    assert!(!is_unit_unhealthy(
        SystemdUnitActiveState::activating,
        SystemdUnitLoadState::masked
    ));
    assert!(is_unit_unhealthy(
        SystemdUnitActiveState::deactivating,
        SystemdUnitLoadState::not_found
    ));
    assert!(is_unit_unhealthy(
        SystemdUnitActiveState::active,
        SystemdUnitLoadState::error,
    ));
}

#[test]
fn test_state_parse() {
    let test_unit_name = String::from("apport-autoreport.timer");
    let mut expected_states = NameMap::new();
    expected_states.insert(
        test_unit_name.clone(),
        UnitStates {
            active_state: SystemdUnitActiveState::inactive,
            load_state: SystemdUnitLoadState::loaded,
            unhealthy: true,
        },
    );
    let expected_stats = SystemdUnitStats {
        active_units: 0,
        automount_units: 0,
        device_units: 0,
        failed_units: 0,
        inactive_units: 0,
        jobs_queued: 0,
        loaded_units: 0,
        masked_units: 0,
        mount_units: 0,
        not_found_units: 0,
        path_units: 0,
        scope_units: 0,
        service_units: 0,
        slice_units: 0,
        socket_units: 0,
        target_units: 0,
        timer_units: 0,
        total_units: 0,
        service_stats: NameMap::new(),
        unit_states: expected_states,
    };
    let mut stats = SystemdUnitStats::default();
    let systemd_unit = get_unit_file();

    parse_state(&mut stats, &systemd_unit, &vec![], &vec![]);
    assert_eq!(expected_stats, stats);

    let allowlist = Vec::from([test_unit_name.clone()]);
    let blocklist = Vec::from([test_unit_name]);

    let mut allowlist_stats = SystemdUnitStats::default();
    parse_state(&mut allowlist_stats, &systemd_unit, &allowlist, &vec![]);
    assert_eq!(expected_stats, allowlist_stats);

    let mut blocklist_stats = SystemdUnitStats::default();
    let expected_blocklist_stats = SystemdUnitStats::default();
    parse_state(&mut blocklist_stats, &systemd_unit, &allowlist, &blocklist);
    assert_eq!(expected_blocklist_stats, blocklist_stats);
}

#[test]
fn test_unit_parse() {
    let expected_stats = SystemdUnitStats {
        active_units: 0,
        automount_units: 0,
        device_units: 0,
        failed_units: 0,
        inactive_units: 1,
        jobs_queued: 0,
        loaded_units: 1,
        masked_units: 0,
        mount_units: 0,
        not_found_units: 0,
        path_units: 0,
        scope_units: 0,
        service_units: 0,
        slice_units: 0,
        socket_units: 0,
        target_units: 0,
        timer_units: 1,
        total_units: 0,
        service_stats: NameMap::new(),
        unit_states: NameMap::new(),
    };
    let mut stats = SystemdUnitStats::default();
    let systemd_unit = get_unit_file();
    parse_unit(&mut stats, &systemd_unit);
    assert_eq!(expected_stats, stats);
}

#[test]
fn test_iterators() {
    assert!(SystemdUnitActiveState::all().len() > 0);
    assert!(SystemdUnitLoadState::all().len() > 0);
}

#[test]
fn fresh_report_is_all_zero() {
    let stats = SystemdUnitStats::new();
    assert_eq!(stats, SystemdUnitStats::default());
    assert_eq!(stats.total_units, 0);
    assert_eq!(stats.timer_units, 0);
    assert!(stats.unit_states.entries().is_empty());
    assert!(stats.service_stats.entries().is_empty());
}

#[test]
fn empty_pass_is_fresh_report() {
    let config = UnitsConfig {
        state_stats: true,
        state_stats_allowlist: vec![],
        state_stats_blocklist: vec![],
    };
    assert_eq!(parse_unit_state(&[], &config), SystemdUnitStats::new());
}

#[test]
fn one_timer_unit_counts() {
    let mut stats = SystemdUnitStats::new();
    parse_unit(&mut stats, &unit_with("x.timer", "loaded", "inactive", 0));
    let mut expected = SystemdUnitStats::new();
    expected.timer_units = 1;
    expected.loaded_units = 1;
    expected.inactive_units = 1;
    assert_eq!(stats, expected);
}

#[test]
fn one_timer_unit_state_recorded() {
    let mut stats = SystemdUnitStats::new();
    parse_state(&mut stats, &unit_with("x.timer", "loaded", "inactive", 0), &[], &[]);
    let entries = stats.unit_states.entries();
    assert_eq!(entries.len(), 1);
    assert_eq!(entries[0].0, "x.timer");
    assert_eq!(
        entries[0].1,
        UnitStates {
            active_state: SystemdUnitActiveState::inactive,
            load_state: SystemdUnitLoadState::loaded,
            unhealthy: true,
        }
    );
}

#[test]
fn block_list_beats_allow_list() {
    let mut stats = SystemdUnitStats::new();
    let names = vec![String::from("x.timer")];
    parse_state(&mut stats, &unit_with("x.timer", "loaded", "inactive", 0), &names, &names);
    assert_eq!(stats, SystemdUnitStats::new());
}

#[test]
fn allow_list_excludes_others() {
    let mut stats = SystemdUnitStats::new();
    let allow = vec![String::from("y.service")];
    parse_state(&mut stats, &unit_with("x.timer", "loaded", "inactive", 0), &allow, &[]);
    assert_eq!(stats, SystemdUnitStats::new());
}

#[test]
fn not_found_token_parses() {
    assert_eq!(
        SystemdUnitLoadState::from_wire_token("not-found"),
        SystemdUnitLoadState::not_found
    );
    assert_eq!(
        SystemdUnitLoadState::from_token("not-found"),
        SystemdUnitLoadState::unknown
    );
    let mut stats = SystemdUnitStats::new();
    parse_state(&mut stats, &unit_with("gone.service", "not-found", "inactive", 0), &[], &[]);
    let entries = stats.unit_states.entries();
    assert_eq!(entries[0].1.load_state, SystemdUnitLoadState::not_found);
    assert!(entries[0].1.unhealthy);
}

#[test]
fn queued_job_counts_once() {
    let mut stats = SystemdUnitStats::new();
    parse_unit(&mut stats, &unit_with("a.service", "loaded", "active", 0));
    assert_eq!(stats.jobs_queued, 0);
    parse_unit(&mut stats, &unit_with("b.service", "loaded", "active", 42));
    assert_eq!(stats.jobs_queued, 1);
    parse_unit(&mut stats, &unit_with("c.service", "loaded", "active", u32::MAX));
    assert_eq!(stats.jobs_queued, 2);
}

#[test]
fn pass_is_repeatable() {
    let units = vec![
        unit_with("a.service", "loaded", "active", 0),
        unit_with("b.socket", "masked", "inactive", 3),
        unit_with("c.mount", "not-found", "failed", 0),
        unit_with("d.weird", "error", "reloading", 0),
    ];
    let config = UnitsConfig {
        state_stats: true,
        state_stats_allowlist: vec![],
        state_stats_blocklist: vec![String::from("a.service")],
    };
    let first = parse_unit_state(&units, &config);
    let second = parse_unit_state(&units, &config);
    assert_eq!(first, second);
    assert_eq!(first.total_units, 4);
    assert_eq!(first.service_units, 1);
    assert_eq!(first.socket_units, 1);
    assert_eq!(first.mount_units, 1);
    assert_eq!(first.loaded_units, 1);
    assert_eq!(first.masked_units, 1);
    assert_eq!(first.not_found_units, 1);
    assert_eq!(first.active_units, 1);
    assert_eq!(first.inactive_units, 1);
    assert_eq!(first.failed_units, 1);
    assert_eq!(first.jobs_queued, 1);
    assert_eq!(first.unit_states.entries().len(), 3);
}

#[test]
fn state_pass_disabled_records_nothing() {
    let units = vec![unit_with("a.service", "loaded", "active", 0)];
    let config = UnitsConfig::default();
    let stats = parse_unit_state(&units, &config);
    assert!(stats.unit_states.entries().is_empty());
    assert_eq!(stats.active_units, 1);
}

#[test]
fn masked_unit_is_healthy_and_others_not() {
    for a in SystemdUnitActiveState::all() {
        assert!(!is_unit_unhealthy(a, SystemdUnitLoadState::masked));
        assert!(is_unit_unhealthy(a, SystemdUnitLoadState::unknown));
        assert!(is_unit_unhealthy(a, SystemdUnitLoadState::error));
        assert_eq!(
            is_unit_unhealthy(a, SystemdUnitLoadState::loaded),
            a != SystemdUnitActiveState::active
        );
    }
}

#[test]
fn state_tokens_round_trip() {
    for a in SystemdUnitActiveState::all() {
        assert_eq!(SystemdUnitActiveState::from_token(a.as_str()), a);
    }
    for l in SystemdUnitLoadState::all() {
        assert_eq!(SystemdUnitLoadState::from_token(l.as_str()), l);
    }
    assert_eq!(SystemdUnitActiveState::from_token("Active"), SystemdUnitActiveState::unknown);
    assert_eq!(SystemdUnitLoadState::not_found.as_str(), "not_found");
}

#[test]
fn unit_type_is_second_segment() {
    let mut stats = SystemdUnitStats::new();
    parse_unit(&mut stats, &unit_with("a.slice.extra", "x", "y", 0));
    parse_unit(&mut stats, &unit_with("nodot", "x", "y", 0));
    parse_unit(&mut stats, &unit_with("b.timers", "x", "y", 0));
    let mut expected = SystemdUnitStats::new();
    expected.slice_units = 1;
    assert_eq!(stats, expected);
}

#[test]
fn overwriting_state_keeps_one_entry() {
    let mut stats = SystemdUnitStats::new();
    parse_state(&mut stats, &unit_with("x.timer", "loaded", "inactive", 0), &[], &[]);
    parse_state(&mut stats, &unit_with("x.timer", "loaded", "active", 0), &[], &[]);
    let entries = stats.unit_states.entries();
    assert_eq!(entries.len(), 1);
    assert!(!entries[0].1.unhealthy);
}

#[test]
fn process_count_falls_back_to_zero() {
    assert_eq!(process_count(7), 7);
    assert_eq!(process_count(u32::MAX as usize), u32::MAX);
    assert_eq!(process_count(u32::MAX as usize + 1), 0);
    assert_eq!(ServiceStats::default().processes, 0);
}

#[test]
fn service_read_outcome_recorded() {
    let mut stats = SystemdUnitStats::new();
    let name = String::from("a.service");
    record_service_stats(&mut stats, &name, None);
    assert_eq!(stats, SystemdUnitStats::new());
    let mut read = ServiceStats::default();
    read.nrestarts = 3;
    read.status_errno = -2;
    read.processes = process_count(5);
    record_service_stats(&mut stats, &name, Some(read));
    let entries = stats.service_stats.entries();
    assert_eq!(entries.len(), 1);
    assert_eq!(entries[0].0, "a.service");
    assert_eq!(entries[0].1, read);
    assert_eq!(entries[0].1.processes, 5);
}

//! Unit counting, per-unit state classification and the report they fill.

use vstd::prelude::*;

use crate::name_map::NameMap;
use crate::text::{chars_of, list_contains, list_has, range_eq};

verus! {

/// Whether the characters of `t` are exactly those of `lit`.
fn chars_is(t: &Vec<char>, lit: &str) -> (r: bool)
    ensures
        r == (t@ == lit@),
{
    let l = chars_of(lit);
    let r = range_eq(t, 0, t.len(), &l);
    assert(t@.subrange(0, t@.len() as int) =~= t@);
    r
}

/// Possible active states of a unit.
#[allow(non_camel_case_types)]
#[derive(Clone, Copy, Debug, Default, PartialEq, Eq, Hash)]
pub enum SystemdUnitActiveState {
    #[default]
    unknown,
    active,
    reloading,
    inactive,
    failed,
    activating,
    deactivating,
}

/// Possible load states of a unit.
#[allow(non_camel_case_types)]
#[derive(Clone, Copy, Debug, Default, PartialEq, Eq, Hash)]
pub enum SystemdUnitLoadState {
    #[default]
    unknown,
    loaded,
    error,
    masked,
    not_found,
}

impl SystemdUnitActiveState {
    /// The canonical token of the state: its variant name.
    pub open spec fn spec_token(self) -> Seq<char> {
        match self {
            SystemdUnitActiveState::unknown => "unknown"@,
            SystemdUnitActiveState::active => "active"@,
            SystemdUnitActiveState::reloading => "reloading"@,
            SystemdUnitActiveState::inactive => "inactive"@,
            SystemdUnitActiveState::failed => "failed"@,
            SystemdUnitActiveState::activating => "activating"@,
            SystemdUnitActiveState::deactivating => "deactivating"@,
        }
    }

    /// The state whose token is exactly `t`, or `unknown` where none is.
    pub open spec fn spec_parse(t: Seq<char>) -> SystemdUnitActiveState {
        if t == "active"@ {
            SystemdUnitActiveState::active
        } else if t == "reloading"@ {
            SystemdUnitActiveState::reloading
        } else if t == "inactive"@ {
            SystemdUnitActiveState::inactive
        } else if t == "failed"@ {
            SystemdUnitActiveState::failed
        } else if t == "activating"@ {
            SystemdUnitActiveState::activating
        } else if t == "deactivating"@ {
            SystemdUnitActiveState::deactivating
        } else {
            SystemdUnitActiveState::unknown
        }
    }

    /// Every state, `unknown` first.
    pub fn all() -> (r: Vec<SystemdUnitActiveState>)
        ensures
            r@.len() == 7,
            forall|s: SystemdUnitActiveState| r@.contains(s),
    {
        let r = vec![
            SystemdUnitActiveState::unknown,
            SystemdUnitActiveState::active,
            SystemdUnitActiveState::reloading,
            SystemdUnitActiveState::inactive,
            SystemdUnitActiveState::failed,
            SystemdUnitActiveState::activating,
            SystemdUnitActiveState::deactivating,
        ];
        assert forall|s: SystemdUnitActiveState| r@.contains(s) by {
            match s {
                SystemdUnitActiveState::unknown => assert(r@[0] == s),
                SystemdUnitActiveState::active => assert(r@[1] == s),
                SystemdUnitActiveState::reloading => assert(r@[2] == s),
                SystemdUnitActiveState::inactive => assert(r@[3] == s),
                SystemdUnitActiveState::failed => assert(r@[4] == s),
                SystemdUnitActiveState::activating => assert(r@[5] == s),
                SystemdUnitActiveState::deactivating => assert(r@[6] == s),
            }
        }
        r
    }

    /// The canonical token of the state.
    pub fn as_str(&self) -> (r: &'static str)
        ensures
            r@ == self.spec_token(),
    {
        match self {
            SystemdUnitActiveState::unknown => "unknown",
            SystemdUnitActiveState::active => "active",
            SystemdUnitActiveState::reloading => "reloading",
            SystemdUnitActiveState::inactive => "inactive",
            SystemdUnitActiveState::failed => "failed",
            SystemdUnitActiveState::activating => "activating",
            SystemdUnitActiveState::deactivating => "deactivating",
        }
    }

    /// Parses a token case-exactly, falling back to `unknown`.
    pub fn from_token(s: &str) -> (r: SystemdUnitActiveState)
        ensures
            r == SystemdUnitActiveState::spec_parse(s@),
    {
        let t = chars_of(s);
        if chars_is(&t, "active") {
            SystemdUnitActiveState::active
        } else if chars_is(&t, "reloading") {
            SystemdUnitActiveState::reloading
        } else if chars_is(&t, "inactive") {
            SystemdUnitActiveState::inactive
        } else if chars_is(&t, "failed") {
            SystemdUnitActiveState::failed
        } else if chars_is(&t, "activating") {
            SystemdUnitActiveState::activating
        } else if chars_is(&t, "deactivating") {
            SystemdUnitActiveState::deactivating
        } else {
            SystemdUnitActiveState::unknown
        }
    }
}

impl SystemdUnitLoadState {
    /// The canonical token of the state: its variant name.
    pub open spec fn spec_token(self) -> Seq<char> {
        match self {
            SystemdUnitLoadState::unknown => "unknown"@,
            SystemdUnitLoadState::loaded => "loaded"@,
            SystemdUnitLoadState::error => "error"@,
            SystemdUnitLoadState::masked => "masked"@,
            SystemdUnitLoadState::not_found => "not_found"@,
        }
    }

    /// The state whose token is exactly `t`, or `unknown` where none is.
    pub open spec fn spec_parse(t: Seq<char>) -> SystemdUnitLoadState {
        if t == "loaded"@ {
            SystemdUnitLoadState::loaded
        } else if t == "error"@ {
            SystemdUnitLoadState::error
        } else if t == "masked"@ {
            SystemdUnitLoadState::masked
        } else if t == "not_found"@ {
            SystemdUnitLoadState::not_found
        } else {
            SystemdUnitLoadState::unknown
        }
    }

    /// Every state, `unknown` first.
    pub fn all() -> (r: Vec<SystemdUnitLoadState>)
        ensures
            r@.len() == 5,
            forall|s: SystemdUnitLoadState| r@.contains(s),
    {
        let r = vec![
            SystemdUnitLoadState::unknown,
            SystemdUnitLoadState::loaded,
            SystemdUnitLoadState::error,
            SystemdUnitLoadState::masked,
            SystemdUnitLoadState::not_found,
        ];
        assert forall|s: SystemdUnitLoadState| r@.contains(s) by {
            match s {
                SystemdUnitLoadState::unknown => assert(r@[0] == s),
                SystemdUnitLoadState::loaded => assert(r@[1] == s),
                SystemdUnitLoadState::error => assert(r@[2] == s),
                SystemdUnitLoadState::masked => assert(r@[3] == s),
                SystemdUnitLoadState::not_found => assert(r@[4] == s),
            }
        }
        r
    }

    /// The canonical token of the state.
    pub fn as_str(&self) -> (r: &'static str)
        ensures
            r@ == self.spec_token(),
    {
        match self {
            SystemdUnitLoadState::unknown => "unknown",
            SystemdUnitLoadState::loaded => "loaded",
            SystemdUnitLoadState::error => "error",
            SystemdUnitLoadState::masked => "masked",
            SystemdUnitLoadState::not_found => "not_found",
        }
    }

    /// Parses a token given as characters, case-exactly, falling back to `unknown`.
    fn from_chars(t: &Vec<char>) -> (r: SystemdUnitLoadState)
        ensures
            r == SystemdUnitLoadState::spec_parse(t@),
    {
        if chars_is(t, "loaded") {
            SystemdUnitLoadState::loaded
        } else if chars_is(t, "error") {
            SystemdUnitLoadState::error
        } else if chars_is(t, "masked") {
            SystemdUnitLoadState::masked
        } else if chars_is(t, "not_found") {
            SystemdUnitLoadState::not_found
        } else {
            SystemdUnitLoadState::unknown
        }
    }

    /// Parses a token case-exactly, falling back to `unknown`.
    pub fn from_token(s: &str) -> (r: SystemdUnitLoadState)
        ensures
            r == SystemdUnitLoadState::spec_parse(s@),
    {
        let t = chars_of(s);
        SystemdUnitLoadState::from_chars(&t)
    }

    /// Parses a raw load-state token as the service manager writes it: each
    /// hyphen becomes an underscore before the lookup.
    pub fn from_wire_token(s: &str) -> (r: SystemdUnitLoadState)
        ensures
            r == SystemdUnitLoadState::spec_parse(normalize_token(s@)),
    {
        let t = normalized_chars(s);
        SystemdUnitLoadState::from_chars(&t)
    }
}

/// `t` with every `-` replaced by `_`.
pub open spec fn normalize_token(t: Seq<char>) -> Seq<char> {
    t.map_values(|c: char| if c == '-' { '_' } else { c })
}

/// The characters of `s` with every `-` replaced by `_`.
fn normalized_chars(s: &str) -> (r: Vec<char>)
    ensures
        r@ == normalize_token(s@),
{
    let t = chars_of(s);
    let mut out: Vec<char> = Vec::new();
    let mut i: usize = 0;
    while i < t.len()
        invariant
            i <= t@.len(),
            t@ == s@,
            out@ == normalize_token(t@.subrange(0, i as int)),
        decreases t@.len() - i,
    {
        let c = t[i];
        if c == '-' {
            out.push('_');
        } else {
            out.push(c);
        }
        assert(t@.subrange(0, i + 1) =~= t@.subrange(0, i as int).push(c));
        i = i + 1;
        assert(out@ =~= normalize_token(t@.subrange(0, i as int)));
    }
    assert(t@.subrange(0, t@.len() as int) =~= t@);
    out
}

/// Parsing the canonical token of an active state gives that state back.
pub proof fn lemma_active_state_round_trip(s: SystemdUnitActiveState)
    ensures
        SystemdUnitActiveState::spec_parse(s.spec_token()) == s,
{
    reveal_strlit("unknown");
    reveal_strlit("active");
    reveal_strlit("reloading");
    reveal_strlit("inactive");
    reveal_strlit("failed");
    reveal_strlit("activating");
    reveal_strlit("deactivating");
    assert("active"@[0] != "failed"@[0]);
    assert("unknown"@.len() == 7 && "active"@.len() == 6 && "reloading"@.len() == 9);
    assert("inactive"@.len() == 8 && "failed"@.len() == 6 && "activating"@.len() == 10);
    assert("deactivating"@.len() == 12);
}

/// Parsing the canonical token of a load state gives that state back.
pub proof fn lemma_load_state_round_trip(s: SystemdUnitLoadState)
    ensures
        SystemdUnitLoadState::spec_parse(s.spec_token()) == s,
        SystemdUnitLoadState::spec_parse(normalize_token(s.spec_token())) == s,
{
    reveal_strlit("unknown");
    reveal_strlit("loaded");
    reveal_strlit("error");
    reveal_strlit("masked");
    reveal_strlit("not_found");
    assert("loaded"@[0] != "masked"@[0]);
    assert("unknown"@.len() == 7 && "loaded"@.len() == 6 && "error"@.len() == 5);
    assert("masked"@.len() == 6 && "not_found"@.len() == 9);
    let t = s.spec_token();
    assert(normalize_token(t) =~= t);
}

/// The wire token `not-found` reads as `not_found`, not as `unknown`.
pub proof fn lemma_not_found_wire_token()
    ensures
        SystemdUnitLoadState::spec_parse(normalize_token("not-found"@))
            == SystemdUnitLoadState::not_found,
{
    reveal_strlit("not-found");
    reveal_strlit("not_found");
    assert(normalize_token("not-found"@) =~= "not_found"@);
    lemma_load_state_round_trip(SystemdUnitLoadState::not_found);
}

/// The health rule: a loaded unit is unhealthy unless active, a masked unit is
/// never unhealthy, and a unit in any other load state always is.
pub open spec fn spec_is_unhealthy(
    active_state: SystemdUnitActiveState,
    load_state: SystemdUnitLoadState,
) -> bool {
    match load_state {
        SystemdUnitLoadState::loaded => active_state != SystemdUnitActiveState::active,
        SystemdUnitLoadState::masked => false,
        _ => true,
    }
}

/// Whether a unit in these states is unhealthy.
pub fn is_unit_unhealthy(
    active_state: SystemdUnitActiveState,
    load_state: SystemdUnitLoadState,
) -> (r: bool)
    ensures
        r == spec_is_unhealthy(active_state, load_state),
        load_state == SystemdUnitLoadState::loaded ==> (r
            <==> active_state != SystemdUnitActiveState::active),
        load_state == SystemdUnitLoadState::masked ==> !r,
        load_state != SystemdUnitLoadState::loaded && load_state != SystemdUnitLoadState::masked
            ==> r,
{
    match load_state {
        SystemdUnitLoadState::loaded => !matches!(active_state, SystemdUnitActiveState::active),
        SystemdUnitLoadState::masked => false,
        _ => true,
    }
}

/// Active and load state of one unit, with the health verdict derived from them.
#[derive(Clone, Copy, Debug, Default, PartialEq, Eq)]
pub struct UnitStates {
    pub active_state: SystemdUnitActiveState,
    pub load_state: SystemdUnitLoadState,
    pub unhealthy: bool,
}

/// Selected metrics of one service unit; zero where a value is unavailable.
#[derive(Clone, Copy, Debug, Default, PartialEq, Eq)]
pub struct ServiceStats {
    pub active_enter_timestamp: u64,
    pub active_exit_timestamp: u64,
    pub cpuusage_nsec: u64,
    pub inactive_exit_timestamp: u64,
    pub ioread_bytes: u64,
    pub ioread_operations: u64,
    pub memory_available: u64,
    pub memory_current: u64,
    pub nrestarts: u32,
    pub processes: u32,
    pub restart_usec: u64,
    pub state_change_timestamp: u64,
    pub status_errno: i32,
    pub tasks_current: u64,
    pub timeout_clean_usec: u64,
    pub watchdog_usec: u64,
}

/// The process count of a service: the length of its process list, or zero
/// where that length does not fit in 32 bits.
pub fn process_count(len: usize) -> (r: u32)
    ensures
        len <= u32::MAX ==> r == len,
        len > u32::MAX ==> r == 0,
{
    if len <= u32::MAX as usize {
        len as u32
    } else {
        0
    }
}

/// One unit as the service manager lists it.
#[derive(Clone, Debug, PartialEq, Eq)]
pub struct UnitRecord {
    /// The primary unit name, `<name>.<type>`.
    pub name: String,
    pub description: String,
    /// Whether the unit's definition was loaded, as a raw token.
    pub load_state: String,
    /// Whether the unit is started, as a raw token.
    pub active_state: String,
    pub sub_state: String,
    pub following: String,
    /// The unit's object path.
    pub unit_path: String,
    /// The queued job's id, or `0` where no job is queued.
    pub job_id: u32,
    pub job_type: String,
    pub job_path: String,
}

/// What the core reads of a unit record.
pub ghost struct UnitRecordView {
    pub name: Seq<char>,
    pub load_state: Seq<char>,
    pub active_state: Seq<char>,
    pub job_id: u32,
}

impl View for UnitRecord {
    type V = UnitRecordView;

    open spec fn view(&self) -> UnitRecordView {
        UnitRecordView {
            name: self.name@,
            load_state: self.load_state@,
            active_state: self.active_state@,
            job_id: self.job_id,
        }
    }
}

/// Unit counts and per-unit records of one collection pass.
#[derive(Clone, Debug, PartialEq, Eq)]
pub struct SystemdUnitStats {
    pub active_units: u64,
    pub automount_units: u64,
    pub device_units: u64,
    pub failed_units: u64,
    pub inactive_units: u64,
    pub jobs_queued: u64,
    pub loaded_units: u64,
    pub masked_units: u64,
    pub mount_units: u64,
    pub not_found_units: u64,
    pub path_units: u64,
    pub scope_units: u64,
    pub service_units: u64,
    pub slice_units: u64,
    pub socket_units: u64,
    pub target_units: u64,
    pub timer_units: u64,
    pub total_units: u64,
    pub service_stats: NameMap<ServiceStats>,
    pub unit_states: NameMap<UnitStates>,
}

/// The report as mathematical values.
pub ghost struct StatsView {
    pub active_units: nat,
    pub automount_units: nat,
    pub device_units: nat,
    pub failed_units: nat,
    pub inactive_units: nat,
    pub jobs_queued: nat,
    pub loaded_units: nat,
    pub masked_units: nat,
    pub mount_units: nat,
    pub not_found_units: nat,
    pub path_units: nat,
    pub scope_units: nat,
    pub service_units: nat,
    pub slice_units: nat,
    pub socket_units: nat,
    pub target_units: nat,
    pub timer_units: nat,
    pub total_units: nat,
    pub service_stats: Map<Seq<char>, ServiceStats>,
    pub unit_states: Map<Seq<char>, UnitStates>,
}

impl View for SystemdUnitStats {
    type V = StatsView;

    open spec fn view(&self) -> StatsView {
        StatsView {
            active_units: self.active_units as nat,
            automount_units: self.automount_units as nat,
            device_units: self.device_units as nat,
            failed_units: self.failed_units as nat,
            inactive_units: self.inactive_units as nat,
            jobs_queued: self.jobs_queued as nat,
            loaded_units: self.loaded_units as nat,
            masked_units: self.masked_units as nat,
            mount_units: self.mount_units as nat,
            not_found_units: self.not_found_units as nat,
            path_units: self.path_units as nat,
            scope_units: self.scope_units as nat,
            service_units: self.service_units as nat,
            slice_units: self.slice_units as nat,
            socket_units: self.socket_units as nat,
            target_units: self.target_units as nat,
            timer_units: self.timer_units as nat,
            total_units: self.total_units as nat,
            service_stats: self.service_stats@,
            unit_states: self.unit_states@,
        }
    }
}

/// The report of a pass that has seen no unit: every counter zero, both maps empty.
pub open spec fn empty_stats() -> StatsView {
    StatsView {
        active_units: 0,
        automount_units: 0,
        device_units: 0,
        failed_units: 0,
        inactive_units: 0,
        jobs_queued: 0,
        loaded_units: 0,
        masked_units: 0,
        mount_units: 0,
        not_found_units: 0,
        path_units: 0,
        scope_units: 0,
        service_units: 0,
        slice_units: 0,
        socket_units: 0,
        target_units: 0,
        timer_units: 0,
        total_units: 0,
        service_stats: Map::empty(),
        unit_states: Map::empty(),
    }
}

/// Every counter of `s` is at most `n`.
pub open spec fn counters_at_most(s: StatsView, n: nat) -> bool {
    &&& s.active_units <= n
    &&& s.automount_units <= n
    &&& s.device_units <= n
    &&& s.failed_units <= n
    &&& s.inactive_units <= n
    &&& s.jobs_queued <= n
    &&& s.loaded_units <= n
    &&& s.masked_units <= n
    &&& s.mount_units <= n
    &&& s.not_found_units <= n
    &&& s.path_units <= n
    &&& s.scope_units <= n
    &&& s.service_units <= n
    &&& s.slice_units <= n
    &&& s.socket_units <= n
    &&& s.target_units <= n
    &&& s.timer_units <= n
}

impl SystemdUnitStats {
    /// Both maps keep their invariant.
    pub open spec fn wf(&self) -> bool {
        self.service_stats.wf() && self.unit_states.wf()
    }

    /// A fresh report: every counter zero and both maps empty.
    pub fn new() -> (r: SystemdUnitStats)
        ensures
            r.wf(),
            r@ == empty_stats(),
    {
        SystemdUnitStats {
            active_units: 0,
            automount_units: 0,
            device_units: 0,
            failed_units: 0,
            inactive_units: 0,
            jobs_queued: 0,
            loaded_units: 0,
            masked_units: 0,
            mount_units: 0,
            not_found_units: 0,
            path_units: 0,
            scope_units: 0,
            service_units: 0,
            slice_units: 0,
            socket_units: 0,
            target_units: 0,
            timer_units: 0,
            total_units: 0,
            service_stats: NameMap::new(),
            unit_states: NameMap::new(),
        }
    }
}

impl Default for SystemdUnitStats {
    fn default() -> (r: SystemdUnitStats)
        ensures
            r.wf(),
            r@ == empty_stats(),
    {
        SystemdUnitStats::new()
    }
}

/// The first index at or after `from` where `s` holds `c`, or `s.len()`.
pub open spec fn find_from(s: Seq<char>, c: char, from: int) -> int
    decreases s.len() - from,
{
    if from < 0 || from >= s.len() {
        s.len() as int
    } else if s[from] == c {
        from
    } else {
        find_from(s, c, from + 1)
    }
}

/// The type token of a unit name: its second `.`-separated segment, where the
/// name has a `.` at all.
pub open spec fn unit_type(name: Seq<char>) -> Option<Seq<char>> {
    let first = find_from(name, '.', 0);
    if first >= name.len() {
        None
    } else {
        Some(name.subrange(first + 1, find_from(name, '.', first + 1)))
    }
}

/// Whether a unit name has type token `t`.
pub open spec fn has_type(name: Seq<char>, t: Seq<char>) -> bool {
    unit_type(name) == Some(t)
}

/// 1 where `b` holds, else 0.
pub open spec fn one_if(b: bool) -> nat {
    if b { 1 } else { 0 }
}

/// The report after counting one unit by type, load state, active state and
/// queued job; the maps and `total_units` are left as they are.
pub open spec fn count_unit(s: StatsView, u: UnitRecordView) -> StatsView {
    StatsView {
        automount_units: s.automount_units + one_if(has_type(u.name, "automount"@)),
        device_units: s.device_units + one_if(has_type(u.name, "device"@)),
        mount_units: s.mount_units + one_if(has_type(u.name, "mount"@)),
        path_units: s.path_units + one_if(has_type(u.name, "path"@)),
        scope_units: s.scope_units + one_if(has_type(u.name, "scope"@)),
        service_units: s.service_units + one_if(has_type(u.name, "service"@)),
        slice_units: s.slice_units + one_if(has_type(u.name, "slice"@)),
        socket_units: s.socket_units + one_if(has_type(u.name, "socket"@)),
        target_units: s.target_units + one_if(has_type(u.name, "target"@)),
        timer_units: s.timer_units + one_if(has_type(u.name, "timer"@)),
        loaded_units: s.loaded_units + one_if(u.load_state == "loaded"@),
        masked_units: s.masked_units + one_if(u.load_state == "masked"@),
        not_found_units: s.not_found_units + one_if(u.load_state == "not-found"@),
        active_units: s.active_units + one_if(u.active_state == "active"@),
        failed_units: s.failed_units + one_if(u.active_state == "failed"@),
        inactive_units: s.inactive_units + one_if(u.active_state == "inactive"@),
        jobs_queued: s.jobs_queued + one_if(u.job_id != 0),
        ..s
    }
}

/// The first index at or after `from` where `a` holds a `.`, or `a.len()`.
fn find_dot(a: &Vec<char>, from: usize) -> (r: usize)
    requires
        from <= a@.len(),
    ensures
        r as int == find_from(a@, '.', from as int),
        from <= r <= a@.len(),
{
    let mut j: usize = from;
    while j < a.len() && a[j] != '.'
        invariant
            from <= j <= a@.len(),
            find_from(a@, '.', from as int) == find_from(a@, '.', j as int),
        decreases a@.len() - j,
    {
        j = j + 1;
    }
    j
}

/// Whether the characters of `a` in `[lo, hi)` are exactly those of `lit`.
fn range_is(a: &Vec<char>, lo: usize, hi: usize, lit: &str) -> (r: bool)
    requires
        lo <= hi <= a@.len(),
    ensures
        r == (a@.subrange(lo as int, hi as int) == lit@),
{
    let l = chars_of(lit);
    range_eq(a, lo, hi, &l)
}

/// Counts one unit: by its type token, its load state, its active state and
/// whether it has a queued job. Tokens outside the counted ones are ignored.
pub fn parse_unit(stats: &mut SystemdUnitStats, unit: &UnitRecord)
    requires
        counters_at_most(old(stats)@, (u64::MAX - 1) as nat),
    ensures
        final(stats)@ == count_unit(old(stats)@, unit@),
        final(stats).service_stats == old(stats).service_stats,
        final(stats).unit_states == old(stats).unit_states,
{
    let name = chars_of(unit.name.as_str());
    let first = find_dot(&name, 0);
    if first < name.len() {
        let second = find_dot(&name, first + 1);
        let lo = first + 1;
        assert(unit_type(unit.name@) == Some(name@.subrange(lo as int, second as int)));
        if range_is(&name, lo, second, "automount") {
            stats.automount_units = stats.automount_units + 1;
        } else if range_is(&name, lo, second, "device") {
            stats.device_units = stats.device_units + 1;
        } else if range_is(&name, lo, second, "mount") {
            stats.mount_units = stats.mount_units + 1;
        } else if range_is(&name, lo, second, "path") {
            stats.path_units = stats.path_units + 1;
        } else if range_is(&name, lo, second, "scope") {
            stats.scope_units = stats.scope_units + 1;
        } else if range_is(&name, lo, second, "service") {
            stats.service_units = stats.service_units + 1;
        } else if range_is(&name, lo, second, "slice") {
            stats.slice_units = stats.slice_units + 1;
        } else if range_is(&name, lo, second, "socket") {
            stats.socket_units = stats.socket_units + 1;
        } else if range_is(&name, lo, second, "target") {
            stats.target_units = stats.target_units + 1;
        } else if range_is(&name, lo, second, "timer") {
            stats.timer_units = stats.timer_units + 1;
        }
    }
    let load = chars_of(unit.load_state.as_str());
    if chars_is(&load, "loaded") {
        stats.loaded_units = stats.loaded_units + 1;
    } else if chars_is(&load, "masked") {
        stats.masked_units = stats.masked_units + 1;
    } else if chars_is(&load, "not-found") {
        stats.not_found_units = stats.not_found_units + 1;
    }
    let active = chars_of(unit.active_state.as_str());
    if chars_is(&active, "active") {
        stats.active_units = stats.active_units + 1;
    } else if chars_is(&active, "failed") {
        stats.failed_units = stats.failed_units + 1;
    } else if chars_is(&active, "inactive") {
        stats.inactive_units = stats.inactive_units + 1;
    }
    if unit.job_id != 0 {
        stats.jobs_queued = stats.jobs_queued + 1;
    }
    proof {
        reveal_strlit("automount");
        reveal_strlit("device");
        reveal_strlit("mount");
        reveal_strlit("path");
        reveal_strlit("scope");
        reveal_strlit("service");
        reveal_strlit("slice");
        reveal_strlit("socket");
        reveal_strlit("target");
        reveal_strlit("timer");
        reveal_strlit("loaded");
        reveal_strlit("masked");
        reveal_strlit("not-found");
        reveal_strlit("active");
        reveal_strlit("failed");
        reveal_strlit("inactive");
        assert("automount"@.len() == 9 && "device"@.len() == 6 && "mount"@.len() == 5);
        assert("path"@.len() == 4 && "scope"@.len() == 5 && "service"@.len() == 7);
        assert("slice"@.len() == 5 && "socket"@.len() == 6 && "target"@.len() == 6);
        assert("timer"@.len() == 5);
        assert("mount"@[0] == 'm' && "scope"@[0] == 's' && "slice"@[0] == 's');
        assert("timer"@[0] == 't' && "scope"@[1] == 'c' && "slice"@[1] == 'l');
        assert("device"@[0] == 'd' && "socket"@[0] == 's' && "target"@[0] == 't');
        assert("loaded"@.len() == 6 && "masked"@.len() == 6 && "not-found"@.len() == 9);
        assert("loaded"@[0] == 'l' && "masked"@[0] == 'm');
        assert("active"@.len() == 6 && "failed"@.len() == 6 && "inactive"@.len() == 8);
        assert("active"@[0] == 'a' && "failed"@[0] == 'f');
    }
}

/// Whether a unit gets a per-unit state record: it is not on the block list,
/// and it is on the allow list where that list is not empty.
pub open spec fn state_recorded(name: Seq<char>, allow: Seq<String>, block: Seq<String>) -> bool {
    !list_has(block, name) && (allow.len() == 0 || list_has(allow, name))
}

/// The state record of a unit: its parsed active and load states, the load
/// token read with hyphens as underscores, and the health verdict on them.
pub open spec fn unit_states_of(u: UnitRecordView) -> UnitStates {
    let a = SystemdUnitActiveState::spec_parse(u.active_state);
    let l = SystemdUnitLoadState::spec_parse(normalize_token(u.load_state));
    UnitStates { active_state: a, load_state: l, unhealthy: spec_is_unhealthy(a, l) }
}

/// The report after the per-unit state pass on one unit.
pub open spec fn record_state(
    s: StatsView,
    u: UnitRecordView,
    allow: Seq<String>,
    block: Seq<String>,
) -> StatsView {
    if state_recorded(u.name, allow, block) {
        StatsView { unit_states: s.unit_states.insert(u.name, unit_states_of(u)), ..s }
    } else {
        s
    }
}

/// Records the active and load state of one unit under its name, unless the
/// block list holds it, or a non-empty allow list does not.
pub fn parse_state(
    stats: &mut SystemdUnitStats,
    unit: &UnitRecord,
    allowlist: &[String],
    blocklist: &[String],
)
    requires
        old(stats).wf(),
    ensures
        final(stats).wf(),
        final(stats)@ == record_state(old(stats)@, unit@, allowlist@, blocklist@),
        final(stats).service_stats == old(stats).service_stats,
{
    if list_contains(blocklist, &unit.name) {
        return;
    }
    if allowlist.len() != 0 && !list_contains(allowlist, &unit.name) {
        return;
    }
    let active_state = SystemdUnitActiveState::from_token(unit.active_state.as_str());
    let load_state = SystemdUnitLoadState::from_wire_token(unit.load_state.as_str());
    let unhealthy = is_unit_unhealthy(active_state, load_state);
    stats.unit_states.insert(unit.name.clone(), UnitStates { active_state, load_state, unhealthy });
}

/// The report after one service's metrics were read: a successful read is
/// stored under the unit's name, a failed one leaves the report as it is.
pub open spec fn record_service(s: StatsView, name: Seq<char>, read: Option<ServiceStats>) -> StatsView {
    match read {
        Some(v) => StatsView { service_stats: s.service_stats.insert(name, v), ..s },
        None => s,
    }
}

/// Records the outcome of reading one service's metrics.
pub fn record_service_stats(stats: &mut SystemdUnitStats, name: &String, read: Option<ServiceStats>)
    requires
        old(stats).wf(),
    ensures
        final(stats).wf(),
        final(stats)@ == record_service(old(stats)@, name@, read),
{
    if let Some(v) = read {
        stats.service_stats.insert(name.clone(), v);
    }
}

/// Which units a pass records per-unit states for.
#[derive(Clone, Debug, Default, PartialEq, Eq)]
pub struct UnitsConfig {
    /// Whether the per-unit state pass runs at all.
    pub state_stats: bool,
    pub state_stats_allowlist: Vec<String>,
    pub state_stats_blocklist: Vec<String>,
}

/// The report after one unit of a pass: counted, then its state recorded where
/// the configuration asks for it.
pub open spec fn fold_unit(s: StatsView, u: UnitRecordView, cfg: UnitsConfig) -> StatsView {
    let c = count_unit(s, u);
    if cfg.state_stats {
        record_state(c, u, cfg.state_stats_allowlist@, cfg.state_stats_blocklist@)
    } else {
        c
    }
}

/// `start` after folding the units in order.
pub open spec fn fold_units(start: StatsView, units: Seq<UnitRecord>, cfg: UnitsConfig) -> StatsView
    decreases units.len(),
{
    if units.len() == 0 {
        start
    } else {
        fold_unit(fold_units(start, units.drop_last(), cfg), units.last()@, cfg)
    }
}

/// The report of a pass over `units`.
pub open spec fn unit_report(units: Seq<UnitRecord>, cfg: UnitsConfig) -> StatsView {
    fold_units(StatsView { total_units: units.len(), ..empty_stats() }, units, cfg)
}

/// Builds the report of one pass over the listed units: `total_units` is their
/// number, every unit is counted, and per-unit states are recorded where the
/// configuration enables them.
pub fn parse_unit_state(units: &[UnitRecord], config: &UnitsConfig) -> (r: SystemdUnitStats)
    ensures
        r.wf(),
        r@ == unit_report(units@, *config),
{
    let mut stats = SystemdUnitStats::new();
    stats.total_units = units.len() as u64;
    let ghost start = stats@;
    let mut i: usize = 0;
    while i < units.len()
        invariant
            i <= units@.len(),
            start == (StatsView { total_units: units@.len(), ..empty_stats() }),
            stats.wf(),
            stats@ == fold_units(start, units@.subrange(0, i as int), *config),
            counters_at_most(stats@, i as nat),
        decreases units@.len() - i,
    {
        let ghost before = stats@;
        parse_unit(&mut stats, &units[i]);
        if config.state_stats {
            parse_state(
                &mut stats,
                &units[i],
                config.state_stats_allowlist.as_slice(),
                config.state_stats_blocklist.as_slice(),
            );
        }
        assert(units@.subrange(0, i + 1).drop_last() =~= units@.subrange(0, i as int));
        i = i + 1;
    }
    assert(units@.subrange(0, units@.len() as int) =~= units@);
    stats
}

/// A pass over no units leaves the fresh report as it is, `total_units` zero.
pub proof fn lemma_empty_pass(cfg: UnitsConfig)
    ensures
        unit_report(Seq::empty(), cfg) == empty_stats(),
{
    assert(StatsView { total_units: 0, ..empty_stats() } == empty_stats());
}

/// The number of units with a queued job.
pub open spec fn queued_units(units: Seq<UnitRecord>) -> nat
    decreases units.len(),
{
    if units.len() == 0 {
        0
    } else {
        queued_units(units.drop_last()) + one_if(units.last().job_id != 0)
    }
}

/// Folding units adds to `jobs_queued` once for each unit with a non-zero job id.
pub proof fn lemma_fold_jobs_queued(start: StatsView, units: Seq<UnitRecord>, cfg: UnitsConfig)
    ensures
        fold_units(start, units, cfg).jobs_queued == start.jobs_queued + queued_units(units),
    decreases units.len(),
{
    if units.len() > 0 {
        lemma_fold_jobs_queued(start, units.drop_last(), cfg);
    }
}

/// A report's `jobs_queued` is the number of its units with a non-zero job id.
pub proof fn lemma_report_jobs_queued(units: Seq<UnitRecord>, cfg: UnitsConfig)
    ensures
        unit_report(units, cfg).jobs_queued == queued_units(units),
{
    lemma_fold_jobs_queued(StatsView { total_units: units.len(), ..empty_stats() }, units, cfg);
}

/// Two passes over enumerations that read the same, unit by unit, from two
/// fresh reports give the same report.
pub proof fn lemma_report_deterministic(
    a: Seq<UnitRecord>,
    b: Seq<UnitRecord>,
    cfg: UnitsConfig,
)
    requires
        a.len() == b.len(),
        forall|i: int| 0 <= i < a.len() ==> (#[trigger] a[i])@ == b[i]@,
    ensures
        unit_report(a, cfg) == unit_report(b, cfg),
{
    lemma_fold_deterministic(StatsView { total_units: a.len(), ..empty_stats() }, a, b, cfg);
}

proof fn lemma_fold_deterministic(
    start: StatsView,
    a: Seq<UnitRecord>,
    b: Seq<UnitRecord>,
    cfg: UnitsConfig,
)
    requires
        a.len() == b.len(),
        forall|i: int| 0 <= i < a.len() ==> (#[trigger] a[i])@ == b[i]@,
    ensures
        fold_units(start, a, cfg) == fold_units(start, b, cfg),
    decreases a.len(),
{
    if a.len() > 0 {
        assert forall|i: int| 0 <= i < a.drop_last().len() implies (
        #[trigger] a.drop_last()[i])@ == b.drop_last()[i]@ by {
            assert(a[i]@ == b[i]@);
        }
        lemma_fold_deterministic(start, a.drop_last(), b.drop_last(), cfg);
        assert(a.last()@ == b.last()@);
    }
}

} // verus!

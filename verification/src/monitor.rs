//! Monitoring vocabulary: alert severities, health states, and the health
//! table that components report into.
use vstd::prelude::*;

verus! {

/// Alert severity level.
#[derive(Debug, Clone, Copy, PartialEq, Eq, Structural)]
pub enum AlertSeverity {
    /// Informational alert.
    Info,
    /// Warning - requires attention.
    Warning,
    /// Critical - immediate action needed.
    Critical,
    /// Emergency - trading should be halted.
    Emergency,
}

/// Health check status.
#[derive(Debug, Clone, Copy, PartialEq, Eq, Structural)]
pub enum HealthStatus {
    /// System is healthy.
    Healthy,
    /// System is degraded but operational.
    Degraded,
    /// System is unhealthy.
    Unhealthy,
    /// Health check failed.
    Unknown,
}

/// Component health.
#[derive(Debug, Clone)]
pub struct ComponentHealth {
    /// Component name.
    pub name: String,
    /// Health status.
    pub status: HealthStatus,
    /// Last heartbeat timestamp.
    pub last_heartbeat: u64,
    /// Latency in milliseconds.
    pub latency_ms: Option<u64>,
    /// Error message if unhealthy.
    pub error: Option<String>,
}

impl ComponentHealth {
    /// A healthy component seen at `now_ms`, as a heartbeat reports it.
    pub fn heartbeat(name: &str, latency_ms: Option<u64>, now_ms: u64) -> (c: Self)
        ensures
            c.name@ == name@,
            c.status == HealthStatus::Healthy,
            c.last_heartbeat == now_ms,
            c.latency_ms == latency_ms,
            c.error is None,
    {
        ComponentHealth {
            name: String::from_str(name),
            status: HealthStatus::Healthy,
            last_heartbeat: now_ms,
            latency_ms,
            error: None,
        }
    }
}

/// Some component has the status.
pub open spec fn some_status(cs: Seq<ComponentHealth>, s: HealthStatus) -> bool {
    exists|i: int| 0 <= i < cs.len() && (#[trigger] cs[i]).status == s
}

/// The overall status of a set of components: unknown when there are none,
/// unhealthy if any is unhealthy, else degraded if any is degraded, else
/// healthy.
pub open spec fn spec_overall_health(cs: Seq<ComponentHealth>) -> HealthStatus {
    if cs.len() == 0 {
        HealthStatus::Unknown
    } else if some_status(cs, HealthStatus::Unhealthy) {
        HealthStatus::Unhealthy
    } else if some_status(cs, HealthStatus::Degraded) {
        HealthStatus::Degraded
    } else {
        HealthStatus::Healthy
    }
}

/// Computes the overall status of a set of components.
pub fn calculate_overall_health(components: &Vec<ComponentHealth>) -> (h: HealthStatus)
    ensures
        h == spec_overall_health(components@),
{
    if components.len() == 0 {
        return HealthStatus::Unknown;
    }
    let mut unhealthy = false;
    let mut degraded = false;
    let mut i: usize = 0;
    while i < components.len()
        invariant
            i <= components.len(),
            unhealthy == some_status(components@.subrange(0, i as int), HealthStatus::Unhealthy),
            degraded == some_status(components@.subrange(0, i as int), HealthStatus::Degraded),
        decreases components.len() - i,
    {
        let ghost pre = components@.subrange(0, i as int);
        let ghost post = components@.subrange(0, i + 1);
        assert(post == pre.push(components@[i as int]));
        assert forall|s: HealthStatus| some_status(post, s) <==> (some_status(pre, s) || components@[i as int].status == s) by {
            if some_status(post, s) {
                let j = choose|j: int| 0 <= j < post.len() && post[j].status == s;
                if j < pre.len() {
                    assert(pre[j] == post[j]);
                }
            }
            if some_status(pre, s) {
                let j = choose|j: int| 0 <= j < pre.len() && pre[j].status == s;
                assert(post[j] == pre[j]);
            }
            if components@[i as int].status == s {
                assert(post[i as int] == components@[i as int]);
            }
        }
        match components[i].status {
            HealthStatus::Unhealthy => { unhealthy = true; },
            HealthStatus::Degraded => { degraded = true; },
            _ => {},
        }
        i = i + 1;
    }
    assert(components@.subrange(0, components.len() as int) == components@);
    if unhealthy {
        HealthStatus::Unhealthy
    } else if degraded {
        HealthStatus::Degraded
    } else {
        HealthStatus::Healthy
    }
}

/// The position of the first component with this name at or after `start`.
pub open spec fn first_named_from(cs: Seq<ComponentHealth>, name: Seq<char>, start: int) -> Option<int>
    decreases cs.len() - start,
{
    if start < 0 || start >= cs.len() {
        None
    } else if cs[start].name@ == name {
        Some(start)
    } else {
        first_named_from(cs, name, start + 1)
    }
}

/// The position of the first component with this name, if any.
pub open spec fn first_named(cs: Seq<ComponentHealth>, name: Seq<char>) -> Option<int> {
    first_named_from(cs, name, 0)
}

/// Skipping positions that do not hold the name does not change the answer.
pub proof fn lemma_first_named_skip(cs: Seq<ComponentHealth>, name: Seq<char>, i: int)
    requires
        0 <= i <= cs.len(),
        forall|j: int| 0 <= j < i ==> (#[trigger] cs[j]).name@ != name,
    ensures
        first_named(cs, name) == first_named_from(cs, name, i),
    decreases i,
{
    if i > 0 {
        lemma_first_named_skip(cs, name, i - 1);
        assert(cs[i - 1].name@ != name);
    }
}

/// The component list after reporting `c`: it replaces the first component
/// with the same name, or is appended when there is none.
pub open spec fn spec_upserted(cs: Seq<ComponentHealth>, c: ComponentHealth) -> Seq<ComponentHealth> {
    match first_named(cs, c.name@) {
        Some(i) => cs.update(i, c),
        None => cs.push(c),
    }
}

/// System health snapshot.
#[derive(Debug, Clone)]
pub struct SystemHealth {
    /// Overall status.
    pub status: HealthStatus,
    /// Component health statuses.
    pub components: Vec<ComponentHealth>,
    /// Last update timestamp.
    pub timestamp: u64,
    /// Uptime in seconds.
    pub uptime_secs: u64,
}

impl SystemHealth {
    /// An empty health table.
    pub fn new() -> (h: Self)
        ensures
            h.status == HealthStatus::Unknown,
            h.components@.len() == 0,
            h.timestamp == 0,
            h.uptime_secs == 0,
    {
        SystemHealth { status: HealthStatus::Unknown, components: Vec::new(), timestamp: 0, uptime_secs: 0 }
    }

    /// Records a component report at `timestamp_ms` (a monitor started at
    /// `start_ms`, clock read again as `now_ms` for the uptime): the report
    /// replaces the component of the same name or is added, and the overall
    /// status, timestamp and uptime are recomputed.
    pub fn update_component(&mut self, component: ComponentHealth, timestamp_ms: u64, now_ms: u64, start_ms: u64)
        requires
            start_ms <= now_ms,
        ensures
            final(self).components@ == spec_upserted(old(self).components@, component),
            final(self).status == spec_overall_health(final(self).components@),
            final(self).timestamp == timestamp_ms,
            final(self).uptime_secs == (now_ms - start_ms) / 1000,
    {
        let ghost old_cs = self.components@;
        let mut i: usize = 0;
        let mut found: Option<usize> = None;
        while i < self.components.len()
            invariant_except_break
                i <= self.components.len(),
                found is None,
                forall|j: int| 0 <= j < i ==> (#[trigger] self.components@[j]).name@ != component.name@,
            invariant
                self.components@ == old_cs,
            ensures
                found matches Some(k) ==> k < self.components.len()
                    && self.components@[k as int].name@ == component.name@
                    && forall|j: int| 0 <= j < k ==> (#[trigger] self.components@[j]).name@ != component.name@,
                found is None ==> forall|j: int| 0 <= j < self.components.len()
                    ==> (#[trigger] self.components@[j]).name@ != component.name@,
            decreases self.components.len() - i,
        {
            if self.components[i].name == component.name {
                found = Some(i);
                break;
            }
            i = i + 1;
        }
        proof {
            match found {
                Some(k) => {
                    lemma_first_named_skip(old_cs, component.name@, k as int);
                },
                None => {
                    lemma_first_named_skip(old_cs, component.name@, old_cs.len() as int);
                },
            }
        }
        match found {
            Some(k) => {
                self.components.set(k, component);
            },
            None => {
                self.components.push(component);
            },
        }
        self.status = calculate_overall_health(&self.components);
        self.timestamp = timestamp_ms;
        self.uptime_secs = (now_ms - start_ms) / 1000;
    }
}

/// Reporting a component twice in a row leaves the table as reporting it
/// once: the second report replaces the first.
pub proof fn lemma_report_idempotent(cs: Seq<ComponentHealth>, c: ComponentHealth)
    ensures
        spec_upserted(spec_upserted(cs, c), c) == spec_upserted(cs, c),
{
    let once = spec_upserted(cs, c);
    let k = lemma_report_position(cs, c);
    assert forall|j: int| 0 <= j < k implies (#[trigger] once[j]).name@ != c.name@ by {
        assert(once[j] == cs[j]);
    }
    lemma_first_named_skip(once, c.name@, k);
    assert(once.update(k, c) =~= once);
}

/// Where a report lands: at the first component of the same name, or at the
/// end; every component before it has another name.
pub proof fn lemma_report_position(cs: Seq<ComponentHealth>, c: ComponentHealth) -> (k: int)
    ensures
        0 <= k < spec_upserted(cs, c).len(),
        spec_upserted(cs, c)[k] == c,
        k <= cs.len(),
        forall|j: int| 0 <= j < k ==> (#[trigger] cs[j]).name@ != c.name@,
        spec_upserted(cs, c).len() == cs.len() + (if k == cs.len() { 1int } else { 0 }),
        forall|j: int| 0 <= j < cs.len() && j != k ==> #[trigger] spec_upserted(cs, c)[j] == cs[j],
{
    lemma_first_named_shape(cs, c.name@, 0);
    match first_named(cs, c.name@) {
        Some(i) => i,
        None => cs.len() as int,
    }
}

/// What the first-position search finds from `start`: a holder of the name
/// with no holder between `start` and it, or no holder at all.
proof fn lemma_first_named_shape(cs: Seq<ComponentHealth>, name: Seq<char>, start: int)
    requires
        0 <= start <= cs.len(),
    ensures
        first_named_from(cs, name, start) matches Some(i) ==> start <= i < cs.len() && cs[i].name@ == name
            && forall|j: int| start <= j < i ==> (#[trigger] cs[j]).name@ != name,
        first_named_from(cs, name, start) is None ==> forall|j: int| start <= j < cs.len()
            ==> (#[trigger] cs[j]).name@ != name,
    decreases cs.len() - start,
{
    if start < cs.len() && cs[start].name@ != name {
        lemma_first_named_shape(cs, name, start + 1);
    }
}

/// The largest latency reported by any component, 0 when none reports one.
pub open spec fn spec_max_latency(cs: Seq<ComponentHealth>) -> nat
    decreases cs.len(),
{
    if cs.len() == 0 {
        0
    } else {
        let rest = spec_max_latency(cs.drop_last());
        match cs.last().latency_ms {
            Some(l) => if l > rest { l as nat } else { rest },
            None => rest,
        }
    }
}

/// The largest latency reported by any component, 0 when none reports one.
pub fn max_latency(components: &Vec<ComponentHealth>) -> (m: u64)
    ensures
        m == spec_max_latency(components@),
{
    let mut m: u64 = 0;
    let mut i: usize = 0;
    while i < components.len()
        invariant
            i <= components.len(),
            m == spec_max_latency(components@.subrange(0, i as int)),
        decreases components.len() - i,
    {
        let ghost pre = components@.subrange(0, i as int);
        let ghost post = components@.subrange(0, i + 1);
        assert(post.drop_last() == pre);
        assert(post.last() == components@[i as int]);
        match components[i].latency_ms {
            Some(l) => {
                if l > m {
                    m = l;
                }
            },
            None => {},
        }
        i = i + 1;
    }
    assert(components@.subrange(0, components.len() as int) == components@);
    m
}

/// Whether some component is unhealthy (a lost connection).
pub fn any_unhealthy(components: &Vec<ComponentHealth>) -> (b: bool)
    ensures
        b == some_status(components@, HealthStatus::Unhealthy),
{
    let mut i: usize = 0;
    while i < components.len()
        invariant
            i <= components.len(),
            !some_status(components@.subrange(0, i as int), HealthStatus::Unhealthy),
        decreases components.len() - i,
    {
        if components[i].status == HealthStatus::Unhealthy {
            assert(components@[i as int].status == HealthStatus::Unhealthy);
            return true;
        }
        let ghost pre = components@.subrange(0, i as int);
        let ghost post = components@.subrange(0, i + 1);
        assert(!some_status(post, HealthStatus::Unhealthy)) by {
            if some_status(post, HealthStatus::Unhealthy) {
                let j = choose|j: int| 0 <= j < post.len() && post[j].status == HealthStatus::Unhealthy;
                if j < i {
                    assert(pre[j] == post[j]);
                }
            }
        }
        i = i + 1;
    }
    assert(components@.subrange(0, components.len() as int) == components@);
    false
}

/// An alert last raised at `last_trigger_ms` is still cooling down at
/// `now_ms` when fewer than `cooldown_secs` seconds have passed; one never
/// raised is not.
pub open spec fn spec_in_cooldown(now_ms: u64, last_trigger_ms: Option<u64>, cooldown_secs: u64) -> bool {
    match last_trigger_ms {
        Some(last) => now_ms - last < cooldown_secs * 1000,
        None => false,
    }
}

/// Whether an alert is still cooling down and must not be raised again.
pub fn in_cooldown(now_ms: u64, last_trigger_ms: Option<u64>, cooldown_secs: u64) -> (b: bool)
    requires
        cooldown_secs * 1000 <= u64::MAX,
        last_trigger_ms matches Some(last) ==> last <= now_ms,
    ensures
        b == spec_in_cooldown(now_ms, last_trigger_ms, cooldown_secs),
{
    match last_trigger_ms {
        Some(last) => now_ms - last < cooldown_secs * 1000,
        None => false,
    }
}

} // verus!

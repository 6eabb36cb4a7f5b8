//! The polling/debounce watcher state machine: a structural comparison key
//! over a snapshot's meaningful fields, the per-cycle transition that stages
//! a changed snapshot and delivers it once its key has stabilized for the
//! debounce window, and the shared stop flag of the background loop.

use vstd::prelude::*;

use std::sync::Arc;
use std::sync::atomic::AtomicBool;
use std::sync::atomic::Ordering;

use crate::focus::FocusConfidenceLevel;
use crate::focus::FocusContextSnapshot;
use crate::focus::view_opt_string;

verus! {

/// Fixed delay between two polls of the backend, in milliseconds.
pub const POLL_INTERVAL_MS: u64 = 250;

/// How long a changed key must hold still before it is delivered, in
/// milliseconds.
pub const DEBOUNCE_WINDOW_MS: u64 = 75;

/// Comparison key over a snapshot's meaningful fields. Equality is
/// structural — never a delimiter-joined string — so titles containing any
/// separator text cannot make two distinct states collide.
#[derive(Debug, Clone, PartialEq, Eq)]
pub struct FocusKey {
    pub application: Option<String>,
    pub window: Option<String>,
    pub tab_title: Option<String>,
    pub tab_url: Option<String>,
    pub confidence: FocusConfidenceLevel,
}

/// Mathematical model of a comparison key.
#[verifier::ext_equal]
pub struct KeyModel {
    pub application: Option<Seq<char>>,
    pub window: Option<Seq<char>>,
    pub tab_title: Option<Seq<char>>,
    pub tab_url: Option<Seq<char>>,
    pub confidence: FocusConfidenceLevel,
}

impl View for FocusKey {
    type V = KeyModel;

    open spec fn view(&self) -> KeyModel {
        KeyModel {
            application: view_opt_string(self.application),
            window: view_opt_string(self.window),
            tab_title: view_opt_string(self.tab_title),
            tab_url: view_opt_string(self.tab_url),
            confidence: self.confidence,
        }
    }
}

/// The focused application's display name, as observed by a snapshot.
pub open spec fn spec_application_name(s: FocusContextSnapshot) -> Option<Seq<char>> {
    match s.focused_application {
        Some(a) => Some(a.display_name@),
        None => None,
    }
}

/// The focused window's title, as observed by a snapshot.
pub open spec fn spec_window_title(s: FocusContextSnapshot) -> Option<Seq<char>> {
    match s.focused_window {
        Some(w) => Some(w.title@),
        None => None,
    }
}

/// The inferred browser tab's title, as observed by a snapshot.
pub open spec fn spec_tab_title_field(s: FocusContextSnapshot) -> Option<Seq<char>> {
    match s.focused_browser_tab {
        Some(t) => view_opt_string(t.title),
        None => None,
    }
}

/// The inferred browser tab's URL, as observed by a snapshot.
pub open spec fn spec_tab_url_field(s: FocusContextSnapshot) -> Option<Seq<char>> {
    match s.focused_browser_tab {
        Some(t) => view_opt_string(t.url),
        None => None,
    }
}

/// The comparison key of a snapshot.
pub open spec fn key_of(s: FocusContextSnapshot) -> KeyModel {
    KeyModel {
        application: spec_application_name(s),
        window: spec_window_title(s),
        tab_title: spec_tab_title_field(s),
        tab_url: spec_tab_url_field(s),
        confidence: s.confidence_level,
    }
}

/// Build the comparison key of a snapshot. Used only for equality, never
/// for display.
pub fn build_focus_semantic_key(snapshot: &FocusContextSnapshot) -> (k: FocusKey)
    ensures
        k@ == key_of(*snapshot),
{
    let application = match &snapshot.focused_application {
        Some(a) => Some(a.display_name.clone()),
        None => None,
    };
    let window = match &snapshot.focused_window {
        Some(w) => Some(w.title.clone()),
        None => None,
    };
    let tab_title = match &snapshot.focused_browser_tab {
        Some(t) => match &t.title {
            Some(x) => Some(x.clone()),
            None => None,
        },
        None => None,
    };
    let tab_url = match &snapshot.focused_browser_tab {
        Some(t) => match &t.url {
            Some(x) => Some(x.clone()),
            None => None,
        },
        None => None,
    };
    let k = FocusKey {
        application,
        window,
        tab_title,
        tab_url,
        confidence: snapshot.confidence_level,
    };
    proof {
        assert(k@ =~= key_of(*snapshot));
    }
    k
}

/// Equality of two optional strings, by their characters.
fn opt_string_eq(a: &Option<String>, b: &Option<String>) -> (r: bool)
    ensures
        r == (view_opt_string(*a) == view_opt_string(*b)),
{
    match a {
        Some(x) => match b {
            Some(y) => *x == *y,
            None => false,
        },
        None => b.is_none(),
    }
}

impl FocusKey {
    /// Structural equality of two keys, by the characters of their fields.
    pub fn equals(&self, other: &FocusKey) -> (r: bool)
        ensures
            r == (self@ == other@),
    {
        let r = opt_string_eq(&self.application, &other.application)
            && opt_string_eq(&self.window, &other.window) && opt_string_eq(
            &self.tab_title,
            &other.tab_title,
        ) && opt_string_eq(&self.tab_url, &other.tab_url) && self.confidence == other.confidence;
        proof {
            if r {
                assert(self@ =~= other@);
            }
        }
        r
    }
}

/// Debounce state of one watcher: the key last delivered to the host, the
/// snapshot staged while its key stabilizes, and the time the debounce
/// timer was last re-armed.
pub struct FocusWatcherState {
    pub last_emitted_key: Option<FocusKey>,
    pub last_change_ms: u64,
    pub pending_snapshot: Option<FocusContextSnapshot>,
}

/// Mathematical model of a watcher's debounce state.
#[verifier::ext_equal]
pub struct WatcherModel {
    pub last_emitted: Option<KeyModel>,
    pub last_change_ms: int,
    pub pending: Option<FocusContextSnapshot>,
}

impl View for FocusWatcherState {
    type V = WatcherModel;

    open spec fn view(&self) -> WatcherModel {
        WatcherModel {
            last_emitted: match self.last_emitted_key {
                Some(k) => Some(k@),
                None => None,
            },
            last_change_ms: self.last_change_ms as int,
            pending: self.pending_snapshot,
        }
    }
}

/// The key the watcher is currently waiting on: the staged snapshot's key
/// if one is staged, else the key last emitted.
pub open spec fn awaited_key(m: WatcherModel) -> Option<KeyModel> {
    match m.pending {
        Some(p) => Some(key_of(p)),
        None => m.last_emitted,
    }
}

/// A fresh sample re-arms the debounce timer exactly when its key differs
/// from the awaited key.
pub open spec fn rearms(m: WatcherModel, snap: FocusContextSnapshot) -> bool {
    Some(key_of(snap)) != awaited_key(m)
}

/// The state after the change-detection half of a cycle: a detected change
/// stages the fresh snapshot and re-arms the timer.
pub open spec fn after_rearm(
    m: WatcherModel,
    snap: FocusContextSnapshot,
    now_ms: int,
) -> WatcherModel {
    if rearms(m, snap) {
        WatcherModel { last_emitted: m.last_emitted, last_change_ms: now_ms, pending: Some(snap) }
    } else {
        m
    }
}

/// The snapshot a poll cycle attempts to deliver: the staged snapshot, once
/// its debounce window has elapsed and its key still differs from the key
/// last emitted.
pub open spec fn cycle_attempt(
    m: WatcherModel,
    snap: FocusContextSnapshot,
    now_ms: int,
) -> Option<FocusContextSnapshot> {
    let m1 = after_rearm(m, snap, now_ms);
    match m1.pending {
        Some(p) => if now_ms >= m1.last_change_ms + DEBOUNCE_WINDOW_MS && Some(key_of(p))
            != m1.last_emitted {
            Some(p)
        } else {
            None
        },
        None => None,
    }
}

/// The watcher state after a full poll cycle. An elapsed debounce window
/// always clears the staged snapshot; the emitted key is recorded only when
/// a delivery was attempted and the host accepted it (`delivered`).
pub open spec fn cycle_state(
    m: WatcherModel,
    snap: FocusContextSnapshot,
    now_ms: int,
    delivered: bool,
) -> WatcherModel {
    let m1 = after_rearm(m, snap, now_ms);
    match m1.pending {
        Some(p) => if now_ms >= m1.last_change_ms + DEBOUNCE_WINDOW_MS {
            WatcherModel {
                last_emitted: if Some(key_of(p)) != m1.last_emitted && delivered {
                    Some(key_of(p))
                } else {
                    m1.last_emitted
                },
                last_change_ms: m1.last_change_ms,
                pending: None,
            }
        } else {
            m1
        },
        None => m1,
    }
}

impl FocusWatcherState {
    /// A fresh watcher that has staged and emitted nothing.
    pub fn new(now_ms: u64) -> (s: Self)
        ensures
            s@ == (WatcherModel {
                last_emitted: None,
                last_change_ms: now_ms as int,
                pending: None,
            }),
    {
        let s = FocusWatcherState {
            last_emitted_key: None,
            last_change_ms: now_ms,
            pending_snapshot: None,
        };
        proof {
            assert(s@ =~= (WatcherModel {
                last_emitted: None,
                last_change_ms: now_ms as int,
                pending: None,
            }));
        }
        s
    }

    /// One poll cycle up to the delivery attempt: stage the sample and
    /// re-arm the timer if its key differs from the awaited key, then hand
    /// out the staged snapshot once it has stabilized past the debounce
    /// window, clearing it. The caller reports a successful delivery
    /// through `confirm_emission`; a failed delivery is simply dropped.
    pub fn observe(&mut self, snapshot: &FocusContextSnapshot, now_ms: u64) -> (r: Option<
        FocusContextSnapshot,
    >)
        ensures
            r == cycle_attempt(old(self)@, *snapshot, now_ms as int),
            final(self)@ == cycle_state(old(self)@, *snapshot, now_ms as int, false),
    {
        let key = build_focus_semantic_key(snapshot);
        let rearm = match &self.pending_snapshot {
            Some(p) => {
                let pk = build_focus_semantic_key(p);
                !key.equals(&pk)
            },
            None => match &self.last_emitted_key {
                Some(lk) => !key.equals(lk),
                None => true,
            },
        };
        if rearm {
            self.pending_snapshot = Some(snapshot.duplicate());
            self.last_change_ms = now_ms;
        }
        let ghost m1 = after_rearm(old(self)@, *snapshot, now_ms as int);
        proof {
            assert(self@ =~= m1);
        }
        let expired = match &self.pending_snapshot {
            Some(_) => now_ms >= DEBOUNCE_WINDOW_MS && now_ms - DEBOUNCE_WINDOW_MS
                >= self.last_change_ms,
            None => false,
        };
        if expired {
            let pending = self.pending_snapshot.take();
            if let Some(p) = pending {
                let pk = build_focus_semantic_key(&p);
                let differs = match &self.last_emitted_key {
                    Some(lk) => !pk.equals(lk),
                    None => true,
                };
                proof {
                    assert(self@ =~= cycle_state(old(self)@, *snapshot, now_ms as int, false));
                }
                if differs {
                    return Some(p);
                }
                return None;
            }
            None
        } else {
            proof {
                assert(self@ =~= cycle_state(old(self)@, *snapshot, now_ms as int, false));
            }
            None
        }
    }

    /// Record that the host accepted the delivery of a snapshot whose key
    /// is `key`: that key becomes the one last emitted.
    pub fn confirm_emission(&mut self, key: FocusKey)
        ensures
            final(self)@ == (WatcherModel { last_emitted: Some(key@), ..old(self)@ }),
    {
        self.last_emitted_key = Some(key);
        proof {
            assert(self@ =~= (WatcherModel { last_emitted: Some(key@), ..old(self)@ }));
        }
    }

    /// One full poll cycle against a host sink whose verdict is already
    /// known: the delivery attempt, if any, is returned, and recorded as
    /// emitted exactly when `delivered` holds.
    pub fn poll_cycle(&mut self, snapshot: &FocusContextSnapshot, now_ms: u64, delivered: bool) -> (r:
        Option<FocusContextSnapshot>)
        ensures
            r == cycle_attempt(old(self)@, *snapshot, now_ms as int),
            final(self)@ == cycle_state(old(self)@, *snapshot, now_ms as int, delivered),
    {
        let attempt = self.observe(snapshot, now_ms);
        match attempt {
            Some(p) => {
                if delivered {
                    let k = build_focus_semantic_key(&p);
                    self.confirm_emission(k);
                    proof {
                        assert(self@ =~= cycle_state(
                            old(self)@,
                            *snapshot,
                            now_ms as int,
                            delivered,
                        ));
                    }
                }
                Some(p)
            },
            None => None,
        }
    }
}

/// One modeled poll cycle: the sampled snapshot, the time of the cycle, and
/// whether the host sink would accept a delivery were one attempted.
pub struct PollEvent {
    pub snapshot: FocusContextSnapshot,
    pub now_ms: int,
    pub delivered: bool,
}

/// The watcher state after running a whole sequence of poll cycles.
pub open spec fn run_watcher(m: WatcherModel, events: Seq<PollEvent>) -> WatcherModel
    decreases events.len(),
{
    if events.len() == 0 {
        m
    } else {
        run_watcher(
            cycle_state(m, events[0].snapshot, events[0].now_ms, events[0].delivered),
            events.drop_first(),
        )
    }
}

/// The snapshots delivered to the host over a whole sequence of poll
/// cycles, in order.
pub open spec fn emissions(m: WatcherModel, events: Seq<PollEvent>) -> Seq<FocusContextSnapshot>
    decreases events.len(),
{
    if events.len() == 0 {
        Seq::empty()
    } else {
        let e = events[0];
        let head: Seq<FocusContextSnapshot> = match cycle_attempt(m, e.snapshot, e.now_ms) {
            Some(p) => if e.delivered {
                seq![p]
            } else {
                Seq::empty()
            },
            None => Seq::empty(),
        };
        head + emissions(cycle_state(m, e.snapshot, e.now_ms, e.delivered), events.drop_first())
    }
}

/// Law (key purity): two snapshots have equal comparison keys exactly when
/// their five observed fields — application display name, window title, tab
/// title, tab URL and confidence level — all agree; changing any one field
/// changes the key.
pub proof fn lemma_key_purity(a: FocusContextSnapshot, b: FocusContextSnapshot)
    ensures
        (key_of(a) == key_of(b)) <==> {
            &&& spec_application_name(a) == spec_application_name(b)
            &&& spec_window_title(a) == spec_window_title(b)
            &&& spec_tab_title_field(a) == spec_tab_title_field(b)
            &&& spec_tab_url_field(a) == spec_tab_url_field(b)
            &&& a.confidence_level == b.confidence_level
        },
{
    if spec_application_name(a) == spec_application_name(b) && spec_window_title(a)
        == spec_window_title(b) && spec_tab_title_field(a) == spec_tab_title_field(b)
        && spec_tab_url_field(a) == spec_tab_url_field(b) && a.confidence_level
        == b.confidence_level {
        assert(key_of(a) =~= key_of(b));
    }
}

/// Law (debounce, oscillation half): while every fresh sample's key differs
/// from the key the watcher is waiting on — the key changes on every poll —
/// nothing is ever delivered, whatever the cycle times and sink verdicts.
pub proof fn lemma_oscillation_never_emits(m: WatcherModel, events: Seq<PollEvent>)
    requires
        events.len() > 0 ==> Some(key_of(events[0].snapshot)) != awaited_key(m),
        forall|i: int|
            0 < i < events.len() ==> key_of((#[trigger] events[i]).snapshot) != key_of(
                events[i - 1].snapshot,
            ),
    ensures
        emissions(m, events) =~= Seq::<FocusContextSnapshot>::empty(),
    decreases events.len(),
{
    if events.len() > 0 {
        let e = events[0];
        let rest = events.drop_first();
        assert(rearms(m, e.snapshot));
        let m1 = after_rearm(m, e.snapshot, e.now_ms);
        // the timer was just re-armed, so it cannot have expired in the same cycle
        assert(!(e.now_ms >= m1.last_change_ms + DEBOUNCE_WINDOW_MS));
        assert(cycle_attempt(m, e.snapshot, e.now_ms) is None);
        assert(cycle_state(m, e.snapshot, e.now_ms, e.delivered) == m1);
        assert forall|i: int|
            0 < i < rest.len() implies key_of((#[trigger] rest[i]).snapshot) != key_of(
            rest[i - 1].snapshot,
        ) by {
            assert(rest[i] == events[i + 1]);
            assert(rest[i - 1] == events[i]);
        }
        if rest.len() > 0 {
            assert(rest[0] == events[1]);
            assert(key_of(events[1].snapshot) != key_of(events[0].snapshot));
            assert(awaited_key(m1) == Some(key_of(e.snapshot)));
        }
        lemma_oscillation_never_emits(m1, rest);
    }
}

/// Law (at most one per value): once a key has been emitted and nothing is
/// staged, polls that keep returning that same key never deliver again and
/// leave the watcher unchanged.
pub proof fn lemma_no_reemission(m: WatcherModel, events: Seq<PollEvent>, k: KeyModel)
    requires
        m.last_emitted == Some(k),
        m.pending is None,
        forall|i: int| 0 <= i < events.len() ==> key_of((#[trigger] events[i]).snapshot) == k,
    ensures
        emissions(m, events) =~= Seq::<FocusContextSnapshot>::empty(),
        run_watcher(m, events) == m,
    decreases events.len(),
{
    if events.len() > 0 {
        let e = events[0];
        let rest = events.drop_first();
        assert(awaited_key(m) == Some(k));
        assert(!rearms(m, e.snapshot));
        assert(after_rearm(m, e.snapshot, e.now_ms) == m);
        assert(cycle_attempt(m, e.snapshot, e.now_ms) is None);
        assert(cycle_state(m, e.snapshot, e.now_ms, e.delivered) == m);
        assert forall|i: int|
            0 <= i < rest.len() implies key_of((#[trigger] rest[i]).snapshot) == k by {
            assert(rest[i] == events[i + 1]);
        }
        lemma_no_reemission(m, rest, k);
    }
}

/// Law (debounce, stability half): while the watcher waits on a staged
/// snapshot and every poll keeps returning its key with a willing sink,
/// that snapshot is delivered exactly once, at the first cycle falling past
/// the debounce window, and never before.
pub proof fn lemma_waiting_stable_run(
    m: WatcherModel,
    events: Seq<PollEvent>,
    p: FocusContextSnapshot,
    k: KeyModel,
)
    requires
        m.pending == Some(p),
        key_of(p) == k,
        m.last_emitted != Some(k),
        forall|i: int| 0 <= i < events.len() ==> key_of((#[trigger] events[i]).snapshot) == k,
        forall|i: int| 0 <= i < events.len() ==> (#[trigger] events[i]).delivered,
    ensures
        (exists|i: int|
            0 <= i < events.len() && (#[trigger] events[i]).now_ms >= m.last_change_ms
                + DEBOUNCE_WINDOW_MS) ==> (emissions(m, events) =~= seq![p] && run_watcher(m, events)
            == (WatcherModel {
            last_emitted: Some(k),
            last_change_ms: m.last_change_ms,
            pending: None,
        })),
        (forall|i: int|
            0 <= i < events.len() ==> (#[trigger] events[i]).now_ms < m.last_change_ms
                + DEBOUNCE_WINDOW_MS) ==> (emissions(m, events) =~= Seq::<
            FocusContextSnapshot,
        >::empty() && run_watcher(m, events) == m),
    decreases events.len(),
{
    if events.len() > 0 {
        let e = events[0];
        let rest = events.drop_first();
        assert(awaited_key(m) == Some(k));
        assert(!rearms(m, e.snapshot));
        assert(after_rearm(m, e.snapshot, e.now_ms) == m);
        assert forall|i: int|
            0 <= i < rest.len() implies key_of((#[trigger] rest[i]).snapshot) == k by {
            assert(rest[i] == events[i + 1]);
        }
        assert forall|i: int| 0 <= i < rest.len() implies (#[trigger] rest[i]).delivered by {
            assert(rest[i] == events[i + 1]);
        }
        if e.now_ms >= m.last_change_ms + DEBOUNCE_WINDOW_MS {
            // this cycle delivers the staged snapshot and records its key
            assert(cycle_attempt(m, e.snapshot, e.now_ms) == Some(p));
            assert(e.delivered);
            let ms = cycle_state(m, e.snapshot, e.now_ms, e.delivered);
            assert(ms == (WatcherModel {
                last_emitted: Some(k),
                last_change_ms: m.last_change_ms,
                pending: None,
            }));
            lemma_no_reemission(ms, rest, k);
            assert(emissions(m, events) =~= seq![p] + emissions(ms, rest));
            assert(emissions(m, events) =~= seq![p]);
            assert(run_watcher(m, events) == run_watcher(ms, rest));
        } else {
            assert(cycle_attempt(m, e.snapshot, e.now_ms) is None);
            assert(cycle_state(m, e.snapshot, e.now_ms, e.delivered) == m);
            lemma_waiting_stable_run(m, rest, p, k);
            if exists|i: int|
                0 <= i < events.len() && (#[trigger] events[i]).now_ms >= m.last_change_ms
                    + DEBOUNCE_WINDOW_MS {
                let i = choose|i: int|
                    0 <= i < events.len() && (#[trigger] events[i]).now_ms >= m.last_change_ms
                        + DEBOUNCE_WINDOW_MS;
                assert(i != 0);
                assert(rest[i - 1] == events[i]);
                assert(exists|j: int|
                    0 <= j < rest.len() && (#[trigger] rest[j]).now_ms >= m.last_change_ms
                        + DEBOUNCE_WINDOW_MS);
            } else {
                assert forall|i: int|
                    0 <= i < rest.len() implies (#[trigger] rest[i]).now_ms < m.last_change_ms
                        + DEBOUNCE_WINDOW_MS by {
                    assert(rest[i] == events[i + 1]);
                }
            }
        }
    }
}

/// First index at or after `lo` whose cycle time has reached `t`, given a
/// witness index `w` that has.
proof fn lemma_first_past(events: Seq<PollEvent>, lo: int, w: int, t: int) -> (j: int)
    requires
        0 <= lo <= w < events.len(),
        events[w].now_ms >= t,
    ensures
        lo <= j <= w,
        events[j].now_ms >= t,
        forall|i: int| lo <= i < j ==> (#[trigger] events[i]).now_ms < t,
    decreases w - lo,
{
    if events[lo].now_ms >= t {
        lo
    } else {
        lemma_first_past(events, lo + 1, w, t)
    }
}

/// Law (debounce, delivery half): from a clean state, a trace whose every
/// poll returns one changed key and whose last cycle falls past the
/// debounce window delivers the first staged snapshot exactly once.
pub proof fn lemma_stability_emits_once(m: WatcherModel, events: Seq<PollEvent>, k: KeyModel)
    requires
        m.pending is None,
        m.last_emitted != Some(k),
        events.len() > 0,
        forall|i: int| 0 <= i < events.len() ==> key_of((#[trigger] events[i]).snapshot) == k,
        forall|i: int| 0 <= i < events.len() ==> (#[trigger] events[i]).delivered,
        events[events.len() - 1].now_ms >= events[0].now_ms + DEBOUNCE_WINDOW_MS,
    ensures
        emissions(m, events) =~= seq![events[0].snapshot],
    decreases events.len(),
{
    let e = events[0];
    let t0 = e.now_ms;
    let rest = events.drop_first();
    // the trace must extend past the first cycle to reach the debounce window
    assert(events.len() >= 2);
    // the first cycle stages the changed snapshot and re-arms the timer
    assert(rearms(m, e.snapshot));
    let m1 = after_rearm(m, e.snapshot, t0);
    assert(!(t0 >= m1.last_change_ms + DEBOUNCE_WINDOW_MS));
    assert(cycle_attempt(m, e.snapshot, t0) is None);
    assert(cycle_state(m, e.snapshot, t0, e.delivered) == m1);
    assert forall|i: int| 0 <= i < rest.len() implies key_of((#[trigger] rest[i]).snapshot) == k by {
        assert(rest[i] == events[i + 1]);
    }
    assert forall|i: int| 0 <= i < rest.len() implies (#[trigger] rest[i]).delivered by {
        assert(rest[i] == events[i + 1]);
    }
    assert(rest[events.len() - 2] == events[events.len() - 1]);
    assert(exists|i: int|
        0 <= i < rest.len() && (#[trigger] rest[i]).now_ms >= m1.last_change_ms
            + DEBOUNCE_WINDOW_MS);
    lemma_waiting_stable_run(m1, rest, e.snapshot, k);
    assert(emissions(m, events) =~= emissions(m1, rest));
}

/// The delivery of `lemma_stability_emits_once`, restricted to the prefix
/// of a stable trace that ends at a cycle past the debounce window.
#[verifier::spinoff_prover]
proof fn lemma_stability_prefix(m: WatcherModel, events: Seq<PollEvent>, k: KeyModel, j: int)
    requires
        m.pending is None,
        m.last_emitted != Some(k),
        1 <= j < events.len(),
        forall|i: int| 0 <= i < events.len() ==> key_of((#[trigger] events[i]).snapshot) == k,
        forall|i: int| 0 <= i < events.len() ==> (#[trigger] events[i]).delivered,
        events[j].now_ms >= events[0].now_ms + DEBOUNCE_WINDOW_MS,
    ensures
        emissions(m, events.take(j + 1)) =~= seq![events[0].snapshot],
{
    let prefix = events.take(j + 1);
    assert(prefix.len() == j + 1);
    assert forall|i: int| 0 <= i < prefix.len() implies key_of((#[trigger] prefix[i]).snapshot)
        == k by {
        assert(prefix[i] == events[i]);
    }
    assert forall|i: int| 0 <= i < prefix.len() implies (#[trigger] prefix[i]).delivered by {
        assert(prefix[i] == events[i]);
    }
    assert(prefix[0] == events[0]);
    assert(prefix[prefix.len() - 1] == events[j]);
    lemma_stability_emits_once(m, prefix, k);
}

/// Law (liveness): a single focus change followed by stability — every poll
/// returns the changed key, cycles are at most one poll interval apart, and
/// polling continues past the debounce window with a willing sink — is
/// delivered exactly once, and already within one debounce window plus one
/// poll interval of the change being first observed.
#[verifier::spinoff_prover]
#[verifier::rlimit(100)]
pub proof fn lemma_liveness(m: WatcherModel, events: Seq<PollEvent>, k: KeyModel)
    requires
        m.pending is None,
        m.last_emitted != Some(k),
        events.len() > 0,
        forall|i: int| 0 <= i < events.len() ==> key_of((#[trigger] events[i]).snapshot) == k,
        forall|i: int| 0 <= i < events.len() ==> (#[trigger] events[i]).delivered,
        forall|i: int|
            0 < i < events.len() ==> events[i - 1].now_ms <= (#[trigger] events[i]).now_ms
                <= events[i - 1].now_ms + POLL_INTERVAL_MS,
        events[events.len() - 1].now_ms >= events[0].now_ms + DEBOUNCE_WINDOW_MS,
    ensures
        emissions(m, events) =~= seq![events[0].snapshot],
        exists|j: int|
            1 <= j < events.len() && (#[trigger] events[j]).now_ms <= events[0].now_ms
                + DEBOUNCE_WINDOW_MS + POLL_INTERVAL_MS && emissions(m, events.take(j + 1))
                =~= seq![events[0].snapshot],
{
    let t0 = events[0].now_ms;
    lemma_stability_emits_once(m, events, k);
    // locate the first cycle past the debounce window
    assert(events.len() >= 2);
    let j = lemma_first_past(events, 1, events.len() - 1, t0 + DEBOUNCE_WINDOW_MS);
    // the gap bound places that cycle within one poll interval of the window
    if j == 1 {
        assert(events[1].now_ms <= events[0].now_ms + POLL_INTERVAL_MS);
    } else {
        assert(events[j - 1].now_ms < t0 + DEBOUNCE_WINDOW_MS);
        assert(events[j].now_ms <= events[j - 1].now_ms + POLL_INTERVAL_MS);
    }
    assert(events[j].now_ms <= t0 + DEBOUNCE_WINDOW_MS + POLL_INTERVAL_MS);
    // the emission is already present in the prefix ending at that cycle
    lemma_stability_prefix(m, events, k, j);
    assert(1 <= j < events.len() && events[j].now_ms <= events[0].now_ms + DEBOUNCE_WINDOW_MS
        + POLL_INTERVAL_MS && emissions(m, events.take(j + 1)) =~= seq![events[0].snapshot]);
}

} // verus!

verus! {

/// Shared stop flag controlling one watcher's background loop. Cancellation
/// is cooperative, not preemptive: the loop runner checks the flag once per
/// poll cycle, so shutdown latency is bounded by one poll interval plus any
/// in-flight backend query. Nothing about the flag's value can be promised
/// across threads, so these operations carry no contracts.
#[derive(Clone)]
pub struct FocusWatcherHandle {
    should_stop: Arc<AtomicBool>,
}

impl FocusWatcherHandle {
    /// A handle whose stop flag is not yet set.
    pub fn new() -> FocusWatcherHandle {
        FocusWatcherHandle { should_stop: Arc::new(AtomicBool::new(false)) }
    }

    /// Request the background loop to stop. Idempotent and safe to call any
    /// number of times, from any thread.
    pub fn stop(&self) {
        self.should_stop.store(true, Ordering::SeqCst);
    }

    /// Whether a stop has been requested; the loop runner polls this at the
    /// top of every cycle.
    pub fn should_stop(&self) -> bool {
        self.should_stop.load(Ordering::SeqCst)
    }
}

} // verus!

use vstd::prelude::*;

use crate::links::{new_link_spec, ApiError};
use crate::models::{Link, Scan};
use crate::utils::validation;
use crate::resolve::{next, phase_rank, ResolveAction, ResolveEvent, ResolveOutcome, ResolvePhase, Resolver};

verus! {

/// The contents of a link store: the links, oldest first, and the scan log.
pub struct StoreContents {
    pub links: Seq<Link>,
    pub scans: Seq<Scan>,
}

/// The index of the newest link with identifier `id`, if any.
pub open spec fn find_link(links: Seq<Link>, id: Seq<char>) -> Option<int>
    decreases links.len(),
{
    if links.len() == 0 {
        None
    } else if links.last().id@ == id {
        Some(links.len() - 1)
    } else {
        find_link(links.drop_last(), id)
    }
}

/// A scan counter one higher, held at the largest `i32`.
pub open spec fn bump(n: i32) -> i32 {
    if n < i32::MAX {
        (n + 1) as i32
    } else {
        n
    }
}

/// `links` with the scan counter of every link named `id` bumped.
pub open spec fn counted(links: Seq<Link>, id: Seq<char>) -> Seq<Link> {
    Seq::new(
        links.len(),
        |j: int|
            if links[j].id@ == id {
                Link { scans: bump(links[j].scans), ..links[j] }
            } else {
                links[j]
            },
    )
}

/// What the store does on `action`, and what it reports back. Answers are not
/// store actions and leave it as it is.
pub open spec fn answer(s: StoreContents, action: ResolveAction) -> (StoreContents, ResolveEvent) {
    match action {
        ResolveAction::LookUp(id) => match find_link(s.links, id@) {
            Some(i) => (s, ResolveEvent::LinkFound(s.links[i].original_url)),
            None => (s, ResolveEvent::LinkAbsent),
        },
        ResolveAction::RecordScan(scan) => (
            StoreContents { links: counted(s.links, scan.link_id@), scans: s.scans.push(scan) },
            ResolveEvent::ScanRecorded,
        ),
        ResolveAction::Respond(_) => (s, ResolveEvent::Begin),
    }
}

/// Runs resolution `r` against store `s` from `event`, for at most `fuel`
/// store actions; gives the final store and the answer, if one was reached.
pub open spec fn run(s: StoreContents, r: Resolver, event: ResolveEvent, now: String, fuel: nat) -> (
    StoreContents,
    Option<ResolveOutcome>,
)
    decreases fuel,
{
    let (r2, a) = next(r, event, now);
    match a {
        ResolveAction::Respond(o) => (s, Some(o)),
        _ => if fuel == 0 {
            (s, None)
        } else {
            let (s2, e2) = answer(s, a);
            run(s2, r2, e2, now, (fuel - 1) as nat)
        },
    }
}

/// One whole resolution of `id` for a caller against store `s`, with `now` as
/// the time of the scan.
pub open spec fn resolve_in(s: StoreContents, id: String, ip: String, user_agent: String, now: String) -> (
    StoreContents,
    Option<ResolveOutcome>,
) {
    run(
        s,
        Resolver { id, ip, user_agent, phase: ResolvePhase::Start },
        ResolveEvent::Begin,
        now,
        3,
    )
}

/// A resolution reaches an answer within as many store actions as its phase allows.
pub proof fn lemma_run_answers(s: StoreContents, r: Resolver, event: ResolveEvent, now: String, fuel: nat)
    requires
        phase_rank(r.phase) <= fuel,
    ensures
        run(s, r, event, now, fuel).1 is Some,
    decreases fuel,
{
    let (r2, a) = next(r, event, now);
    if !(a is Respond) {
        let (s2, e2) = answer(s, a);
        lemma_run_answers(s2, r2, e2, now, (fuel - 1) as nat);
    }
}

/// Bumping the counters of one identifier changes no link's identifier.
proof fn lemma_counted_keeps_ids(links: Seq<Link>, id: Seq<char>, x: Seq<char>)
    ensures
        find_link(counted(links, id), x) == find_link(links, x),
    decreases links.len(),
{
    if links.len() > 0 {
        assert(counted(links, id).drop_last() =~= counted(links.drop_last(), id));
        lemma_counted_keeps_ids(links.drop_last(), id, x);
    }
}

/// A resolution of a stored link logs one scan of it, bumps its counter and
/// redirects to its original URL.
proof fn lemma_resolve_found(s: StoreContents, id: String, ip: String, user_agent: String, now: String)
    requires
        find_link(s.links, id@) is Some,
    ensures
        resolve_in(s, id, ip, user_agent, now) == (
            StoreContents {
                links: counted(s.links, id@),
                scans: s.scans.push(
                    Scan { link_id: id, ip_address: ip, user_agent: user_agent, scanned_at: now },
                ),
            },
            Some(ResolveOutcome::Redirect(s.links[find_link(s.links, id@)->Some_0].original_url)),
        ),
{
    reveal_with_fuel(run, 3);
}

/// Resolving an identifier that no stored link has answers "not found" and
/// leaves the store, its scan log included, as it was.
pub proof fn lemma_unknown_id_not_found(s: StoreContents, id: String, ip: String, user_agent: String, now: String)
    requires
        find_link(s.links, id@) is None,
    ensures
        resolve_in(s, id, ip, user_agent, now) == (s, Some(ResolveOutcome::NotFound)),
{
    reveal_with_fuel(run, 2);
}

/// Storing the link that shortening `url` gives and then resolving its
/// identifier redirects to the canonical form of `url`, and logs one scan of
/// that link.
pub proof fn lemma_shorten_then_resolve(
    s: StoreContents,
    url: Seq<char>,
    link: Link,
    ip: String,
    user_agent: String,
    now: String,
)
    requires
        validation(url) is Ok,
        new_link_spec(link, link.id@, validation(url)->Ok_0, link.created_at@),
    ensures
        ({
            let (s2, o) = resolve_in(
                StoreContents { links: s.links.push(link), ..s },
                link.id,
                ip,
                user_agent,
                now,
            );
            &&& o matches Some(ResolveOutcome::Redirect(target)) && target@ == validation(url)->Ok_0
            &&& s2.scans == s.scans.push(
                Scan { link_id: link.id, ip_address: ip, user_agent: user_agent, scanned_at: now },
            )
        }),
{
    let s1 = StoreContents { links: s.links.push(link), ..s };
    assert(s1.links.last() == link);
    lemma_resolve_found(s1, link.id, ip, user_agent, now);
}

/// The store after resolving `id` once for each caller, in order; a caller is
/// its address, its user agent and the time of its scan.
pub open spec fn resolve_each(s: StoreContents, id: String, callers: Seq<(String, String, String)>) -> StoreContents
    decreases callers.len(),
{
    if callers.len() == 0 {
        s
    } else {
        let c = callers.last();
        resolve_in(resolve_each(s, id, callers.drop_last()), id, c.0, c.1, c.2).0
    }
}

/// Resolving a stored link for any number of callers logs exactly one scan
/// per resolution: the log keeps its earlier rows and gains one row per caller,
/// each naming that link, in the callers' order.
pub proof fn lemma_one_scan_per_resolution(s: StoreContents, id: String, callers: Seq<(String, String, String)>)
    requires
        find_link(s.links, id@) is Some,
    ensures
        ({
            let s2 = resolve_each(s, id, callers);
            &&& s2.scans.len() == s.scans.len() + callers.len()
            &&& s2.scans.subrange(0, s.scans.len() as int) == s.scans
            &&& forall|k: int|
                0 <= k < callers.len() ==> (#[trigger] s2.scans[s.scans.len() + k]) == (Scan {
                    link_id: id,
                    ip_address: callers[k].0,
                    user_agent: callers[k].1,
                    scanned_at: callers[k].2,
                })
            &&& find_link(s2.links, id@) is Some
        }),
    decreases callers.len(),
{
    if callers.len() > 0 {
        let prev = callers.drop_last();
        lemma_one_scan_per_resolution(s, id, prev);
        let s1 = resolve_each(s, id, prev);
        let c = callers.last();
        lemma_resolve_found(s1, id, c.0, c.1, c.2);
        lemma_counted_keeps_ids(s1.links, id@, id@);
        let s2 = resolve_each(s, id, callers);
        assert(s2.scans.subrange(0, s.scans.len() as int) =~= s.scans) by {
            assert(s2.scans.subrange(0, s.scans.len() as int) =~= s1.scans.subrange(0, s.scans.len() as int));
        }
        assert forall|k: int| 0 <= k < callers.len() implies (#[trigger] s2.scans[s.scans.len() + k]) == (Scan {
            link_id: id,
            ip_address: callers[k].0,
            user_agent: callers[k].1,
            scanned_at: callers[k].2,
        }) by {
            if k < prev.len() {
                assert(s1.scans[s.scans.len() + k] == s2.scans[s.scans.len() + k]);
                assert(prev[k] == callers[k]);
            }
        }
    }
}

/// The index of a found link is in range and names that link.
proof fn lemma_find_link_in_range(links: Seq<Link>, id: Seq<char>)
    ensures
        find_link(links, id) matches Some(i) ==> 0 <= i < links.len() && links[i].id@ == id,
    decreases links.len(),
{
    if links.len() > 0 {
        lemma_find_link_in_range(links.drop_last(), id);
    }
}

/// Whether a resolution in this phase has had its scan recorded.
pub open spec fn scan_logged(p: ResolvePhase) -> bool {
    p is Recording || p is Finished
}

/// How many of the resolutions `rs` have had their scan recorded.
pub open spec fn logged_count(rs: Seq<(Resolver, ResolveEvent, Option<ResolveOutcome>)>) -> nat
    decreases rs.len(),
{
    if rs.len() == 0 {
        0
    } else {
        logged_count(rs.drop_last()) + if scan_logged(rs.last().0.phase) {
            1nat
        } else {
            0nat
        }
    }
}

/// Resolution `k` among `rs` takes its pending event and, unless it answers,
/// has its store action carried out at once. Each resolution holds its state,
/// the event it will take next, and the first answer it gave, if any.
pub open spec fn interleave_step(
    s: StoreContents,
    rs: Seq<(Resolver, ResolveEvent, Option<ResolveOutcome>)>,
    k: int,
    now: String,
) -> (StoreContents, Seq<(Resolver, ResolveEvent, Option<ResolveOutcome>)>) {
    let (r2, a) = next(rs[k].0, rs[k].1, now);
    match a {
        ResolveAction::Respond(o) => (
            s,
            rs.update(
                k,
                (r2, ResolveEvent::Begin, if rs[k].2 is Some {
                    rs[k].2
                } else {
                    Some(o)
                }),
            ),
        ),
        _ => {
            let (s2, e2) = answer(s, a);
            (s2, rs.update(k, (r2, e2, rs[k].2)))
        },
    }
}

/// The store and the resolutions after the steps of `schedule`, in order; a
/// step names a resolution and the time at which it would record its scan.
pub open spec fn interleave(
    s: StoreContents,
    rs: Seq<(Resolver, ResolveEvent, Option<ResolveOutcome>)>,
    schedule: Seq<(int, String)>,
) -> (StoreContents, Seq<(Resolver, ResolveEvent, Option<ResolveOutcome>)>)
    decreases schedule.len(),
{
    if schedule.len() == 0 {
        (s, rs)
    } else {
        let (s1, rs1) = interleave(s, rs, schedule.drop_last());
        let (k, now) = schedule.last();
        if 0 <= k < rs1.len() {
            interleave_step(s1, rs1, k, now)
        } else {
            (s1, rs1)
        }
    }
}

/// Resolutions of `id`, one per caller (address and user agent), not yet started.
pub open spec fn fresh_resolutions(id: String, callers: Seq<(String, String)>) -> Seq<
    (Resolver, ResolveEvent, Option<ResolveOutcome>),
> {
    Seq::new(
        callers.len(),
        |k: int|
            (
                Resolver {
                    id,
                    ip: callers[k].0,
                    user_agent: callers[k].1,
                    phase: ResolvePhase::Start,
                },
                ResolveEvent::Begin,
                None,
            ),
    )
}

proof fn lemma_logged_count_update(
    rs: Seq<(Resolver, ResolveEvent, Option<ResolveOutcome>)>,
    k: int,
    v: (Resolver, ResolveEvent, Option<ResolveOutcome>),
)
    requires
        0 <= k < rs.len(),
    ensures
        logged_count(rs.update(k, v)) + (if scan_logged(rs[k].0.phase) { 1int } else { 0int })
            == logged_count(rs) + (if scan_logged(v.0.phase) { 1int } else { 0int }),
    decreases rs.len(),
{
    if k < rs.len() - 1 {
        assert(rs.update(k, v).drop_last() =~= rs.drop_last().update(k, v));
        lemma_logged_count_update(rs.drop_last(), k, v);
    } else {
        assert(rs.update(k, v).drop_last() =~= rs.drop_last());
    }
}

proof fn lemma_logged_count_bounds(rs: Seq<(Resolver, ResolveEvent, Option<ResolveOutcome>)>)
    ensures
        logged_count(rs) <= rs.len(),
        (forall|k: int| 0 <= k < rs.len() ==> !scan_logged(#[trigger] rs[k].0.phase)) ==> logged_count(rs) == 0,
        (forall|k: int| 0 <= k < rs.len() ==> scan_logged(#[trigger] rs[k].0.phase)) ==> logged_count(rs) == rs.len(),
    decreases rs.len(),
{
    if rs.len() > 0 {
        lemma_logged_count_bounds(rs.drop_last());
        assert forall|k: int| 0 <= k < rs.len() - 1 implies #[trigger] rs.drop_last()[k] == rs[k] by {}
    }
}

/// The states a resolution of `id` can be in while the link, with original
/// URL `url`, stays stored.
pub open spec fn pending_ok(p: (Resolver, ResolveEvent, Option<ResolveOutcome>), id: String, url: String) -> bool {
    &&& p.0.id == id
    &&& match p.0.phase {
        ResolvePhase::Start => p.1 is Begin && p.2 is None,
        ResolvePhase::LookingUp => p.1 == ResolveEvent::LinkFound(url) && p.2 is None,
        ResolvePhase::Recording(u) => u == url && p.1 is ScanRecorded && p.2 is None,
        ResolvePhase::Finished => p.2 == Some(ResolveOutcome::Redirect(url)),
    }
}

/// The original URL of the link that `id` names in `s`.
pub open spec fn target_url(s: StoreContents, id: String) -> String {
    s.links[find_link(s.links, id@)->Some_0].original_url
}

pub open spec fn interleave_inv(
    s0: StoreContents,
    id: String,
    s: StoreContents,
    rs: Seq<(Resolver, ResolveEvent, Option<ResolveOutcome>)>,
) -> bool {
    &&& find_link(s.links, id@) is Some
    &&& find_link(s.links, id@) == find_link(s0.links, id@)
    &&& target_url(s, id) == target_url(s0, id)
    &&& forall|k: int| 0 <= k < rs.len() ==> pending_ok(#[trigger] rs[k], id, target_url(s0, id))
    &&& s.scans.len() == s0.scans.len() + logged_count(rs)
    &&& s.scans.subrange(0, s0.scans.len() as int) == s0.scans
    &&& forall|j: int| s0.scans.len() <= j < s.scans.len() ==> (#[trigger] s.scans[j]).link_id == id
}

proof fn lemma_interleave_inv(
    s0: StoreContents,
    id: String,
    rs0: Seq<(Resolver, ResolveEvent, Option<ResolveOutcome>)>,
    schedule: Seq<(int, String)>,
)
    requires
        interleave_inv(s0, id, s0, rs0),
    ensures
        ({
            let (s, rs) = interleave(s0, rs0, schedule);
            interleave_inv(s0, id, s, rs) && rs.len() == rs0.len()
        }),
    decreases schedule.len(),
{
    if schedule.len() > 0 {
        lemma_interleave_inv(s0, id, rs0, schedule.drop_last());
        let (s1, rs1) = interleave(s0, rs0, schedule.drop_last());
        let (k, now) = schedule.last();
        if 0 <= k < rs1.len() {
            let (s2, rs2) = interleave_step(s1, rs1, k, now);
            assert(pending_ok(rs1[k], id, target_url(s0, id)));
            lemma_logged_count_update(rs1, k, rs2[k]);
            lemma_counted_keeps_ids(s1.links, id@, id@);
            lemma_find_link_in_range(s1.links, id@);
            assert forall|i: int| 0 <= i < rs2.len() implies pending_ok(#[trigger] rs2[i], id, target_url(s0, id)) by {
                if i != k {
                    assert(rs2[i] == rs1[i]);
                }
            }
            assert(s2.scans.subrange(0, s0.scans.len() as int) =~= s1.scans.subrange(0, s0.scans.len() as int));
            assert forall|j: int| s0.scans.len() <= j < s2.scans.len() implies (#[trigger] s2.scans[j]).link_id == id by {
                if j < s1.scans.len() {
                    assert(s2.scans[j] == s1.scans[j]);
                }
            }
        }
    }
}

/// Resolutions of one stored link, one per caller, run concurrently with their
/// store actions interleaved in any order: the log keeps its earlier rows and
/// every row it gains names that link; every resolution that has answered
/// redirected to the link's original URL; and once all of them have finished,
/// each has answered so and the log has gained exactly one row per resolution.
pub proof fn lemma_concurrent_resolutions_log_one_scan_each(
    s: StoreContents,
    id: String,
    callers: Seq<(String, String)>,
    schedule: Seq<(int, String)>,
)
    requires
        find_link(s.links, id@) is Some,
    ensures
        ({
            let (s2, rs2) = interleave(s, fresh_resolutions(id, callers), schedule);
            &&& rs2.len() == callers.len()
            &&& s2.scans.subrange(0, s.scans.len() as int) == s.scans
            &&& forall|j: int| s.scans.len() <= j < s2.scans.len() ==> (#[trigger] s2.scans[j]).link_id == id
            &&& s2.scans.len() <= s.scans.len() + callers.len()
            &&& forall|k: int|
                0 <= k < callers.len() && (#[trigger] rs2[k]).2 is Some ==> rs2[k].2 == Some(
                    ResolveOutcome::Redirect(target_url(s, id)),
                )
            &&& (forall|k: int| 0 <= k < callers.len() ==> (#[trigger] rs2[k]).0.phase is Finished) ==> {
                &&& s2.scans.len() == s.scans.len() + callers.len()
                &&& forall|k: int|
                    0 <= k < callers.len() ==> (#[trigger] rs2[k]).2 == Some(
                        ResolveOutcome::Redirect(target_url(s, id)),
                    )
            }
        }),
{
    let rs0 = fresh_resolutions(id, callers);
    lemma_logged_count_bounds(rs0);
    assert(s.scans.subrange(0, s.scans.len() as int) =~= s.scans);
    lemma_interleave_inv(s, id, rs0, schedule);
    let (s2, rs2) = interleave(s, rs0, schedule);
    lemma_logged_count_bounds(rs2);
    assert forall|k: int| 0 <= k < callers.len() && (#[trigger] rs2[k]).2 is Some implies rs2[k].2 == Some(
        ResolveOutcome::Redirect(target_url(s, id)),
    ) by {
        assert(pending_ok(rs2[k], id, target_url(s, id)));
    }
}

/// An in-memory link store.
pub struct MemoryStore {
    pub links: Vec<Link>,
    pub scans: Vec<Scan>,
}

impl View for MemoryStore {
    type V = StoreContents;

    open spec fn view(&self) -> StoreContents {
        StoreContents { links: self.links@, scans: self.scans@ }
    }
}

impl MemoryStore {
    /// An empty store.
    pub fn new() -> (r: MemoryStore)
        ensures
            r@.links.len() == 0,
            r@.scans.len() == 0,
    {
        MemoryStore { links: Vec::new(), scans: Vec::new() }
    }

    /// Stores a new link, unless a link with its identifier is already
    /// stored: identifiers are unique, and a clash is reported as a conflict.
    pub fn insert_link(&mut self, link: Link) -> (r: Result<(), ApiError>)
        ensures
            find_link(old(self)@.links, link.id@) is Some ==> r == Err::<(), ApiError>(ApiError::Conflict)
                && final(self)@ == old(self)@,
            find_link(old(self)@.links, link.id@) is None ==> r is Ok && final(self)@ == (StoreContents {
                links: old(self)@.links.push(link),
                ..old(self)@
            }),
    {
        match self.find(&link.id) {
            Some(_) => Err(ApiError::Conflict),
            None => {
                self.links.push(link);
                Ok(())
            },
        }
    }

    /// The index of the newest link with identifier `id`.
    pub fn find(&self, id: &String) -> (r: Option<usize>)
        ensures
            match r {
                Some(i) => find_link(self@.links, id@) == Some(i as int),
                None => find_link(self@.links, id@) is None,
            },
            r matches Some(i) ==> i < self@.links.len(),
    {
        let mut i: usize = self.links.len();
        assert(self@.links.subrange(0, i as int) =~= self@.links);
        while i > 0
            invariant
                i <= self.links@.len(),
                find_link(self@.links, id@) == find_link(self@.links.subrange(0, i as int), id@),
            decreases i,
        {
            let ghost pre = self@.links.subrange(0, i as int);
            assert(pre.drop_last() =~= self@.links.subrange(0, i - 1));
            if self.links[i - 1].id == *id {
                return Some(i - 1);
            }
            i = i - 1;
        }
        assert(self@.links.subrange(0, 0).len() == 0);
        None
    }

    /// Carries out a store action of a resolution and reports what happened.
    pub fn perform(&mut self, action: ResolveAction) -> (e: ResolveEvent)
        requires
            !(action is Respond),
        ensures
            (final(self)@, e) == answer(old(self)@, action),
    {
        match action {
            ResolveAction::LookUp(id) => match self.find(&id) {
                Some(i) => ResolveEvent::LinkFound(self.links[i].original_url.clone()),
                None => ResolveEvent::LinkAbsent,
            },
            ResolveAction::RecordScan(scan) => {
                let id = &scan.link_id;
                let ghost before = self@.links;
                let mut i: usize = 0;
                while i < self.links.len()
                    invariant
                        self@.scans == old(self)@.scans,
                        self@.links.len() == before.len(),
                        i <= before.len(),
                        forall|j: int| 0 <= j < i ==> self@.links[j] == #[trigger] counted(before, id@)[j],
                        forall|j: int| i <= j < before.len() ==> self@.links[j] == #[trigger] before[j],
                    decreases before.len() - i,
                {
                    if self.links[i].id == *id {
                        let l = &self.links[i];
                        let scans = if l.scans < i32::MAX {
                            l.scans + 1
                        } else {
                            l.scans
                        };
                        let bumped = Link {
                            id: l.id.clone(),
                            original_url: l.original_url.clone(),
                            scans,
                            created_at: l.created_at.clone(),
                        };
                        self.links.set(i, bumped);
                    }
                    i = i + 1;
                }
                assert(self@.links =~= counted(before, id@));
                self.scans.push(scan);
                ResolveEvent::ScanRecorded
            },
            ResolveAction::Respond(_) => ResolveEvent::Begin,
        }
    }

    /// Runs resolution `r` to its answer against this store, logging the
    /// scan at `now`.
    pub fn resolve_with(&mut self, resolver: Resolver, now: String) -> (o: ResolveOutcome)
        requires
            resolver.phase is Start,
        ensures
            (final(self)@, Some(o)) == run(old(self)@, resolver, ResolveEvent::Begin, now, 3),
    {
        let ghost target = run(self@, resolver, ResolveEvent::Begin, now, 3);
        let mut r = resolver;
        let mut event = ResolveEvent::Begin;
        let mut fuel: usize = 3;
        loop
            invariant
                phase_rank(r.phase) <= fuel <= 3,
                run(self@, r, event, now, fuel as nat) == target,
                target == run(old(self)@, resolver, ResolveEvent::Begin, now, 3),
            decreases fuel,
        {
            proof {
                lemma_run_answers(self@, r, event, now, fuel as nat);
            }
            let a = r.step_with(event, now.clone());
            match a {
                ResolveAction::Respond(o) => {
                    return o;
                },
                _ => {
                    event = self.perform(a);
                    fuel = fuel - 1;
                },
            }
        }
    }
}

} // verus!

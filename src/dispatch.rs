use vstd::prelude::*;
use vstd::string::StringExecFns;

use crate::error::{retryable, Error};
use crate::provider::{HealthState, ProviderCapabilities, ProviderType};
use crate::request::{ChatRequest, ContentPart, MessageContent};
use crate::text::{copy_strings, text_eq};

verus! {

/// What the dispatcher knows of one registered backend when it decides:
/// the latest published snapshots, copied out before any call.
#[derive(Debug, Clone)]
pub struct BackendEntry {
    pub name: String,
    pub kind: ProviderType,
    /// Latest health check.
    pub health: HealthState,
    pub capabilities: ProviderCapabilities,
    /// Current load in tenths of a percent.
    pub load_tenths: u32,
    /// For a local backend, whether the admission check passed for this
    /// request; ignored for other kinds.
    pub admitted: bool,
}

/// The next thing to do for a request.
#[derive(Debug)]
pub enum Step {
    /// Send the request to the backend at this index of the entries.
    Send(usize),
    /// Give up with this error.
    Fail(Error),
}

/// Progress of one request through its ranked candidates.
#[derive(Debug)]
pub struct Dispatch {
    /// Indices of the entries to try, in order.
    pub candidates: Vec<usize>,
    /// Their names, in the same order.
    pub names: Vec<String>,
    /// Position of the candidate in flight.
    pub position: usize,
    /// Names of the backends tried so far, in order.
    pub attempted: Vec<String>,
}

/// A backend that may take a request: not unhealthy and, when local,
/// admitted.
pub open spec fn eligible(e: BackendEntry) -> bool {
    e.health != HealthState::Unhealthy && (e.kind != ProviderType::Local || e.admitted)
}

/// Ranking key: healthy before degraded, then capable before not, then by
/// load.
pub open spec fn rank_key(e: BackendEntry, needs_vision: bool) -> int {
    let degraded: int = if e.health == HealthState::Degraded { 1 } else { 0 };
    let lacking: int = if needs_vision && !e.capabilities.vision { 1 } else { 0 };
    degraded * 0x2_0000_0000 + lacking * 0x1_0000_0000 + e.load_tenths
}

/// Entry `i` ranks before entry `j`; ties go by registration order.
pub open spec fn ranks_before(es: Seq<BackendEntry>, needs_vision: bool, i: int, j: int) -> bool {
    rank_key(es[i], needs_vision) < rank_key(es[j], needs_vision) || (rank_key(es[i], needs_vision) == rank_key(es[j], needs_vision) && i < j)
}

/// `order` lists exactly the eligible entries, best first.
pub open spec fn is_ranking(es: Seq<BackendEntry>, needs_vision: bool, order: Seq<usize>) -> bool {
    &&& forall|k: int| 0 <= k < order.len() ==> #[trigger] order[k] < es.len() && eligible(es[order[k] as int])
    &&& forall|i: int| 0 <= i < es.len() && eligible(es[i]) ==> exists|k: int| 0 <= k < order.len() && #[trigger] order[k] == i
    &&& forall|a: int, b: int| 0 <= a < b < order.len() ==> ranks_before(es, needs_vision, #[trigger] order[a] as int, #[trigger] order[b] as int)
}

/// Whether some message carries an image part.
pub open spec fn has_image(ps: Seq<ContentPart>) -> bool {
    exists|k: int| 0 <= k < ps.len() && ps[k] is Image
}

/// Whether the request needs a vision-capable backend.
pub open spec fn needs_vision(req: ChatRequest) -> bool {
    exists|i: int| 0 <= i < req.messages@.len() && ((#[trigger] req.messages@[i]).content matches MessageContent::MultiPart(ps) && has_image(ps@))
}

/// Index of the first entry named `name`, if any.
pub open spec fn is_first_named(es: Seq<BackendEntry>, name: Seq<char>, r: Option<usize>) -> bool {
    match r {
        Some(i) => i < es.len() && es[i as int].name@ == name && forall|k: int| 0 <= k < i ==> es[k].name@ != name,
        None => forall|k: int| 0 <= k < es.len() ==> es[k].name@ != name,
    }
}

/// Candidates of a request with `hint`: the hinted backend alone when it is
/// registered and eligible, the ranking otherwise.
pub open spec fn is_plan(es: Seq<BackendEntry>, vision: bool, hint: Option<Seq<char>>, d: Dispatch) -> bool {
    &&& d.position == 0
    &&& d.attempted@.len() == 0
    &&& d.names@.len() == d.candidates@.len()
    &&& forall|k: int| 0 <= k < d.candidates@.len() ==> #[trigger] d.names@[k]@ == es[d.candidates@[k] as int].name@
    &&& match hint {
        Some(h) => if exists|i: int| 0 <= i < es.len() && es[i].name@ == h && eligible(es[i])
            && forall|k: int| 0 <= k < i ==> es[k].name@ != h {
            d.candidates@.len() == 1 && es[d.candidates@[0] as int].name@ == h && eligible(es[d.candidates@[0] as int])
                && forall|k: int| 0 <= k < d.candidates@[0] ==> es[k].name@ != h
        } else {
            is_ranking(es, vision, d.candidates@)
        },
        None => is_ranking(es, vision, d.candidates@),
    }
}

/// An unhealthy backend is never a candidate: when `b` is the only
/// eligible backend, the ranking is `b` alone, and no other backend is
/// ever tried.
pub proof fn lemma_only_eligible_backend_is_tried(es: Seq<BackendEntry>, vision: bool, order: Seq<usize>, b: int)
    requires
        is_ranking(es, vision, order),
        0 <= b < es.len(),
        eligible(es[b]),
        forall|i: int| 0 <= i < es.len() && i != b ==> !eligible(es[i]),
    ensures
        order == seq![b as usize],
        forall|k: int| 0 <= k < order.len() ==> es[#[trigger] order[k] as int].health != HealthState::Unhealthy,
{
    let k = choose|k: int| 0 <= k < order.len() && #[trigger] order[k] == b;
    assert forall|j: int| 0 <= j < order.len() implies #[trigger] order[j] == b by {
        assert(order[j] < es.len() && eligible(es[order[j] as int]));
    }
    if order.len() > 1 {
        assert(ranks_before(es, vision, order[0] as int, order[1] as int));
    }
    assert(order =~= seq![b as usize]);
}

/// Dispatch without a hint over backends of which only `b` is eligible
/// (the others unhealthy, or local and not admitted): `b` is sent the
/// request first and is the only candidate.
pub proof fn lemma_plan_skips_ineligible(es: Seq<BackendEntry>, vision: bool, d: Dispatch, b: int)
    requires
        is_plan(es, vision, None, d),
        0 <= b < es.len(),
        eligible(es[b]),
        forall|i: int| 0 <= i < es.len() && i != b ==> !eligible(es[i]),
    ensures
        d.candidates@ == seq![b as usize],
        d.names@.len() == 1 && d.names@[0]@ == es[b].name@,
{
    lemma_only_eligible_backend_is_tried(es, vision, d.candidates@, b);
    assert(d.names@[0]@ == es[d.candidates@[0] as int].name@);
}

/// Whether the request carries an image part anywhere.
pub fn request_needs_vision(req: &ChatRequest) -> (r: bool)
    ensures
        r == needs_vision(*req),
{
    let mut i: usize = 0;
    while i < req.messages.len()
        invariant
            i <= req.messages@.len(),
            forall|j: int| 0 <= j < i ==> !((#[trigger] req.messages@[j]).content matches MessageContent::MultiPart(ps) && has_image(ps@)),
        decreases req.messages@.len() - i,
    {
        match &req.messages[i].content {
            MessageContent::MultiPart(parts) => {
                let mut k: usize = 0;
                while k < parts.len()
                    invariant
                        k <= parts@.len(),
                        i < req.messages@.len(),
                        req.messages@[i as int].content == MessageContent::MultiPart(*parts),
                        forall|j: int| 0 <= j < i ==> !((#[trigger] req.messages@[j]).content matches MessageContent::MultiPart(ps) && has_image(ps@)),
                        forall|q: int| 0 <= q < k ==> !(parts@[q] is Image),
                    decreases parts@.len() - k,
                {
                    match &parts[k] {
                        ContentPart::Image { .. } => {
                            proof {
                                assert(parts@[k as int] is Image);
                                assert(has_image(parts@));
                                assert(req.messages@[i as int].content matches MessageContent::MultiPart(ps) && has_image(ps@));
                            }
                            return true;
                        },
                        ContentPart::Text { .. } => {},
                    }
                    k = k + 1;
                }
            },
            MessageContent::Text(_) => {},
        }
        i = i + 1;
    }
    false
}

/// Whether an entry may take the request.
pub fn is_eligible(e: &BackendEntry) -> (r: bool)
    ensures
        r == eligible(*e),
{
    e.health != HealthState::Unhealthy && (e.kind != ProviderType::Local || e.admitted)
}

/// The ranking key of an entry.
pub fn entry_key(e: &BackendEntry, vision: bool) -> (r: u64)
    ensures
        r == rank_key(*e, vision),
{
    let degraded: u64 = if e.health == HealthState::Degraded { 1 } else { 0 };
    let lacking: u64 = if vision && !e.capabilities.vision { 1 } else { 0 };
    degraded * 0x2_0000_0000 + lacking * 0x1_0000_0000 + e.load_tenths as u64
}

/// The eligible entries, best first: healthy before degraded, then able to
/// read images when the request has any, then by lowest load; ties keep
/// the order of registration.
pub fn rank_backends(entries: &Vec<BackendEntry>, vision: bool) -> (r: Vec<usize>)
    ensures
        is_ranking(entries@, vision, r@),
{
    let ghost es = entries@;
    let mut order: Vec<usize> = Vec::new();
    let mut i: usize = 0;
    while i < entries.len()
        invariant
            i <= es.len(),
            es == entries@,
            forall|k: int| 0 <= k < order@.len() ==> #[trigger] order@[k] < i && eligible(es[order@[k] as int]),
            forall|j: int| 0 <= j < i && eligible(es[j]) ==> exists|k: int| 0 <= k < order@.len() && #[trigger] order@[k] == j,
            forall|a: int, b: int| 0 <= a < b < order@.len() ==> ranks_before(es, vision, #[trigger] order@[a] as int, #[trigger] order@[b] as int),
        decreases es.len() - i,
    {
        if is_eligible(&entries[i]) {
            let key = entry_key(&entries[i], vision);
            let mut p: usize = 0;
            let mut done = false;
            while !done && p < order.len()
                invariant
                    p <= order@.len(),
                    i < es.len(),
                    es == entries@,
                    forall|k: int| 0 <= k < order@.len() ==> #[trigger] order@[k] < i && eligible(es[order@[k] as int]),
                    forall|q: int| 0 <= q < p ==> rank_key(es[#[trigger] order@[q] as int], vision) <= key,
                    done ==> p < order@.len() && rank_key(es[order@[p as int] as int], vision) > key,
                decreases order@.len() - p + (if done { 0int } else { 1int }),
            {
                if entry_key(&entries[order[p]], vision) > key {
                    done = true;
                } else {
                    p = p + 1;
                }
            }
            let ghost old_order = order@;
            order.insert(p, i);
            proof {
                assert(order@ == old_order.insert(p as int, i));
                assert forall|k: int| 0 <= k < order@.len() implies #[trigger] order@[k] < i + 1 && eligible(es[order@[k] as int]) by {
                    if k < p {
                        assert(order@[k] == old_order[k]);
                    } else if k > p {
                        assert(order@[k] == old_order[k - 1]);
                    }
                }
                assert forall|j: int| 0 <= j < i + 1 && eligible(es[j]) implies exists|k: int| 0 <= k < order@.len() && #[trigger] order@[k] == j by {
                    if j == i {
                        assert(order@[p as int] == j);
                    } else {
                        let k = choose|k: int| 0 <= k < old_order.len() && #[trigger] old_order[k] == j;
                        if k < p {
                            assert(order@[k] == j);
                        } else {
                            assert(order@[k + 1] == j);
                        }
                    }
                }
                assert forall|a: int, b: int| 0 <= a < b < order@.len() implies ranks_before(es, vision, #[trigger] order@[a] as int, #[trigger] order@[b] as int) by {
                    if b < p {
                        assert(order@[a] == old_order[a] && order@[b] == old_order[b]);
                    } else if b == p {
                        assert(order@[a] == old_order[a]);
                    } else if a < p {
                        assert(order@[a] == old_order[a] && order@[b] == old_order[b - 1]);
                    } else if a == p {
                        assert(order@[b] == old_order[b - 1]);
                        assert(p == old_order.len() || rank_key(es[old_order[p as int] as int], vision) > key);
                        if b - 1 > p {
                            assert(ranks_before(es, vision, old_order[p as int] as int, old_order[b - 1] as int));
                        }
                    } else {
                        assert(order@[a] == old_order[a - 1] && order@[b] == old_order[b - 1]);
                    }
                }
            }
        }
        i = i + 1;
    }
    order
}

/// Index of the first entry named `name`.
pub fn find_backend(entries: &Vec<BackendEntry>, name: &str) -> (r: Option<usize>)
    ensures
        is_first_named(entries@, name@, r),
{
    let mut i: usize = 0;
    while i < entries.len()
        invariant
            i <= entries@.len(),
            forall|k: int| 0 <= k < i ==> entries@[k].name@ != name@,
        decreases entries@.len() - i,
    {
        if text_eq(entries[i].name.as_str(), name) {
            return Some(i);
        }
        i = i + 1;
    }
    None
}

impl Dispatch {
    /// Plans a request over `entries`. With a `hint` that names a registered,
    /// eligible backend, that backend alone is tried; otherwise the eligible
    /// backends are tried in rank order.
    pub fn plan(entries: &Vec<BackendEntry>, vision: bool, hint: Option<&str>) -> (r: Dispatch)
        ensures
            is_plan(entries@, vision, match hint {
                Some(h) => Some(h@),
                None => None,
            }, r),
    {
        let mut candidates: Vec<usize> = Vec::new();
        match hint {
            Some(h) => {
                match find_backend(entries, h) {
                    Some(i) => {
                        if is_eligible(&entries[i]) {
                            candidates.push(i);
                        } else {
                            candidates = rank_backends(entries, vision);
                            proof {
                                assert forall|j: int| 0 <= j < entries@.len() && entries@[j].name@ == h@ && eligible(entries@[j])
                                    implies exists|k: int| 0 <= k < j && entries@[k].name@ == h@ by {
                                    if j != i {
                                        assert(j > i);
                                    }
                                }
                            }
                        }
                    },
                    None => {
                        candidates = rank_backends(entries, vision);
                    },
                }
            },
            None => {
                candidates = rank_backends(entries, vision);
            },
        }
        let mut names: Vec<String> = Vec::new();
        let mut k: usize = 0;
        while k < candidates.len()
            invariant
                k <= candidates@.len(),
                names@.len() == k,
                forall|q: int| 0 <= q < candidates@.len() ==> #[trigger] candidates@[q] < entries@.len(),
                forall|q: int| 0 <= q < k ==> #[trigger] names@[q]@ == entries@[candidates@[q] as int].name@,
            decreases candidates@.len() - k,
        {
            names.push(entries[candidates[k]].name.clone());
            k = k + 1;
        }
        Dispatch { candidates, names, position: 0, attempted: Vec::new() }
    }

    /// First step: send to the best candidate, or fail when there is none.
    pub fn first_step(&self) -> (r: Step)
        ensures
            self.candidates@.len() > 0 ==> r == Step::Send(self.candidates@[0]),
            self.candidates@.len() == 0 ==> (r matches Step::Fail(e) && e is BackendUnavailable),
    {
        if self.candidates.len() > 0 {
            Step::Send(self.candidates[0])
        } else {
            Step::Fail(Error::backend_unavailable("no eligible backend"))
        }
    }

    /// Records that the candidate in flight failed with `error`, and decides
    /// what follows: a failure that is not retryable is returned as it is;
    /// a retryable one moves on to the next candidate, or, when none is
    /// left, ends in an aggregate failure that names every backend tried
    /// and carries the last error.
    pub fn on_failure(&mut self, error: Error) -> (r: Step)
        requires
            old(self).position < old(self).candidates@.len(),
            old(self).names@.len() == old(self).candidates@.len(),
        ensures
            final(self).candidates == old(self).candidates,
            final(self).names == old(self).names,
            final(self).position == old(self).position + 1,
            final(self).attempted@ == old(self).attempted@.push(old(self).names@[old(self).position as int]),
            !retryable(error) ==> r == Step::Fail(error),
            retryable(error) && final(self).position < final(self).candidates@.len() ==> r == Step::Send(
                final(self).candidates@[final(self).position as int],
            ),
            retryable(error) && final(self).position == final(self).candidates@.len() ==> (r matches Step::Fail(
                Error::AllProvidersFailed { attempted, original_error },
            ) && attempted@ == final(self).attempted@ && *original_error == error),
    {
        let name = self.names[self.position].clone();
        let count = self.candidates.len();
        self.attempted.push(name);
        self.position = self.position + 1;
        if !error.is_retryable() {
            Step::Fail(error)
        } else if self.position < count {
            Step::Send(self.candidates[self.position])
        } else {
            Step::Fail(Error::AllProvidersFailed { attempted: copy_strings(&self.attempted), original_error: Box::new(error) })
        }
    }
}

} // verus!

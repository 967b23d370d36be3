use vstd::prelude::*;

verus! {

/// Where the shared loading of the widget's script stands.
#[derive(Debug, Clone, Copy, PartialEq, Eq, Structural)]
pub enum GateStatus {
    /// Nobody has asked yet.
    Idle,
    /// The script was injected and has not finished loading.
    Loading,
    /// The widget's API is available.
    Loaded,
    /// The script failed to load; there is no retry.
    Failed,
}

/// The next move for a caller of the loader.
#[derive(Debug, Clone, Copy, PartialEq, Eq, Structural)]
pub enum GateStep {
    /// Inject the script; the caller is released when it settles.
    Inject,
    /// A load is in flight; the caller is released when it settles.
    Wait,
    /// The API is available: go on at once.
    Resolved,
    /// The load failed.
    Rejected,
}

/// The mathematical form of a gate.
pub struct GateModel {
    pub status: GateStatus,
    /// The script was injected.
    pub injected: bool,
    /// The callers awaiting the load, in the order they asked.
    pub waiters: Seq<u64>,
}

impl GateModel {
    pub open spec fn fresh() -> GateModel {
        GateModel { status: GateStatus::Idle, injected: false, waiters: Seq::empty() }
    }

    pub open spec fn wf(self) -> bool {
        match self.status {
            GateStatus::Idle => !self.injected && self.waiters.len() == 0,
            GateStatus::Loading => self.injected,
            GateStatus::Loaded => self.waiters.len() == 0,
            GateStatus::Failed => self.injected && self.waiters.len() == 0,
        }
    }

    /// A request by `caller`, who found the API present or not.
    pub open spec fn request(self, caller: u64, api_present: bool) -> (GateModel, GateStep) {
        match self.status {
            GateStatus::Idle => if api_present {
                (GateModel { status: GateStatus::Loaded, ..self }, GateStep::Resolved)
            } else {
                (
                    GateModel {
                        status: GateStatus::Loading,
                        injected: true,
                        waiters: self.waiters.push(caller),
                    },
                    GateStep::Inject,
                )
            },
            GateStatus::Loading => (
                GateModel { waiters: self.waiters.push(caller), ..self },
                GateStep::Wait,
            ),
            GateStatus::Loaded => (self, GateStep::Resolved),
            GateStatus::Failed => (self, GateStep::Rejected),
        }
    }

    /// The load in flight settled, with success or not: the callers released.
    pub open spec fn settle(self, ok: bool) -> (GateModel, Seq<u64>) {
        if self.status is Loading {
            (
                GateModel {
                    status: if ok {
                        GateStatus::Loaded
                    } else {
                        GateStatus::Failed
                    },
                    injected: self.injected,
                    waiters: Seq::empty(),
                },
                self.waiters,
            )
        } else {
            (self, Seq::empty())
        }
    }

    /// A sequence of requests, in order, with the step each caller is given.
    pub open spec fn requests(self, reqs: Seq<(u64, bool)>) -> (GateModel, Seq<GateStep>)
        decreases reqs.len(),
    {
        if reqs.len() == 0 {
            (self, Seq::empty())
        } else {
            let (q, s) = self.request(reqs[0].0, reqs[0].1);
            let (r, t) = q.requests(reqs.subrange(1, reqs.len() as int));
            (r, seq![s] + t)
        }
    }
}

/// The one-time loader of the widget's script, shared by all controllers.
pub struct Gate {
    status: GateStatus,
    injected: bool,
    waiters: Vec<u64>,
}

impl View for Gate {
    type V = GateModel;

    closed spec fn view(&self) -> GateModel {
        GateModel { status: self.status, injected: self.injected, waiters: self.waiters@ }
    }
}

impl Gate {
    /// A gate that nobody has asked yet.
    pub fn new() -> (r: Gate)
        ensures
            r@ == GateModel::fresh(),
    {
        Gate { status: GateStatus::Idle, injected: false, waiters: Vec::new() }
    }

    pub fn status(&self) -> (r: GateStatus)
        ensures
            r == self@.status,
    {
        self.status
    }

    /// Whether the script was injected.
    pub fn is_injected(&self) -> (r: bool)
        ensures
            r == self@.injected,
    {
        self.injected
    }

    /// A caller asks for the widget's API, having found it present or not.
    /// The script is injected only by the first caller that finds the API
    /// absent; later callers wait for that load.
    pub fn request(&mut self, caller: u64, api_present: bool) -> (r: GateStep)
        requires
            old(self)@.wf(),
        ensures
            final(self)@.wf(),
            (final(self)@, r) == old(self)@.request(caller, api_present),
    {
        match self.status {
            GateStatus::Idle => {
                if api_present {
                    self.status = GateStatus::Loaded;
                    GateStep::Resolved
                } else {
                    self.status = GateStatus::Loading;
                    self.injected = true;
                    self.waiters.push(caller);
                    GateStep::Inject
                }
            },
            GateStatus::Loading => {
                self.waiters.push(caller);
                GateStep::Wait
            },
            GateStatus::Loaded => GateStep::Resolved,
            GateStatus::Failed => GateStep::Rejected,
        }
    }

    /// The load in flight settled. Returns the callers to release, in the
    /// order they asked; with `ok` they go on, else they fail.
    pub fn settle(&mut self, ok: bool) -> (r: Vec<u64>)
        requires
            old(self)@.wf(),
        ensures
            final(self)@.wf(),
            (final(self)@, r@) == old(self)@.settle(ok),
    {
        if matches!(self.status, GateStatus::Loading) {
            self.status = if ok {
                GateStatus::Loaded
            } else {
                GateStatus::Failed
            };
            let mut released: Vec<u64> = Vec::new();
            std::mem::swap(&mut released, &mut self.waiters);
            released
        } else {
            Vec::new()
        }
    }
}

/// However many callers ask, and whatever each finds, the script is injected
/// at most once, and never again once it was.
pub proof fn lemma_inject_at_most_once(g: GateModel, reqs: Seq<(u64, bool)>)
    requires
        g.wf(),
    ensures
        g.requests(reqs).0.wf(),
        g.requests(reqs).1.len() == reqs.len(),
        forall|i: int, j: int|
            0 <= i < j < reqs.len() ==> !(g.requests(reqs).1[i] is Inject && g.requests(
                reqs,
            ).1[j] is Inject),
        g.injected ==> forall|i: int| 0 <= i < reqs.len() ==> !(g.requests(reqs).1[i] is Inject),
        g.requests(reqs).0.injected == (g.injected || exists|i: int|
            0 <= i < reqs.len() && g.requests(reqs).1[i] is Inject),
    decreases reqs.len(),
{
    if reqs.len() > 0 {
        let (q, s) = g.request(reqs[0].0, reqs[0].1);
        let rest = reqs.subrange(1, reqs.len() as int);
        lemma_inject_at_most_once(q, rest);
        let (r, t) = q.requests(rest);
        let steps = seq![s] + t;
        assert(g.requests(reqs) == (r, steps));
        assert forall|i: int, j: int| 0 <= i < j < reqs.len() implies !(steps[i] is Inject
            && steps[j] is Inject) by {
            if i > 0 {
                assert(steps[i] == t[i - 1]);
                assert(steps[j] == t[j - 1]);
            } else {
                assert(steps[j] == t[j - 1]);
            }
        }
        if r.injected && !g.injected {
            if s is Inject {
                assert(steps[0] is Inject);
            } else {
                let k = choose|k: int| 0 <= k < rest.len() && t[k] is Inject;
                assert(steps[k + 1] is Inject);
            }
        }
        if exists|i: int| 0 <= i < reqs.len() && steps[i] is Inject {
            let i = choose|i: int| 0 <= i < reqs.len() && steps[i] is Inject;
            if i > 0 {
                assert(t[i - 1] is Inject);
            }
        }
    }
}

/// Two controllers asking at once, with the API not yet present: the first
/// injects the script, the second waits, and the load's success releases
/// both, in the order they asked, after the single injection.
pub proof fn lemma_two_callers(a: u64, b: u64, b_found: bool)
    ensures
        ({
            let (g1, s1) = GateModel::fresh().request(a, false);
            let (g2, s2) = g1.request(b, b_found);
            let (g3, released) = g2.settle(true);
            &&& s1 is Inject
            &&& s2 is Wait
            &&& g2.injected
            &&& released == seq![a, b]
            &&& g3.status is Loaded
        }),
{
    let (g1, s1) = GateModel::fresh().request(a, false);
    let (g2, s2) = g1.request(b, b_found);
    assert(g2.waiters =~= seq![a, b]);
}

} // verus!

//! Choosing and taking the CPU core that the sink worker runs on: the
//! highest-numbered core the thread may use, then the next below it, and so
//! on until the system accepts one.

use vstd::prelude::*;

verus! {

/// Where the sink worker ended up running.
#[derive(Debug, Clone, Copy, PartialEq, Eq, Structural)]
pub enum PinOutcome {
    /// Pinned to the core of that number.
    Pinned(usize),
    /// No core could be taken; the thread runs where the scheduler puts it.
    Unpinned,
}

/// The cores that the system reported for the calling thread. Only
/// `available_cores` makes one, so every number in it is one that the
/// system itself gave out.
pub struct CoreSet {
    ids: Vec<usize>,
}

impl View for CoreSet {
    type V = Seq<usize>;

    closed spec fn view(&self) -> Seq<usize> {
        self.ids@
    }
}

impl CoreSet {
    /// The core numbers, in the order the system reported them.
    pub fn to_vec(&self) -> (r: Vec<usize>)
        ensures
            r@ == self@,
    {
        let mut r: Vec<usize> = Vec::new();
        let mut i: usize = 0;
        while i < self.ids.len()
            invariant
                i <= self.ids@.len(),
                r@ == self.ids@.subrange(0, i as int),
            decreases self.ids@.len() - i,
        {
            r.push(self.ids[i]);
            i = i + 1;
            assert(r@ =~= self.ids@.subrange(0, i as int));
        }
        assert(self.ids@.subrange(0, self.ids@.len() as int) =~= self.ids@);
        r
    }
}

/// Relies on `core_affinity::get_core_ids`: the numbers of the cores that
/// the calling thread may run on, or `None` when the system does not tell.
#[verifier::external_body]
fn available_cores() -> Option<CoreSet> {
    core_affinity::get_core_ids().map(|ids| CoreSet { ids: ids.into_iter().map(|c| c.id).collect() })
}

/// Relies on `core_affinity::set_for_current`: asks the system to run the
/// calling thread on one core only, and reports whether it agreed. The core
/// is one that `get_core_ids` reported, and those are within what
/// `set_for_current` accepts on each platform.
#[verifier::external_body]
fn pin_current_thread(cores: &CoreSet, index: usize) -> (r: bool)
    requires
        index < cores@.len(),
{
    core_affinity::set_for_current(core_affinity::CoreId { id: cores.ids[index] })
}

/// Whether a core is still a candidate: below the last one tried, if any.
pub open spec fn below_limit(id: usize, below: Option<usize>) -> bool {
    match below {
        Some(b) => id < b,
        None => true,
    }
}

/// Whether `c` is the highest-numbered core of `ids` below `below`.
pub open spec fn is_next_core(ids: Seq<usize>, below: Option<usize>, c: usize) -> bool {
    &&& ids.contains(c)
    &&& below_limit(c, below)
    &&& forall|i: int| 0 <= i < ids.len() && below_limit(ids[i], below) ==> ids[i] <= c
}

/// Whether no core of `ids` is below `below`.
pub open spec fn none_left(ids: Seq<usize>, below: Option<usize>) -> bool {
    forall|i: int| 0 <= i < ids.len() ==> !below_limit(ids[i], below)
}

/// The limit in force at attempt `k`: the core of the attempt before it.
pub open spec fn limit_before(attempts: Seq<(usize, bool)>, k: int) -> Option<usize> {
    if k == 0 {
        None
    } else {
        Some(attempts[k - 1].0)
    }
}

/// What pinning over `ids` did: each attempt (core, accepted) took the
/// highest core below the one before it, so the cores go strictly down from
/// the highest; every attempt but the last was refused; the thread is
/// pinned exactly when the last one was accepted, and is left unpinned only
/// once every core was tried.
pub open spec fn pin_attempts_ok(
    ids: Seq<usize>,
    attempts: Seq<(usize, bool)>,
    outcome: PinOutcome,
) -> bool {
    &&& forall|k: int|
        0 <= k < attempts.len() ==> is_next_core(ids, limit_before(attempts, k), #[trigger] attempts[k].0)
    &&& forall|k: int| 0 <= k < attempts.len() - 1 ==> !(#[trigger] attempts[k]).1
    &&& match outcome {
        PinOutcome::Pinned(c) => attempts.len() > 0 && attempts.last() == (c, true),
        PinOutcome::Unpinned => {
            &&& (attempts.len() == 0 || !attempts.last().1)
            &&& none_left(ids, limit_before(attempts, attempts.len() as int))
        },
    }
}

/// The position in `ids` of the highest-numbered core below `below` (of all
/// of them when `below` is `None`), or `None` when there is none.
pub fn next_core_index(ids: &Vec<usize>, below: Option<usize>) -> (r: Option<usize>)
    ensures
        match r {
            Some(k) => k < ids@.len() && is_next_core(ids@, below, ids@[k as int]),
            None => none_left(ids@, below),
        },
{
    let mut best: Option<usize> = None;
    let mut i: usize = 0;
    while i < ids.len()
        invariant
            i <= ids@.len(),
            match best {
                Some(k) => {
                    &&& k < i
                    &&& below_limit(ids@[k as int], below)
                    &&& forall|j: int|
                        0 <= j < i && below_limit(ids@[j], below) ==> ids@[j] <= ids@[k as int]
                },
                None => forall|j: int| 0 <= j < i ==> !below_limit(ids@[j], below),
            },
        decreases ids@.len() - i,
    {
        let id = ids[i];
        let eligible = match below {
            Some(b) => id < b,
            None => true,
        };
        if eligible {
            match best {
                Some(k) => {
                    if id > ids[k] {
                        best = Some(i);
                    }
                },
                None => {
                    best = Some(i);
                },
            }
        }
        i = i + 1;
    }
    best
}

/// Tries the cores of `cores` from the highest number down and keeps the
/// first that the system accepts. Returns the outcome and every attempt made,
/// as (core, accepted), in order.
pub fn pin_to_highest(cores: &CoreSet) -> (r: (PinOutcome, Vec<(usize, bool)>))
    ensures
        pin_attempts_ok(cores@, r.1@, r.0),
{
    let mut attempts: Vec<(usize, bool)> = Vec::new();
    let mut below: Option<usize> = None;
    loop
        invariant
            below == limit_before(attempts@, attempts@.len() as int),
            forall|k: int|
                0 <= k < attempts@.len() ==> is_next_core(
                    cores@,
                    limit_before(attempts@, k),
                    #[trigger] attempts@[k].0,
                ),
            forall|k: int| 0 <= k < attempts@.len() ==> !(#[trigger] attempts@[k]).1,
        decreases
            match below {
                Some(b) => b as int,
                None => usize::MAX as int + 1,
            },
    {
        match next_core_index(&cores.ids, below) {
            Some(i) => {
                let c = cores.ids[i];
                let accepted = pin_current_thread(cores, i);
                let ghost old_attempts = attempts@;
                attempts.push((c, accepted));
                proof {
                    assert forall|k: int| 0 <= k < attempts@.len() implies is_next_core(
                        cores@,
                        limit_before(attempts@, k),
                        #[trigger] attempts@[k].0,
                    ) by {
                        if k < old_attempts.len() {
                            assert(attempts@[k] == old_attempts[k]);
                            assert(limit_before(attempts@, k) == limit_before(old_attempts, k));
                        } else {
                            assert(limit_before(attempts@, k) == below);
                        }
                    }
                }
                if accepted {
                    return (PinOutcome::Pinned(c), attempts);
                }
                below = Some(c);
            },
            None => {
                return (PinOutcome::Unpinned, attempts);
            },
        }
    }
}

/// How pinning the sink worker went: the cores the system reported (`None`
/// when it did not tell), the attempts made, and the outcome.
#[derive(Debug)]
pub struct PinReport {
    pub cores: Option<Vec<usize>>,
    pub attempts: Vec<(usize, bool)>,
    pub outcome: PinOutcome,
}

impl PinReport {
    /// The attempts went over the reported cores as `pin_attempts_ok` says;
    /// without a report nothing was tried and the thread is unpinned.
    pub open spec fn is_valid(&self) -> bool {
        match self.cores {
            Some(ids) => pin_attempts_ok(ids@, self.attempts@, self.outcome),
            None => self.attempts@.len() == 0 && self.outcome == PinOutcome::Unpinned,
        }
    }
}

/// Pins the calling thread to the highest-numbered core it may use, or to
/// the next one below where the system refuses; `Unpinned` when none can be
/// had.
pub fn pin_worker_thread() -> (r: PinReport)
    ensures
        r.is_valid(),
{
    match available_cores() {
        Some(cores) => {
            let (outcome, attempts) = pin_to_highest(&cores);
            PinReport { cores: Some(cores.to_vec()), attempts, outcome }
        },
        None => PinReport { cores: None, attempts: Vec::new(), outcome: PinOutcome::Unpinned },
    }
}

} // verus!

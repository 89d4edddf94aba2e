//! Bounded port acquisition.
//!
//! Candidate ports are `starting_port, starting_port + 1, ...`, at most
//! `max_attempts` of them and never past the top of the port range. The
//! caller owns the probing (binding and at once releasing a socket is
//! I/O); `PortAcquirer` decides which port to probe next and when to
//! give up, and `acquire` is the whole protocol run against a recorded
//! sequence of probe answers.
//!
//! Probing is deliberately a check, not a reservation: between a probe
//! and the later durable bind on the winning port another process may
//! take it, so the durable bind must be treated as fallible in its own
//! right (`BindRaceFailure` in the lifecycle, distinct from exhaustion).

use vstd::prelude::*;
use crate::fmt::{spec_decimal, u64_to_string};

verus! {

/// Probing exhausted every candidate without finding a free port.
#[derive(Debug, Clone, Copy, PartialEq, Eq, Structural)]
pub struct NoPortAvailable {
    /// The first candidate port that was asked for.
    pub starting_port: u16,
    /// The bound on the number of candidates.
    pub max_attempts: u8,
}

impl NoPortAvailable {
    /// The report this failure prints, with the attempt bound spelled
    /// out in decimal.
    pub fn message(&self) -> (r: String)
        ensures
            r@ == "Could not find available port after "@ + spec_decimal(self.max_attempts as nat)
                + " attempts"@,
    {
        proof {
            reveal_strlit("Could not find available port after ");
            reveal_strlit(" attempts");
        }
        let mut out = String::from_str("Could not find available port after ");
        let count = u64_to_string(self.max_attempts as u64);
        out.append(count.as_str());
        out.append(" attempts");
        out
    }
}

/// Drives the candidate sequence: hands out the next port to probe and
/// records each occupied answer, until a probe succeeds or the budget
/// or the port range runs out.
#[derive(Debug, Clone, Copy)]
pub struct PortAcquirer {
    /// The first candidate port.
    pub starting_port: u16,
    /// The bound on the number of candidates.
    pub max_attempts: u8,
    /// How many candidates have been probed and found occupied.
    pub attempt: u8,
}

impl PortAcquirer {
    /// The acquirer never counts more occupied answers than it has
    /// candidates.
    pub open spec fn wf(self) -> bool {
        self.attempt <= self.max_attempts
    }

    /// The port the next probe should try: `None` once the budget is
    /// spent or the candidate would lie past the top of the port range.
    pub open spec fn spec_next_candidate(self) -> Option<u16> {
        if self.attempt < self.max_attempts && self.starting_port + self.attempt <= 65535 {
            Some((self.starting_port + self.attempt) as u16)
        } else {
            None
        }
    }

    /// A fresh acquirer that has probed nothing yet.
    pub fn new(starting_port: u16, max_attempts: u8) -> (a: Self)
        ensures
            a.wf(),
            a.starting_port == starting_port,
            a.max_attempts == max_attempts,
            a.attempt == 0,
    {
        PortAcquirer { starting_port, max_attempts, attempt: 0 }
    }

    /// The port to probe next, or `None` when acquisition is exhausted.
    pub fn next_candidate(&self) -> (r: Option<u16>)
        ensures
            r == self.spec_next_candidate(),
    {
        if self.attempt < self.max_attempts {
            let cand: u32 = self.starting_port as u32 + self.attempt as u32;
            if cand <= 65535 {
                Some(cand as u16)
            } else {
                None
            }
        } else {
            None
        }
    }

    /// Record that the candidate just handed out was occupied; the next
    /// candidate moves one port up.
    pub fn record_occupied(&mut self)
        requires
            old(self).wf(),
            old(self).attempt < old(self).max_attempts,
        ensures
            final(self).wf(),
            final(self).starting_port == old(self).starting_port,
            final(self).max_attempts == old(self).max_attempts,
            final(self).attempt == old(self).attempt + 1,
    {
        self.attempt = self.attempt + 1;
    }
}

/// What a finished acquisition run must have decided, given the probe
/// answer for each candidate (`free[i]` answers for port
/// `starting_port + i`): the first in-range free candidate wins, and
/// failure means every in-range candidate was occupied.
pub open spec fn acquire_resolves(
    starting_port: u16,
    max_attempts: u8,
    free: Seq<bool>,
    r: Result<u16, NoPortAvailable>,
) -> bool {
    match r {
        Ok(p) => {
            &&& starting_port <= p
            &&& p - starting_port < free.len()
            &&& free[p - starting_port]
            &&& forall|j: int| 0 <= j < p - starting_port ==> !free[j]
        },
        Err(e) => {
            &&& forall|i: int|
                0 <= i < free.len() && starting_port + i <= 65535 ==> !free[i]
            &&& e.starting_port == starting_port
            &&& e.max_attempts == max_attempts
        },
    }
}

/// Run the whole acquisition protocol against recorded probe answers:
/// return the first free candidate in ascending order from
/// `starting_port`, or report exhaustion when every in-range candidate
/// is occupied.
pub fn acquire(starting_port: u16, max_attempts: u8, free: &Vec<bool>) -> (r: Result<
    u16,
    NoPortAvailable,
>)
    requires
        free@.len() == max_attempts as nat,
    ensures
        acquire_resolves(starting_port, max_attempts, free@, r),
{
    let mut acq = PortAcquirer::new(starting_port, max_attempts);
    loop
        invariant
            acq.wf(),
            acq.starting_port == starting_port,
            acq.max_attempts == max_attempts,
            free@.len() == max_attempts as nat,
            forall|j: int| 0 <= j < acq.attempt ==> !free@[j],
        decreases max_attempts as int - acq.attempt as int,
    {
        match acq.next_candidate() {
            Some(p) => {
                let idx: usize = acq.attempt as usize;
                if free[idx] {
                    return Ok(p);
                }
                acq.record_occupied();
            },
            None => {
                return Err(NoPortAvailable { starting_port, max_attempts });
            },
        }
    }
}

/// Law: whenever at least one in-range candidate is free, acquisition
/// succeeds, and the port it returns is the first free candidate in
/// ascending order from the starting port.
pub proof fn lemma_acquire_first_free(
    starting_port: u16,
    max_attempts: u8,
    free: Seq<bool>,
    r: Result<u16, NoPortAvailable>,
    i: int,
)
    requires
        free.len() == max_attempts as nat,
        acquire_resolves(starting_port, max_attempts, free, r),
        0 <= i < free.len(),
        starting_port + i <= 65535,
        free[i],
    ensures
        r is Ok,
        starting_port <= r->Ok_0 <= starting_port + i,
        free[r->Ok_0 - starting_port],
        forall|j: int| 0 <= j < r->Ok_0 - starting_port ==> !free[j],
{
}

/// Law: when the starting port itself is free, acquisition returns
/// exactly the starting port, skipping nothing.
pub proof fn lemma_acquire_starting_port(
    starting_port: u16,
    max_attempts: u8,
    free: Seq<bool>,
    r: Result<u16, NoPortAvailable>,
)
    requires
        free.len() == max_attempts as nat,
        max_attempts >= 1,
        acquire_resolves(starting_port, max_attempts, free, r),
        free[0],
    ensures
        r == Ok::<u16, NoPortAvailable>(starting_port),
{
}

/// Law: when the starting port is occupied and the port one above it is
/// free, acquisition returns that next port.
pub proof fn lemma_acquire_next_port(
    starting_port: u16,
    max_attempts: u8,
    free: Seq<bool>,
    r: Result<u16, NoPortAvailable>,
)
    requires
        free.len() == max_attempts as nat,
        max_attempts >= 2,
        starting_port + 1 <= 65535,
        acquire_resolves(starting_port, max_attempts, free, r),
        !free[0],
        free[1],
    ensures
        r == Ok::<u16, NoPortAvailable>((starting_port + 1) as u16),
{
}

/// Law: when every candidate is occupied, acquisition fails with the
/// exhaustion report carrying the starting port and the attempt bound.
pub proof fn lemma_acquire_exhausted(
    starting_port: u16,
    max_attempts: u8,
    free: Seq<bool>,
    r: Result<u16, NoPortAvailable>,
)
    requires
        free.len() == max_attempts as nat,
        acquire_resolves(starting_port, max_attempts, free, r),
        forall|i: int| 0 <= i < free.len() ==> !free[i],
    ensures
        r is Err,
        r->Err_0.starting_port == starting_port,
        r->Err_0.max_attempts == max_attempts,
{
}

/// Law: probing never stops early and never overruns its budget: while
/// fewer than `max_attempts` candidates have been found occupied (and
/// the next candidate is still a valid port), the acquirer offers one
/// more; at `max_attempts` occupied answers it is exhausted. With
/// `record_occupied` advancing one candidate per occupied answer, a run
/// that ends in exhaustion has probed exactly `max_attempts` ports.
pub proof fn lemma_probe_budget(a: PortAcquirer)
    requires
        a.wf(),
    ensures
        a.attempt < a.max_attempts && a.starting_port + a.attempt <= 65535 ==> (
        a.spec_next_candidate() is Some),
        a.attempt == a.max_attempts ==> (a.spec_next_candidate() is None),
{
}

} // verus!

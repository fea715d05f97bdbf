//! Scheduled and watched workflows, and the in-memory scheduler that keeps
//! their handles by ID.

use vstd::prelude::*;

use crate::outside::{new_id, now, Timestamp};
use crate::text::{uuid_string, uuid_text};

verus! {

/// How often a scheduled workflow runs.
#[derive(Debug, Clone)]
pub enum ScheduleFrequency {
    /// Run once at a specific time.
    Once { at: Timestamp },
    /// Run on an interval in seconds.
    Interval { every_secs: u64 },
    /// Cron expression.
    Cron { expression: String },
    /// Watch mode: triggered by events, not time.
    Watch { pattern: String },
}

/// Specification for a scheduled or watched workflow.
#[derive(Debug, Clone)]
pub struct ScheduleSpec {
    /// Human-readable label.
    pub label: String,
    /// The objective to execute on each trigger.
    pub objective: String,
    /// How often to run.
    pub frequency: ScheduleFrequency,
    /// Optional pack name to use.
    pub pack: Option<String>,
    /// Whether the workflow is currently enabled.
    pub enabled: bool,
}

/// Status of a scheduled workflow.
#[derive(Debug, Clone, Copy, PartialEq, Eq, Structural, Hash)]
pub enum WorkflowStatus {
    Active,
    Paused,
    Completed,
    Failed,
    Cancelled,
}

/// Runtime state of a scheduled workflow.
#[derive(Debug, Clone)]
pub struct WorkflowHandle {
    /// Unique workflow ID.
    pub id: u128,
    /// The spec that created this workflow.
    pub spec: ScheduleSpec,
    /// Current status.
    pub status: WorkflowStatus,
    /// When the workflow was created.
    pub created_at: Timestamp,
    /// When the workflow last ran.
    pub last_run: Option<Timestamp>,
    /// How many times it has run.
    pub run_count: u64,
}

impl ScheduleSpec {
    /// A copy of the spec.
    pub fn duplicate(&self) -> (s: ScheduleSpec)
        ensures
            s == *self,
    {
        let frequency = match &self.frequency {
            ScheduleFrequency::Once { at } => ScheduleFrequency::Once { at: *at },
            ScheduleFrequency::Interval { every_secs } => ScheduleFrequency::Interval {
                every_secs: *every_secs,
            },
            ScheduleFrequency::Cron { expression } => ScheduleFrequency::Cron {
                expression: expression.clone(),
            },
            ScheduleFrequency::Watch { pattern } => ScheduleFrequency::Watch { pattern: pattern.clone() },
        };
        let pack = match &self.pack {
            Some(p) => Some(p.clone()),
            None => None,
        };
        ScheduleSpec {
            label: self.label.clone(),
            objective: self.objective.clone(),
            frequency,
            pack,
            enabled: self.enabled,
        }
    }
}

impl WorkflowHandle {
    /// A copy of the handle.
    pub fn duplicate(&self) -> (h: WorkflowHandle)
        ensures
            h == *self,
    {
        WorkflowHandle {
            id: self.id,
            spec: self.spec.duplicate(),
            status: self.status,
            created_at: self.created_at,
            last_run: self.last_run,
            run_count: self.run_count,
        }
    }
}

/// Why the scheduler refused a request.
#[derive(Debug, Clone, Copy)]
pub enum ScheduleError {
    /// No workflow has this ID.
    NotFound(u128),
    /// The workflow is not paused, so there is nothing to resume.
    NotPaused(u128),
}

impl ScheduleError {
    /// The error's message: `workflow not found: <id>` or
    /// `workflow not paused: <id>`.
    pub fn message(&self) -> (m: String)
        ensures
            match self {
                ScheduleError::NotFound(id) => m@ == "workflow not found: "@ + uuid_text(*id),
                ScheduleError::NotPaused(id) => m@ == "workflow not paused: "@ + uuid_text(*id),
            },
    {
        match self {
            ScheduleError::NotFound(id) => String::from_str("workflow not found: ").concat(
                uuid_string(*id).as_str(),
            ),
            ScheduleError::NotPaused(id) => String::from_str("workflow not paused: ").concat(
                uuid_string(*id).as_str(),
            ),
        }
    }
}

/// Workflow handles, by ID.
pub struct MockScheduler {
    workflows: std::collections::HashMap<u128, WorkflowHandle>,
}

/// A handle with another status.
pub open spec fn with_status(h: WorkflowHandle, status: WorkflowStatus) -> WorkflowHandle {
    WorkflowHandle { status, ..h }
}

impl MockScheduler {
    /// The stored handles, by ID.
    pub closed spec fn workflows(&self) -> Map<u128, WorkflowHandle> {
        self.workflows@
    }

    /// An empty scheduler.
    pub fn new() -> (s: MockScheduler)
        ensures
            s.workflows() == Map::<u128, WorkflowHandle>::empty(),
    {
        MockScheduler { workflows: std::collections::HashMap::new() }
    }

    /// Create a workflow: a fresh ID, active, created now, never run. Gives
    /// its ID.
    pub fn create(&mut self, spec: ScheduleSpec) -> (id: u128)
        ensures
            final(self).workflows() == old(self).workflows().insert(id, final(self).workflows()[id]),
            final(self).workflows()[id].id == id,
            final(self).workflows()[id].spec == spec,
            final(self).workflows()[id].status == WorkflowStatus::Active,
            final(self).workflows()[id].last_run is None,
            final(self).workflows()[id].run_count == 0,
    {
        broadcast use vstd::std_specs::hash::group_hash_axioms;
        let id = new_id();
        let h = WorkflowHandle {
            id,
            spec,
            status: WorkflowStatus::Active,
            created_at: now(),
            last_run: None,
            run_count: 0,
        };
        self.workflows.insert(id, h);
        id
    }

    /// The handle of a workflow.
    pub fn get(&self, id: u128) -> (r: Result<WorkflowHandle, ScheduleError>)
        ensures
            if self.workflows().contains_key(id) {
                r == Ok::<WorkflowHandle, ScheduleError>(self.workflows()[id])
            } else {
                r == Err::<WorkflowHandle, ScheduleError>(ScheduleError::NotFound(id))
            },
    {
        broadcast use vstd::std_specs::hash::group_hash_axioms;
        match self.workflows.get(&id) {
            Some(h) => Ok(h.duplicate()),
            None => Err(ScheduleError::NotFound(id)),
        }
    }

    /// The IDs of every workflow, each once, in no particular order.
    pub fn list(&self) -> (ids: Vec<u128>)
        ensures
            ids@.no_duplicates(),
            forall|k: u128| #[trigger] ids@.contains(k) <==> self.workflows().contains_key(k),
    {
        broadcast use vstd::std_specs::hash::group_hash_axioms;
        let ghost m = self.workflows@;
        let ghost sq = vstd::std_specs::iter::IteratorSpec::remaining(
            &vstd::std_specs::hash::spec_hash_map_iter(&self.workflows),
        );
        let ghost mut cnt: int = 0;
        let mut r: Vec<u128> = Vec::new();
        for kv in it: self.workflows.iter()
            invariant
                it.seq() == sq,
                cnt == it.index(),
                sq.no_duplicates(),
                sq.len() == m.dom().len(),
                self.workflows@ == m,
                forall|i: int| 0 <= i < sq.len() ==> m.contains_key(*sq[i].0) && m[*sq[i].0] == *sq[i].1,
                forall|k: u128| m.contains_key(k) ==> sq.contains((&k, &m[k])),
                r@.no_duplicates(),
                forall|k: u128| #[trigger] r@.contains(k) <==> exists|j: int| 0 <= j < cnt && *sq[j].0 == k,
        {
            let (k, h) = kv;
            let ghost r0 = r@;
            proof {
                assert(sq[cnt] == (k, h));
                if r0.contains(*k) {
                    let j = choose|j: int| 0 <= j < cnt && *sq[j].0 == *k;
                    assert(sq[j] == sq[cnt]);
                }
            }
            r.push(*k);
            proof {
                let c = cnt;
                assert forall|x: u128| #[trigger] r@.contains(x) <==> exists|j: int| 0 <= j < c + 1 && *sq[j].0 == x by {
                    if r@.contains(x) {
                        if r0.contains(x) {
                            let j = choose|j: int| 0 <= j < c && *sq[j].0 == x;
                            assert(0 <= j < c + 1 && *sq[j].0 == x);
                        } else {
                            assert(x == *k);
                            assert(*sq[c].0 == x);
                        }
                    }
                    if exists|j: int| 0 <= j < c + 1 && *sq[j].0 == x {
                        let j = choose|j: int| 0 <= j < c + 1 && *sq[j].0 == x;
                        if j < c {
                            assert(r0.contains(x));
                            assert(r@[r0.index_of(x)] == x);
                        } else {
                            assert(r@[r0.len() as int] == x);
                        }
                    }
                }
                cnt = cnt + 1;
            }
        }
        proof {
            assert(cnt == sq.len());
            assert forall|k: u128| #[trigger] r@.contains(k) <==> self.workflows().contains_key(k) by {
                if self.workflows@.contains_key(k) {
                    let j = choose|j: int| 0 <= j < sq.len() && sq[j] == (&k, &m[k]);
                    assert(*sq[j].0 == k);
                }
            }
        }
        r
    }

    fn set_status(&mut self, id: u128, status: WorkflowStatus) -> (r: Result<(), ScheduleError>)
        ensures
            if old(self).workflows().contains_key(id) {
                &&& r is Ok
                &&& final(self).workflows() == old(self).workflows().insert(
                    id,
                    with_status(old(self).workflows()[id], status),
                )
            } else {
                &&& r == Err::<(), ScheduleError>(ScheduleError::NotFound(id))
                &&& final(self).workflows() == old(self).workflows()
            },
    {
        broadcast use vstd::std_specs::hash::group_hash_axioms;
        let changed = match self.workflows.get(&id) {
            Some(h) => {
                let mut c = h.duplicate();
                c.status = status;
                Some(c)
            },
            None => None,
        };
        match changed {
            Some(c) => {
                self.workflows.insert(id, c);
                Ok(())
            },
            None => Err(ScheduleError::NotFound(id)),
        }
    }

    /// Pause a workflow.
    pub fn pause(&mut self, id: u128) -> (r: Result<(), ScheduleError>)
        ensures
            if old(self).workflows().contains_key(id) {
                &&& r is Ok
                &&& final(self).workflows() == old(self).workflows().insert(
                    id,
                    with_status(old(self).workflows()[id], WorkflowStatus::Paused),
                )
            } else {
                &&& r == Err::<(), ScheduleError>(ScheduleError::NotFound(id))
                &&& final(self).workflows() == old(self).workflows()
            },
    {
        self.set_status(id, WorkflowStatus::Paused)
    }

    /// Resume a paused workflow: it becomes active. A workflow that is not
    /// paused is refused and left as it is.
    pub fn resume(&mut self, id: u128) -> (r: Result<(), ScheduleError>)
        ensures
            if !old(self).workflows().contains_key(id) {
                &&& r == Err::<(), ScheduleError>(ScheduleError::NotFound(id))
                &&& final(self).workflows() == old(self).workflows()
            } else if old(self).workflows()[id].status != WorkflowStatus::Paused {
                &&& r == Err::<(), ScheduleError>(ScheduleError::NotPaused(id))
                &&& final(self).workflows() == old(self).workflows()
            } else {
                &&& r is Ok
                &&& final(self).workflows() == old(self).workflows().insert(
                    id,
                    with_status(old(self).workflows()[id], WorkflowStatus::Active),
                )
            },
    {
        broadcast use vstd::std_specs::hash::group_hash_axioms;
        let paused = match self.workflows.get(&id) {
            Some(h) => match h.status {
                WorkflowStatus::Paused => true,
                _ => false,
            },
            None => true,
        };
        if !paused {
            return Err(ScheduleError::NotPaused(id));
        }
        self.set_status(id, WorkflowStatus::Active)
    }

    /// Cancel a workflow.
    pub fn cancel(&mut self, id: u128) -> (r: Result<(), ScheduleError>)
        ensures
            if old(self).workflows().contains_key(id) {
                &&& r is Ok
                &&& final(self).workflows() == old(self).workflows().insert(
                    id,
                    with_status(old(self).workflows()[id], WorkflowStatus::Cancelled),
                )
            } else {
                &&& r == Err::<(), ScheduleError>(ScheduleError::NotFound(id))
                &&& final(self).workflows() == old(self).workflows()
            },
    {
        self.set_status(id, WorkflowStatus::Cancelled)
    }
}

/// A workflow created is found by its ID, as created.
pub proof fn law_created_workflow_is_found(hs: Map<u128, WorkflowHandle>, h: WorkflowHandle)
    ensures
        ({
            let after = hs.insert(h.id, h);
            &&& after.contains_key(h.id)
            &&& after[h.id] == h
            &&& after.dom() == hs.dom().insert(h.id)
        }),
{
    assert(hs.insert(h.id, h).dom() =~= hs.dom().insert(h.id));
}

/// Pausing then resuming a workflow makes it active again and changes
/// nothing else.
pub proof fn law_pause_then_resume(hs: Map<u128, WorkflowHandle>, id: u128)
    requires
        hs.contains_key(id),
    ensures
        ({
            let paused = hs.insert(id, with_status(hs[id], WorkflowStatus::Paused));
            &&& paused.contains_key(id)
            &&& paused.insert(id, with_status(paused[id], WorkflowStatus::Active)) == hs.insert(
                id,
                with_status(hs[id], WorkflowStatus::Active),
            )
        }),
{
    let paused = hs.insert(id, with_status(hs[id], WorkflowStatus::Paused));
    assert(paused.insert(id, with_status(paused[id], WorkflowStatus::Active)) =~= hs.insert(
        id,
        with_status(hs[id], WorkflowStatus::Active),
    ));
}

impl Default for MockScheduler {
    /// A scheduler with no workflows.
    fn default() -> (s: MockScheduler)
        ensures
            s.workflows() == Map::<u128, WorkflowHandle>::empty(),
    {
        MockScheduler::new()
    }
}

} // verus!

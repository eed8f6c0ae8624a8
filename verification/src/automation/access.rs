//! Per-session workflow ownership: which caller may run an operation on the
//! device session while an Automation task may own it.

use vstd::prelude::*;

verus! {

/// The state of the ownership record.
pub struct AccessState {
    /// The last task number handed out.
    pub next: u64,
    /// The owning task and whether it was told to stop.
    pub owner: Option<(u64, bool)>,
    /// Operations that were admitted and have not left yet.
    pub calls: nat,
    /// The connection is closing: no new task, no new unowned operation.
    pub closed: bool,
}

impl AccessState {
    /// An owner's number was handed out by this record.
    pub open spec fn wf(self) -> bool {
        self.owner matches Some((id, _)) ==> 0 < id <= self.next
    }
}

/// Why a task may not claim the session.
pub open spec fn claim_refusal(s: AccessState) -> Option<Seq<char>> {
    if s.closed {
        Some("The original connection is closing"@)
    } else if s.owner is Some {
        Some("An Automation task already owns this session"@)
    } else if s.calls != 0 {
        Some("An application operation is in progress; wait for it to finish"@)
    } else if s.next == u64::MAX {
        Some("workflow generation exhausted"@)
    } else {
        None
    }
}

/// Why an operation on behalf of `caller` (a task number, or none for the
/// application itself) may not start; `cleanup` marks a task's own cleanup.
pub open spec fn enter_refusal(s: AccessState, caller: Option<u64>, cleanup: bool) -> Option<Seq<char>> {
    match (s.owner, caller) {
        (Some((owner, cancelled)), Some(id)) => {
            if owner == id {
                if !cleanup && (s.closed || cancelled) {
                    Some("Automation was cancelled; no further operation is allowed"@)
                } else {
                    None
                }
            } else {
                Some("The operation belongs to an expired or closed session"@)
            }
        },
        (None, None) => {
            if s.closed {
                Some("The operation belongs to an expired or closed session"@)
            } else {
                None
            }
        },
        (Some(_), None) => Some("Automation owns this operation; cancel it or use global motor Stop/Disable"@),
        (None, Some(_)) => Some("The operation belongs to an expired or closed session"@),
    }
}

/// The owner entry with its stop flag raised.
pub open spec fn flagged(owner: Option<(u64, bool)>) -> Option<(u64, bool)> {
    match owner {
        Some((id, _)) => Some((id, true)),
        None => None,
    }
}

/// Admission of operations while at most one Automation task owns the session.
#[derive(Debug)]
pub struct WorkflowAccess {
    next: u64,
    owner: Option<(u64, bool)>,
    calls: usize,
    closed: bool,
}

/// Proof that an operation was admitted; hand it back with `leave`.
#[derive(Debug)]
pub struct Permit {
    admitted: bool,
}

impl View for WorkflowAccess {
    type V = AccessState;

    closed spec fn view(&self) -> AccessState {
        AccessState { next: self.next, owner: self.owner, calls: self.calls as nat, closed: self.closed }
    }
}

impl Default for WorkflowAccess {
    fn default() -> (res: Self)
        ensures
            res@ == (AccessState { next: 0, owner: None, calls: 0, closed: false }),
    {
        WorkflowAccess { next: 0, owner: None, calls: 0, closed: false }
    }
}

impl WorkflowAccess {
    /// Makes a new task the owner of the session and returns its number.
    pub fn claim(&mut self) -> (res: Result<u64, String>)
        requires
            old(self)@.wf(),
        ensures
            final(self)@.wf(),
            match claim_refusal(old(self)@) {
                Some(message) => res matches Err(e) && e@ == message && final(self)@ == old(self)@,
                None => {
                    let id = (old(self)@.next + 1) as u64;
                    &&& res == Ok::<u64, String>(id)
                    &&& final(self)@ == (AccessState { next: id, owner: Some((id, false)), ..old(self)@ })
                },
            },
    {
        if self.closed {
            return Err("The original connection is closing".to_owned());
        }
        if self.owner.is_some() {
            return Err("An Automation task already owns this session".to_owned());
        }
        if self.calls != 0 {
            return Err("An application operation is in progress; wait for it to finish".to_owned());
        }
        if self.next == u64::MAX {
            return Err("workflow generation exhausted".to_owned());
        }
        self.next = self.next + 1;
        let id = self.next;
        self.owner = Some((id, false));
        Ok(id)
    }

    /// Admits an operation on behalf of `caller`: the owning task (also after
    /// it was told to stop, when the operation is its own cleanup), or the
    /// application itself while no task owns the session.
    pub fn enter(&mut self, caller: Option<u64>, cleanup: bool) -> (res: Result<Permit, String>)
        requires
            old(self)@.calls < usize::MAX,
        ensures
            match enter_refusal(old(self)@, caller, cleanup) {
                Some(message) => res matches Err(e) && e@ == message && final(self)@ == old(self)@,
                None => res is Ok && final(self)@ == (AccessState { calls: old(self)@.calls + 1, ..old(self)@ }),
            },
    {
        match (self.owner, caller) {
            (Some((owner, cancelled)), Some(id)) => {
                if owner != id {
                    return Err("The operation belongs to an expired or closed session".to_owned());
                }
                if !cleanup && (self.closed || cancelled) {
                    return Err("Automation was cancelled; no further operation is allowed".to_owned());
                }
            },
            (None, None) => {
                if self.closed {
                    return Err("The operation belongs to an expired or closed session".to_owned());
                }
            },
            (Some(_), None) => {
                return Err(
                    "Automation owns this operation; cancel it or use global motor Stop/Disable".to_owned(),
                );
            },
            (None, Some(_)) => {
                return Err("The operation belongs to an expired or closed session".to_owned());
            },
        }
        self.calls = self.calls + 1;
        Ok(Permit { admitted: true })
    }

    /// Ends an admitted operation.
    pub fn leave(&mut self, permit: Permit)
        ensures
            final(self)@ == (AccessState {
                calls: if old(self)@.calls > 0 { (old(self)@.calls - 1) as nat } else { 0 },
                ..old(self)@
            }),
    {
        let _ = permit.admitted;
        if self.calls > 0 {
            self.calls = self.calls - 1;
        }
    }

    /// Tells the owning task to stop.
    pub fn revoke(&mut self)
        ensures
            final(self)@ == (AccessState { owner: flagged(old(self)@.owner), ..old(self)@ }),
    {
        if let Some((id, _)) = self.owner {
            self.owner = Some((id, true));
        }
    }

    /// Marks the connection as closing and tells the owning task to stop.
    pub fn close(&mut self)
        ensures
            final(self)@ == (AccessState { owner: flagged(old(self)@.owner), closed: true, ..old(self)@ }),
    {
        self.closed = true;
        self.revoke();
    }

    /// Ends the ownership of task `id`; another task's ownership stays.
    pub fn release(&mut self, id: u64)
        ensures
            final(self)@ == (AccessState {
                owner: match old(self)@.owner {
                    Some((owner, _)) => if owner == id { None } else { old(self)@.owner },
                    None => None,
                },
                ..old(self)@
            }),
    {
        if let Some((owner, _)) = self.owner {
            if owner == id {
                self.owner = None;
            }
        }
    }

    /// The stop flag of task `id`, if it owns the session.
    pub fn cancellation(&self, id: u64) -> (res: Option<bool>)
        ensures
            res == (match self@.owner {
                Some((owner, cancelled)) => if owner == id { Some(cancelled) } else { None },
                None => None,
            }),
    {
        match self.owner {
            Some((owner, cancelled)) => if owner == id { Some(cancelled) } else { None },
            None => None,
        }
    }
}

/// A closing session admits no new task and no operation of the application
/// itself.
pub proof fn lemma_closed_session_refuses_new_work(s: AccessState, cleanup: bool)
    requires
        s.closed,
    ensures
        claim_refusal(s) is Some,
        enter_refusal(s, None, cleanup) is Some,
{
}

/// While a task owns the session, only that task's operations are admitted,
/// and no second task can claim it.
pub proof fn lemma_owner_excludes_others(s: AccessState, other: Option<u64>, cleanup: bool)
    requires
        s.owner matches Some((owner, _)) && other != Some(owner),
    ensures
        claim_refusal(s) is Some,
        enter_refusal(s, other, cleanup) is Some,
{
}

/// A task number handed out before a claim is never the number of the task
/// that claim makes the owner, so an expired task cannot act on a later one.
pub proof fn lemma_expired_owner_cannot_act(s: AccessState, expired: u64, cleanup: bool)
    requires
        s.wf(),
        claim_refusal(s) is None,
        expired <= s.next,
    ensures
        enter_refusal(
            AccessState { next: (s.next + 1) as u64, owner: Some(((s.next + 1) as u64, false)), ..s },
            Some(expired),
            cleanup,
        ) is Some,
{
}

} // verus!

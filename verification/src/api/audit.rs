//! Reading the audit log.

use crate::models::{kind_instance, AuditEvent, AuditEventView};
use crate::store::{audit_views, Store};
use vstd::prelude::*;
use vstd::string::*;

verus! {

/// Whether an event is about the instance with this id.
pub open spec fn concerns(e: AuditEventView, id: u128) -> bool {
    e.entity_id == Some(id) && e.kind == kind_instance()
}

/// The events of a log that are about the instance with this id, in the
/// order of the log.
pub open spec fn events_for(log: Seq<AuditEventView>, id: u128) -> Seq<AuditEventView>
    decreases log.len(),
{
    if log.len() == 0 {
        Seq::empty()
    } else if concerns(log.last(), id) {
        events_for(log.drop_last(), id).push(log.last())
    } else {
        events_for(log.drop_last(), id)
    }
}

/// An event is selected exactly when it is in the log and concerns the
/// instance.
pub proof fn lemma_events_for(log: Seq<AuditEventView>, id: u128, e: AuditEventView)
    ensures
        events_for(log, id).contains(e) <==> log.contains(e) && concerns(e, id),
    decreases log.len(),
{
    if log.len() > 0 {
        let rest = log.drop_last();
        let picked = events_for(log, id);
        let earlier = events_for(rest, id);
        lemma_events_for(rest, id, e);
        if picked.contains(e) {
            let k = choose|k: int| 0 <= k < picked.len() && picked[k] == e;
            if concerns(log.last(), id) && k == earlier.len() {
                assert(log[log.len() - 1] == e);
            } else {
                assert(earlier[k] == e);
                assert(earlier.contains(e));
                let j = choose|j: int| 0 <= j < rest.len() && rest[j] == e;
                assert(log[j] == e);
            }
        }
        if log.contains(e) && concerns(e, id) {
            let j = choose|j: int| 0 <= j < log.len() && log[j] == e;
            if j == log.len() - 1 {
                assert(picked[picked.len() - 1] == e);
            } else {
                assert(rest[j] == e);
                assert(rest.contains(e));
                let k = choose|k: int| 0 <= k < earlier.len() && earlier[k] == e;
                assert(picked[k] == e);
            }
        }
    }
}

impl AuditEvent {
    /// Every event of the log, oldest first.
    pub fn get_all(store: &Store) -> (out: Vec<AuditEvent>)
        ensures
            audit_views(out@) == store@.audit,
    {
        let log = store.audit_log();
        let mut out: Vec<AuditEvent> = Vec::new();
        let mut k: usize = 0;
        while k < log.len()
            invariant
                k <= log.len(),
                out.len() == k,
                forall|j: int| 0 <= j < k ==> (#[trigger] out[j])@ == log[j]@,
            decreases log.len() - k,
        {
            out.push(log[k].duplicate());
            k += 1;
        }
        assert(audit_views(out@) =~= audit_views(log@));
        out
    }

    /// The events about the instance with this id, oldest first.
    pub fn get_for_instance(id: u128, store: &Store) -> (out: Vec<AuditEvent>)
        ensures
            audit_views(out@) == events_for(store@.audit, id),
    {
        let log = store.audit_log();
        let wanted = String::from_str("instance");
        let mut out: Vec<AuditEvent> = Vec::new();
        let mut k: usize = 0;
        assert(audit_views(log@).take(0) =~= Seq::empty());
        assert(audit_views(out@) =~= Seq::empty());
        while k < log.len()
            invariant
                k <= log.len(),
                wanted@ == kind_instance(),
                audit_views(out@) == events_for(audit_views(log@).take(k as int), id),
            decreases log.len() - k,
        {
            let ghost before = audit_views(log@).take(k as int);
            let ghost after = audit_views(log@).take(k as int + 1);
            let ghost selected = audit_views(out@);
            assert(after.drop_last() =~= before);
            assert(after.last() == log[k as int]@);
            let event = &log[k];
            let about = match event.entity_id {
                Some(e) => e == id,
                None => false,
            };
            if about && event.kind == wanted {
                out.push(event.duplicate());
                assert(audit_views(out@) =~= selected.push(log[k as int]@));
            }
            k += 1;
        }
        assert(audit_views(log@).take(k as int) =~= audit_views(log@));
        out
    }
}

/// Every event of the log, oldest first.
pub fn list(store: &Store) -> (out: Vec<AuditEvent>)
    ensures
        audit_views(out@) == store@.audit,
{
    AuditEvent::get_all(store)
}

/// The events about the instance with this id, oldest first.
pub fn list_for_instance(id: u128, store: &Store) -> (out: Vec<AuditEvent>)
    ensures
        audit_views(out@) == events_for(store@.audit, id),
{
    AuditEvent::get_for_instance(id, store)
}

} // verus!

//! Laws of the control plane: what holds of every store, every request
//! and every outcome, proved from the definitions of the operations.

use crate::api::cloudinit::{user_data_of, vendor_data_of, KeyInfoView};
use crate::api::distros;
use crate::api::instances::{
    advance_of, commit_of, create_of, make_instance_of, no_instance, operation_name, removal_of,
    status_after, transition_of, Operation, ProvisionView, Stage, TaskView,
};
use crate::config::ConfigView;
use crate::error::{status_of, ErrorView};
use crate::libvirt::NewInstanceView;
use crate::models::{
    kind_distro, kind_instance, status_downloading, status_hydrating, status_init,
    status_waiting, DistroView, InstanceView,
};
use crate::scrape::refresh_of;
use crate::store::StoreView;
use crate::workflow::{ActionView, EventView};
use vstd::prelude::*;

verus! {

/// Whether the audit log of `after` is that of `before` with exactly one
/// new event, of this kind and for this operation.
pub open spec fn records(
    before: StoreView,
    after: StoreView,
    kind: Seq<char>,
    operation: Seq<char>,
) -> bool {
    &&& after.audit.len() == before.audit.len() + 1
    &&& after.audit.drop_last() == before.audit
    &&& after.audit.last().kind == kind
    &&& after.audit.last().operation == operation
    &&& after.audit.last().id == before.audit.len() + 1
}

/// Whether two instances are the same but for their status.
pub open spec fn same_but_status(a: InstanceView, b: InstanceView) -> bool {
    a.with_status(b.status) == b
}

/// A change of status touches one instance only, and of that one only the
/// status: the instance keeps its id, its name, its host, its hardware
/// address and its volume. The seeds and the catalog stay as they are,
/// and the audit log gets exactly one event, for the operation.
pub proof fn law_transition(
    s: StoreView,
    id: u128,
    status: Seq<char>,
    operation: Seq<char>,
    now: i64,
)
    requires
        s.wf(),
    ensures
        transition_of(s, id, status, operation, now) matches Ok(t) ==> {
            &&& t.store.wf()
            &&& s.has_instance(id)
            &&& t.store.has_instance(id)
            &&& t.store.instance_index(id) == s.instance_index(id)
            &&& t.store.instance(id) == s.instance(id).with_status(status)
            &&& t.instance == t.store.instance(id)
            &&& t.store.instances.len() == s.instances.len()
            &&& forall|k: int|
                0 <= k < s.instances.len() && k != s.instance_index(id)
                    ==> #[trigger] t.store.instances[k] == s.instances[k]
            &&& t.store.seeds == s.seeds
            &&& t.store.distros == s.distros
            &&& records(s, t.store, kind_instance(), operation)
        },
        transition_of(s, id, status, operation, now) is Err ==> !s.has_instance(id)
            || !s.has_room(),
{
    if transition_of(s, id, status, operation, now) is Ok {
        let t = transition_of(s, id, status, operation, now)->Ok_0;
        let k = s.instance_index(id);
        crate::api::instances::lemma_transition_wf(s, id, status, operation, now);
        assert(t.store.instances[k].id == id);
        t.store.lemma_instance_index(id, k);
        assert(t.store.audit.drop_last() =~= s.audit);
    }
}

/// Deleting an instance removes its row and its seed and nothing else,
/// and the audit log gets exactly one event, for the deletion.
pub proof fn law_removal(s: StoreView, id: u128, now: i64)
    requires
        s.wf(),
    ensures
        removal_of(s, id, now) matches Ok(next) ==> {
            &&& next.wf()
            &&& s.has_instance(id)
            &&& !next.has_instance(id)
            &&& next.instances == s.instances.remove(s.instance_index(id))
            &&& next.seeds == s.seeds.remove(s.instance_index(id))
            &&& next.distros == s.distros
            &&& records(s, next, kind_instance(), operation_name(Operation::Delete))
        },
{
    if removal_of(s, id, now) is Ok {
        let next = removal_of(s, id, now)->Ok_0;
        let k = s.instance_index(id);
        crate::api::instances::lemma_commit_wf(s, Operation::Delete, id, now);
        s.lemma_remove_instance_wf(k);
        assert(next.audit.drop_last() =~= s.audit);
        assert(next.instances == s.remove_instance(k).instances);
        if next.has_instance(id) {
            let c = next.instance_index(id);
            assert(s.remove_instance(k).instances[c].id == id);
        }
    }
}

/// Deleting an instance that does not exist fails with a not-found error,
/// which the HTTP interface answers with status 404, and leaves the store
/// as it was: no audit event is written.
pub proof fn law_delete_missing(s: StoreView, t: TaskView, e: EventView, now: i64)
    requires
        !s.has_instance(t.instance.id),
        t.op == Operation::Delete,
    ensures
        commit_of(s, Operation::Delete, t.instance.id, now) == Err::<StoreView, ErrorView>(
            no_instance(t.instance.id),
        ),
        status_of(no_instance(t.instance.id)) == 404,
        advance_of(s, t, e, now).store == s,
{
}

/// Every lifecycle operation that succeeds writes exactly one audit event,
/// of kind `instance`, whose operation is the operation's name; and every
/// one but the deletion leaves the instance with the status that the
/// operation stands for.
pub proof fn law_commit_records(s: StoreView, op: Operation, id: u128, now: i64)
    requires
        s.wf(),
    ensures
        commit_of(s, op, id, now) matches Ok(next) ==> {
            &&& next.wf()
            &&& records(s, next, kind_instance(), operation_name(op))
            &&& next.audit.last().entity_id == Some(id)
            &&& op != Operation::Delete ==> next.has_instance(id) && next.instance(id)
                == s.instance(id).with_status(status_after(op))
            &&& op == Operation::Delete ==> !next.has_instance(id)
        },
{
    match op {
        Operation::Delete => {
            law_removal(s, id, now);
        },
        _ => {
            law_transition(s, id, status_after(op), operation_name(op), now);
        },
    }
}

/// One outcome changes the store of a task only when it is the success of
/// the plan's last action, and then by one committed operation. Until
/// then, and after any failure, the store is as it was: an operation whose
/// plan fails half-way removes no row and writes no audit event.
pub proof fn law_advance(s: StoreView, t: TaskView, e: EventView, now: i64)
    requires
        s.wf(),
    ensures
        advance_of(s, t, e, now).store.wf(),
        advance_of(s, t, e, now).store != s ==> {
            &&& e is Succeeded
            &&& t.step + 1 == t.plan().len()
            &&& advance_of(s, t, e, now).action is Done
            &&& commit_of(s, t.op, t.instance.id, now) == Ok::<StoreView, ErrorView>(
                advance_of(s, t, e, now).store,
            )
            &&& records(s, advance_of(s, t, e, now).store, kind_instance(), operation_name(t.op))
        },
        !(e is Succeeded) ==> advance_of(s, t, e, now).store == s,
        !(e is Succeeded) && !t.over() ==> advance_of(s, t, e, now).action is Failed,
        advance_of(s, t, e, now).action is Done || advance_of(s, t, e, now).action is Failed
            ==> advance_of(s, t, e, now).task.over(),
{
    law_commit_records(s, t.op, t.instance.id, now);
}

/// Resetting an instance and then starting it changes neither its id nor
/// its hardware address nor its volume: of the instance only the status
/// differs, whatever the two operations' times.
pub proof fn law_reinit_then_start(s: StoreView, id: u128, first: i64, second: i64)
    requires
        s.wf(),
        commit_of(s, Operation::Reinit, id, first) is Ok,
        commit_of(commit_of(s, Operation::Reinit, id, first)->Ok_0, Operation::Start, id, second)
            is Ok,
    ensures
        ({
            let reset = commit_of(s, Operation::Reinit, id, first)->Ok_0;
            let started = commit_of(reset, Operation::Start, id, second)->Ok_0;
            &&& reset.has_instance(id)
            &&& started.has_instance(id)
            &&& reset.instance(id).id == s.instance(id).id
            &&& reset.instance(id).mac_address == s.instance(id).mac_address
            &&& reset.instance(id).volume_name == s.instance(id).volume_name
            &&& started.instance(id).id == s.instance(id).id
            &&& started.instance(id).mac_address == s.instance(id).mac_address
            &&& started.instance(id).volume_name == s.instance(id).volume_name
            &&& same_but_status(s.instance(id), started.instance(id))
            &&& started.instance(id).status == status_after(Operation::Start)
        }),
{
    let reset = commit_of(s, Operation::Reinit, id, first)->Ok_0;
    law_commit_records(s, Operation::Reinit, id, first);
    law_commit_records(reset, Operation::Start, id, second);
}

/// No lifecycle operation but the deletion ever changes anything of an
/// instance but its status.
pub proof fn law_identity_kept(s: StoreView, t: TaskView, e: EventView, now: i64, id: u128)
    requires
        s.wf(),
        s.has_instance(id),
        t.op != Operation::Delete,
    ensures
        advance_of(s, t, e, now).store.has_instance(id),
        same_but_status(s.instance(id), advance_of(s, t, e, now).store.instance(id)),
{
    let next = advance_of(s, t, e, now).store;
    if next != s {
        let target = t.instance.id;
        law_transition(s, target, status_after(t.op), operation_name(t.op), now);
        let k = s.instance_index(id);
        if target != id {
            assert(next.instances[k] == s.instances[k]);
        }
        assert(next.instances[k].id == id);
        next.lemma_instance_index(id, k);
    }
}

/// What holds of every instance that was created: its id and its name are
/// new to the store, its status is `init`, it is made from the distro that
/// was asked for, a request without a disk size gets the distro's minimum,
/// its user data is kept, and the audit log gets exactly one event, for
/// the creation.
pub proof fn law_create(
    s: StoreView,
    config: ConfigView,
    details: NewInstanceView,
    addrs: nat,
    id: u128,
    mac: Seq<char>,
    generated: Option<Seq<char>>,
    now: i64,
)
    requires
        s.wf(),
    ensures
        create_of(s, config, details, addrs, id, mac, generated, now) matches Ok(c) ==> {
            &&& c.store.wf()
            &&& !s.has_instance(c.instance.id)
            &&& !s.has_name(c.instance.name)
            &&& c.store.has_instance(c.instance.id)
            &&& c.store.instance(c.instance.id) == c.instance
            &&& c.instance.status == status_init()
            &&& c.instance.distro == details.distro
            &&& details.disk_size_gb is None ==> c.instance.disk_size_gb == s.distro(
                details.distro,
            ).min_size_gb
            &&& records(s, c.store, kind_instance(), "create"@)
            &&& c.store.instances.len() == s.instances.len() + 1
            &&& c.store.distros == s.distros
        },
{
    crate::api::instances::lemma_create(s, config, details, addrs, id, mac, generated, now);
    if create_of(s, config, details, addrs, id, mac, generated, now) is Ok {
        let c = create_of(s, config, details, addrs, id, mac, generated, now)->Ok_0;
        assert(c.store.audit.drop_last() =~= s.audit);
    }
}

/// Every change of the catalog that succeeds writes exactly one audit
/// event, of kind `distro`, whose operation is `create`, `update` or
/// `delete`; and it leaves the instances as they were.
pub proof fn law_catalog_records(s: StoreView, d: DistroView, now: i64)
    requires
        s.wf(),
    ensures
        distros::create_of(s, d, now) matches Ok(next) ==> next.wf() && records(
            s,
            next,
            kind_distro(),
            "create"@,
        ) && next.instances == s.instances,
        distros::update_of(s, d, now) matches Ok(next) ==> next.wf() && records(
            s,
            next,
            kind_distro(),
            "update"@,
        ) && next.instances == s.instances,
        distros::delete_of(s, d.name, now) matches Ok(next) ==> next.wf() && records(
            s,
            next,
            kind_distro(),
            "delete"@,
        ) && next.instances == s.instances,
{
    if s.has_room() {
        distros::lemma_written_wf(s, distros::normalized(d), "create"@, now);
        distros::lemma_written_wf(s, distros::normalized(d), "update"@, now);
    }
    distros::lemma_delete_wf(s, d.name, now);
    if distros::create_of(s, d, now) is Ok {
        assert(distros::create_of(s, d, now)->Ok_0.audit.drop_last() =~= s.audit);
    }
    if distros::update_of(s, d, now) is Ok {
        assert(distros::update_of(s, d, now)->Ok_0.audit.drop_last() =~= s.audit);
    }
    if distros::delete_of(s, d.name, now) is Ok {
        assert(distros::delete_of(s, d.name, now)->Ok_0.audit.drop_last() =~= s.audit);
    }
}

/// Whether exactly one row of the catalog has this name.
pub open spec fn one_row(s: StoreView, name: Seq<char>) -> bool {
    &&& s.has_distro(name)
    &&& forall|i: int, j: int|
        0 <= i < s.distros.len() && 0 <= j < s.distros.len() && (#[trigger] s.distros[i]).name
            == name && (#[trigger] s.distros[j]).name == name ==> i == j
}

/// Writing a distro is an upsert: after a distro was added and then
/// written again under the same name, the catalog has exactly one row of
/// that name, the row holds what was written last, and the catalog has as
/// many rows as after the first write.
pub proof fn law_upsert(s: StoreView, first: DistroView, second: DistroView, t1: i64, t2: i64)
    requires
        s.wf(),
        first.name == second.name,
        distros::create_of(s, first, t1) is Ok,
        distros::update_of(distros::create_of(s, first, t1)->Ok_0, second, t2) is Ok,
    ensures
        ({
            let added = distros::create_of(s, first, t1)->Ok_0;
            let written = distros::update_of(added, second, t2)->Ok_0;
            &&& one_row(added, first.name)
            &&& one_row(written, second.name)
            &&& written.distro(second.name) == distros::normalized(second)
            &&& written.distro(second.name).download_url == second.download_url
            &&& written.distros.len() == added.distros.len()
        }),
{
    let added = distros::create_of(s, first, t1)->Ok_0;
    let written = distros::update_of(added, second, t2)->Ok_0;
    distros::lemma_written_wf(s, distros::normalized(first), "create"@, t1);
    distros::lemma_written_wf(added, distros::normalized(second), "update"@, t2);
    lemma_one_row(added, first.name);
    lemma_one_row(written, second.name);
    assert(added.has_distro(distros::normalized(second).name));
}

/// In a well-formed catalog a name that occurs names exactly one row.
pub proof fn lemma_one_row(s: StoreView, name: Seq<char>)
    requires
        s.wf(),
        s.has_distro(name),
    ensures
        one_row(s, name),
{
    assert forall|i: int, j: int|
        0 <= i < s.distros.len() && 0 <= j < s.distros.len() && (#[trigger] s.distros[i]).name
            == name && (#[trigger] s.distros[j]).name == name implies i == j by {
        if i < j {
            assert(s.distros[i].name != s.distros[j].name);
        } else if j < i {
            assert(s.distros[j].name != s.distros[i].name);
        }
    }
}

/// Writing the same distro twice leaves the catalog as writing it once
/// does.
pub proof fn law_update_idempotent(s: StoreView, d: DistroView)
    requires
        s.wf(),
    ensures
        s.put_distro(d).put_distro(d).distros == s.put_distro(d).distros,
{
    s.lemma_put_distro_wf(d);
    let once = s.put_distro(d);
    assert(once.distros[once.distro_index(d.name)] == d);
    assert(once.put_distro(d).distros =~= once.distros);
}

/// The statuses that provisioning gives an instance.
pub open spec fn provisioning_status(status: Seq<char>) -> bool {
    status == status_downloading() || status == status_hydrating() || status == status_waiting()
}

/// One outcome of provisioning either leaves the store as it was or gives
/// the instance one of the statuses of provisioning, of which the audit
/// log then gets exactly one event, under the status's name. Any outcome
/// but a success that does not lead through a change of status leaves the
/// store as it was; and nothing but the instance's status ever changes.
pub proof fn law_provisioning(s: StoreView, p: ProvisionView, e: EventView, now: i64)
    requires
        s.wf(),
    ensures
        make_instance_of(s, p, e, now).store.wf(),
        make_instance_of(s, p, e, now).store != s ==> {
            let next = make_instance_of(s, p, e, now);
            let id = p.instance.id;
            &&& s.has_instance(id)
            &&& next.store.has_instance(id)
            &&& same_but_status(s.instance(id), next.store.instance(id))
            &&& provisioning_status(next.store.instance(id).status)
            &&& records(s, next.store, kind_instance(), next.store.instance(id).status)
            &&& next.job.instance == next.store.instance(id)
            &&& next.store.seeds == s.seeds
            &&& next.store.distros == s.distros
        },
        make_instance_of(s, p, e, now).action is Failed ==> make_instance_of(s, p, e, now).store
            == s && make_instance_of(s, p, e, now).job.stage is Finished,
        make_instance_of(s, p, e, now).job.distro == p.distro,
{
    let id = p.instance.id;
    law_transition(s, id, status_downloading(), status_downloading(), now);
    law_transition(s, id, status_hydrating(), status_hydrating(), now);
    law_transition(s, id, status_waiting(), status_waiting(), now);
}

/// A fetch of the image that fails ends provisioning with the status
/// where it was: after the failed fetch was cleaned up the workflow fails
/// with the image's URL and what the fetch wrote, and neither the failed
/// fetch nor the cleaning changes the store.
pub proof fn law_failed_fetch(
    s: StoreView,
    p: ProvisionView,
    wrote: Seq<char>,
    cleaned: EventView,
    t1: i64,
    t2: i64,
)
    requires
        s.wf(),
        p.stage == Stage::FetchImage,
        !(cleaned is Aborted),
    ensures
        ({
            let failed = make_instance_of(s, p, EventView::Failed(wrote), t1);
            let ended = make_instance_of(failed.store, failed.job, cleaned, t2);
            &&& failed.store == s
            &&& failed.job.stage == Stage::RemoveImage
            &&& failed.action == failed.job.pending()
            &&& ended.store == s
            &&& ended.job.stage == Stage::Finished
            &&& ended.action == ActionView::Failed(
                ErrorView::ImageDownloadFailed(p.distro.download_url, wrote),
            )
        }),
{
}

/// A host that lacks the image makes provisioning record the status
/// `downloading image` before it fetches anything.
pub proof fn law_missing_image(s: StoreView, p: ProvisionView, wrote: Seq<char>, now: i64)
    requires
        s.wf(),
        p.stage == Stage::CheckImage,
        s.has_instance(p.instance.id),
        s.has_room(),
    ensures
        ({
            let next = make_instance_of(s, p, EventView::Failed(wrote), now);
            &&& next.job.stage == Stage::FetchImage
            &&& next.store.instance(p.instance.id).status == status_downloading()
            &&& records(s, next.store, kind_instance(), status_downloading())
            &&& next.action == next.job.pending()
        }),
{
    law_transition(s, p.instance.id, status_downloading(), status_downloading(), now);
}

/// Whether every instance of a store is made from a distro that the
/// catalog holds.
pub open spec fn references_hold(s: StoreView) -> bool {
    forall|k: int|
        0 <= k < s.instances.len() ==> s.has_distro((#[trigger] s.instances[k]).distro)
}

/// Whether some instance of a store is made from the distro of this name.
pub open spec fn is_referenced(s: StoreView, name: Seq<char>) -> bool {
    exists|k: int| 0 <= k < s.instances.len() && (#[trigger] s.instances[k]).distro == name
}

/// Writing a distro leaves every name in the catalog that was there.
pub proof fn lemma_put_keeps_names(s: StoreView, d: DistroView, name: Seq<char>)
    requires
        s.wf(),
        s.has_distro(name),
    ensures
        s.put_distro(d).has_distro(name),
{
    let k = s.distro_index(name);
    let next = s.put_distro(d);
    if s.has_distro(d.name) {
        let at = s.distro_index(d.name);
        if at == k {
            assert(next.distros[k].name == name);
        } else {
            assert(next.distros[k] == s.distros[k]);
        }
    } else {
        assert(next.distros[k] == s.distros[k]);
    }
}

/// Creating an instance keeps the references of the store whole: the new
/// instance is made from a distro of the catalog, and the others keep
/// theirs.
pub proof fn law_create_references(
    s: StoreView,
    config: ConfigView,
    details: NewInstanceView,
    addrs: nat,
    id: u128,
    mac: Seq<char>,
    generated: Option<Seq<char>>,
    now: i64,
)
    requires
        s.wf(),
        references_hold(s),
    ensures
        create_of(s, config, details, addrs, id, mac, generated, now) matches Ok(c)
            ==> references_hold(c.store),
{
    if create_of(s, config, details, addrs, id, mac, generated, now) is Ok {
        let c = create_of(s, config, details, addrs, id, mac, generated, now)->Ok_0;
        assert(s.distro(details.distro).name == details.distro);
        assert forall|k: int| 0 <= k < c.store.instances.len() implies c.store.has_distro(
            (#[trigger] c.store.instances[k]).distro,
        ) by {
            if k < s.instances.len() {
                assert(s.has_distro(s.instances[k].distro));
                let at = s.distro_index(s.instances[k].distro);
                assert(c.store.distros[at].name == s.instances[k].distro);
            } else {
                let at = s.distro_index(details.distro);
                assert(c.store.distros[at].name == details.distro);
            }
        }
    }
}

/// No lifecycle operation and no step of provisioning breaks a reference:
/// they change nothing of the catalog and nothing of an instance but its
/// status.
pub proof fn law_workflows_keep_references(
    s: StoreView,
    t: TaskView,
    p: ProvisionView,
    e: EventView,
    now: i64,
)
    requires
        s.wf(),
        references_hold(s),
    ensures
        references_hold(advance_of(s, t, e, now).store),
        references_hold(make_instance_of(s, p, e, now).store),
{
    let after = advance_of(s, t, e, now).store;
    if after != s {
        law_advance(s, t, e, now);
        if t.op == Operation::Delete {
            law_removal(s, t.instance.id, now);
            let gone = s.instance_index(t.instance.id);
            assert forall|k: int| 0 <= k < after.instances.len() implies after.has_distro(
                (#[trigger] after.instances[k]).distro,
            ) by {
                let from = if k < gone {
                    k
                } else {
                    k + 1
                };
                assert(after.instances[k] == s.instances[from]);
                assert(s.has_distro(s.instances[from].distro));
                let at = s.distro_index(s.instances[from].distro);
                assert(after.distros[at].name == s.instances[from].distro);
            }
        } else {
            law_transition(s, t.instance.id, status_after(t.op), operation_name(t.op), now);
            lemma_status_keeps_references(s, after, s.instance_index(t.instance.id));
        }
    }
    let next = make_instance_of(s, p, e, now).store;
    if next != s {
        law_provisioning(s, p, e, now);
        let id = p.instance.id;
        law_transition(s, id, status_downloading(), status_downloading(), now);
        law_transition(s, id, status_hydrating(), status_hydrating(), now);
        law_transition(s, id, status_waiting(), status_waiting(), now);
        lemma_status_keeps_references(s, next, s.instance_index(id));
    }
}

/// A store that differs from another in the status of one instance, and
/// not in its catalog, holds its references if the other does.
pub proof fn lemma_status_keeps_references(s: StoreView, after: StoreView, changed: int)
    requires
        references_hold(s),
        after.distros == s.distros,
        after.instances.len() == s.instances.len(),
        0 <= changed < s.instances.len(),
        same_but_status(s.instances[changed], after.instances[changed]),
        forall|k: int|
            0 <= k < s.instances.len() && k != changed ==> #[trigger] after.instances[k]
                == s.instances[k],
    ensures
        references_hold(after),
{
    assert forall|k: int| 0 <= k < after.instances.len() implies after.has_distro(
        (#[trigger] after.instances[k]).distro,
    ) by {
        assert(s.has_distro(s.instances[k].distro));
        let at = s.distro_index(s.instances[k].distro);
        assert(after.distros[at].name == s.instances[k].distro);
        if k == changed {
            assert(after.instances[k].distro == s.instances[k].distro);
        }
    }
}

/// Adding or writing a distro breaks no reference. Removing a distro
/// breaks none either, unless an instance is made from it: the catalog
/// does not own the instances, and does not refuse to forget a distro that
/// is still in use.
pub proof fn law_catalog_references(s: StoreView, d: DistroView, now: i64)
    requires
        s.wf(),
        references_hold(s),
    ensures
        distros::create_of(s, d, now) matches Ok(next) ==> references_hold(next),
        distros::update_of(s, d, now) matches Ok(next) ==> references_hold(next),
        distros::delete_of(s, d.name, now) matches Ok(next) ==> (references_hold(next)
            <==> !is_referenced(s, d.name)),
{
    let n = distros::normalized(d);
    if s.has_room() {
        let written = s.put_distro(n);
        assert forall|k: int| 0 <= k < written.instances.len() implies written.has_distro(
            (#[trigger] written.instances[k]).distro,
        ) by {
            assert(s.has_distro(s.instances[k].distro));
            lemma_put_keeps_names(s, n, s.instances[k].distro);
        }
        if distros::create_of(s, d, now) is Ok {
            let next = distros::create_of(s, d, now)->Ok_0;
            assert(next.distros == written.distros);
            assert(next.instances == written.instances);
            assert forall|k: int| 0 <= k < next.instances.len() implies next.has_distro(
                (#[trigger] next.instances[k]).distro,
            ) by {
                assert(written.has_distro(written.instances[k].distro));
                let at = written.distro_index(written.instances[k].distro);
                assert(next.distros[at].name == next.instances[k].distro);
            }
        }
        if distros::update_of(s, d, now) is Ok {
            let next = distros::update_of(s, d, now)->Ok_0;
            assert forall|k: int| 0 <= k < next.instances.len() implies next.has_distro(
                (#[trigger] next.instances[k]).distro,
            ) by {
                assert(written.has_distro(written.instances[k].distro));
                let at = written.distro_index(written.instances[k].distro);
                assert(next.distros[at].name == next.instances[k].distro);
            }
        }
    }
    if distros::delete_of(s, d.name, now) is Ok {
        let next = distros::delete_of(s, d.name, now)->Ok_0;
        let gone = s.distro_index(d.name);
        s.lemma_remove_distro_wf(gone);
        let removed = s.remove_distro(gone);
        assert(next.distros == removed.distros);
        assert(next.instances == s.instances);
        if is_referenced(s, d.name) {
            let k = choose|k: int| 0 <= k < s.instances.len() && (#[trigger] s.instances[k]).distro
                == d.name;
            assert(next.instances[k].distro == d.name);
            if next.has_distro(d.name) {
                let at = next.distro_index(d.name);
                assert(removed.distros[at].name == d.name);
            }
            assert(!references_hold(next));
        } else {
            assert forall|k: int| 0 <= k < next.instances.len() implies next.has_distro(
                (#[trigger] next.instances[k]).distro,
            ) by {
                let name = s.instances[k].distro;
                assert(s.has_distro(name));
                let at = s.distro_index(name);
                assert(at != gone);
                let to = if at < gone {
                    at
                } else {
                    at - 1
                };
                assert(next.distros[to] == s.distros[at]);
            }
        }
    }
}

/// The audit log is append-only: whatever an operation does, the events
/// that were in the log before are in it afterwards, unchanged and in
/// their places.
pub proof fn law_append_only(
    s: StoreView,
    t: TaskView,
    p: ProvisionView,
    e: EventView,
    d: DistroView,
    id: u128,
    key: Option<KeyInfoView>,
    now: i64,
)
    requires
        s.wf(),
    ensures
        s.audit.is_prefix_of(advance_of(s, t, e, now).store.audit),
        s.audit.is_prefix_of(make_instance_of(s, p, e, now).store.audit),
        distros::create_of(s, d, now) matches Ok(next) ==> s.audit.is_prefix_of(next.audit),
        distros::update_of(s, d, now) matches Ok(next) ==> s.audit.is_prefix_of(next.audit),
        distros::delete_of(s, d.name, now) matches Ok(next) ==> s.audit.is_prefix_of(next.audit),
        user_data_of(s, id, now) matches Ok(f) ==> s.audit.is_prefix_of(f.store.audit),
        vendor_data_of(s, id, key, now) matches Ok(v) ==> s.audit.is_prefix_of(v.store.audit),
{
    law_advance(s, t, e, now);
    law_provisioning(s, p, e, now);
    law_catalog_records(s, d, now);
    law_transition(s, id, crate::models::status_running(), crate::models::status_running(), now);
    assert(s.audit.is_prefix_of(s.audit));
    let after = advance_of(s, t, e, now).store;
    if after != s {
        lemma_recorded_extends(s, after, kind_instance(), operation_name(t.op));
    }
    let next = make_instance_of(s, p, e, now).store;
    if next != s {
        lemma_recorded_extends(s, next, kind_instance(), next.instance(p.instance.id).status);
    }
    if distros::create_of(s, d, now) is Ok {
        lemma_recorded_extends(s, distros::create_of(s, d, now)->Ok_0, kind_distro(), "create"@);
    }
    if distros::update_of(s, d, now) is Ok {
        lemma_recorded_extends(s, distros::update_of(s, d, now)->Ok_0, kind_distro(), "update"@);
    }
    if distros::delete_of(s, d.name, now) is Ok {
        lemma_recorded_extends(s, distros::delete_of(s, d.name, now)->Ok_0, kind_distro(), "delete"@);
    }
    if user_data_of(s, id, now) is Ok {
        lemma_recorded_extends(
            s,
            user_data_of(s, id, now)->Ok_0.store,
            kind_instance(),
            crate::models::status_running(),
        );
    }
    if vendor_data_of(s, id, key, now) is Ok {
        let v = vendor_data_of(s, id, key, now)->Ok_0;
        if v.store != s {
            assert(v.store.audit.subrange(0, s.audit.len() as int) =~= s.audit);
        }
    }
}

/// A log that records one more event extends the log before.
pub proof fn lemma_recorded_extends(
    before: StoreView,
    after: StoreView,
    kind: Seq<char>,
    operation: Seq<char>,
)
    requires
        records(before, after, kind, operation),
    ensures
        before.audit.is_prefix_of(after.audit),
{
    assert(after.audit.subrange(0, before.audit.len() as int) =~= after.audit.drop_last());
}

/// Refreshing the catalog only appends to the audit log, one event for
/// each scraped distro, and adds no distro.
pub proof fn law_refresh(s: StoreView, found: Seq<DistroView>, now: i64)
    requires
        s.wf(),
    ensures
        refresh_of(s, found, now) matches Ok(next) ==> {
            &&& next.wf()
            &&& next.audit.len() == s.audit.len() + found.len()
            &&& next.distros.len() == s.distros.len()
            &&& next.instances == s.instances
        },
{
    if refresh_of(s, found, now) is Ok {
        crate::scrape::lemma_refreshed(s, found, now);
    }
}

/// How far a stage of provisioning is from the start.
pub open spec fn stage_rank(stage: Stage) -> nat {
    match stage {
        Stage::CheckImage => 0,
        Stage::FetchImage => 1,
        Stage::RemoveImage => 2,
        Stage::CreateVolume => 3,
        Stage::HydrateVolume => 4,
        Stage::SnapshotVolume => 5,
        Stage::DefineDomain => 6,
        Stage::StartDomain => 7,
        Stage::Finished => 8,
    }
}

/// Every outcome moves a workflow forward: provisioning goes on to a
/// later stage until it is finished, and a task to a later step until it
/// is over. Neither ever goes back or stays where it is, so that
/// provisioning is finished after eight outcomes at most and a task is
/// over after as many outcomes as its plan has actions.
pub proof fn law_progress(s: StoreView, t: TaskView, p: ProvisionView, e: EventView, now: i64)
    ensures
        p.stage != Stage::Finished ==> stage_rank(make_instance_of(s, p, e, now).job.stage)
            > stage_rank(p.stage),
        p.stage == Stage::Finished ==> make_instance_of(s, p, e, now) == (
        crate::api::instances::Progress { store: s, job: p, action: ActionView::Done }),
        !t.over() ==> advance_of(s, t, e, now).task.step > t.step,
        !t.over() ==> advance_of(s, t, e, now).task.step <= t.plan().len(),
        t.over() ==> advance_of(s, t, e, now) == (crate::api::instances::Advance {
            store: s,
            task: t,
            action: ActionView::Done,
        }),
        t.plan().len() <= 4,
{
}

} // verus!

//! Instances: reading them, and the lifecycle operations that start, stop,
//! reboot, reset and delete them.
//!
//! A lifecycle operation is a task: a fixed plan of calls to the
//! hypervisor and the volume manager, followed by one change of the store.
//! The caller performs each action of the plan and reports its outcome;
//! the store changes only when the whole plan has succeeded.

use crate::config::{Config, ConfigView};
use crate::error::{Error, ErrorView};
use crate::ident::{fresh_id, id_string, id_text, is_random_id};
use crate::libvirt::{random_mac, NewInstance, NewInstanceView};
use crate::models::{
    kind_instance, opt_text, status_downloading, status_hydrating, status_init, status_waiting,
    Distro, DistroView, Instance, InstanceView, Payload, PayloadView,
};
use crate::namegen::may_draw;
use crate::store::{Store, StoreView};
use crate::text::{join3, join4};
use crate::workflow::{
    init_tag, Action, ActionView, Command, CommandView, DomainCall, DomainCallView, DomainSpec,
    DomainSpecView, Event, EventView,
};
use vstd::prelude::*;
use vstd::string::*;

verus! {

/// The failure of a store that can take no more audit events.
pub open spec fn store_full() -> ErrorView {
    ErrorView::SQLite("database or disk is full"@)
}

/// The failure of looking for an instance that is not there.
pub open spec fn no_instance(id: u128) -> ErrorView {
    ErrorView::InstanceNotFound(id_text(id))
}

/// A store after a change of status, and the instance as it then stands.
pub struct Transition {
    pub store: StoreView,
    pub instance: InstanceView,
}

/// What a change of status does: the instance gets the new status and the
/// audit log gets one event that names the operation and holds the
/// instance as it stands afterwards. Without the instance, or without room
/// in the audit log, nothing changes.
pub open spec fn transition_of(
    s: StoreView,
    id: u128,
    status: Seq<char>,
    operation: Seq<char>,
    now: i64,
) -> Result<Transition, ErrorView> {
    if !s.has_instance(id) {
        Err(no_instance(id))
    } else if !s.has_room() {
        Err(store_full())
    } else {
        let k = s.instance_index(id);
        let updated = s.instances[k].with_status(status);
        Ok(
            Transition {
                store: s.set_status(k, status).log(
                    now,
                    kind_instance(),
                    operation,
                    Some(PayloadView::Instance(updated)),
                    Some(id),
                    Some(updated.name),
                ),
                instance: updated,
            },
        )
    }
}

/// A change of status keeps the store well-formed.
pub proof fn lemma_transition_wf(
    s: StoreView,
    id: u128,
    status: Seq<char>,
    operation: Seq<char>,
    now: i64,
)
    requires
        s.wf(),
    ensures
        transition_of(s, id, status, operation, now) matches Ok(t) ==> t.store.wf(),
{
    if s.has_instance(id) && s.has_room() {
        let k = s.instance_index(id);
        let updated = s.instances[k].with_status(status);
        s.lemma_set_status_wf(k, status);
        s.set_status(k, status).lemma_log_wf(
            now,
            kind_instance(),
            operation,
            Some(PayloadView::Instance(updated)),
            Some(id),
            Some(updated.name),
        );
    }
}

/// Changes the status of an instance and records the change.
pub(crate) fn transition(
    store: &mut Store,
    id: u128,
    status: &str,
    operation: &str,
    now: i64,
) -> (out: Result<Instance, Error>)
    requires
        old(store).wf(),
    ensures
        final(store).wf(),
        match transition_of(old(store)@, id, status@, operation@, now) {
            Ok(t) => out is Ok && out->Ok_0@ == t.instance && final(store)@ == t.store,
            Err(e) => out is Err && out->Err_0@ == e && final(store)@ == old(store)@,
        },
{
    proof {
        lemma_transition_wf(old(store)@, id, status@, operation@, now);
    }
    match store.find_instance(id) {
        None => Err(Error::InstanceNotFound(id_string(id))),
        Some(k) => {
            if !store.has_room() {
                return Err(Error::SQLite(String::from_str("database or disk is full")));
            }
            store.set_status(k, String::from_str(status));
            let updated = store.instance_at(k).duplicate();
            let name = updated.name.clone();
            let snapshot = updated.duplicate();
            store.log(
                now,
                String::from_str("instance"),
                String::from_str(operation),
                Some(Payload::Instance(snapshot)),
                Some(id),
                Some(name),
            );
            Ok(updated)
        },
    }
}

/// The instance with this id.
pub fn get(store: &Store, id: u128) -> (out: Result<Instance, Error>)
    requires
        store.wf(),
    ensures
        store@.has_instance(id) ==> out is Ok && out->Ok_0@ == store@.instance(id),
        !store@.has_instance(id) ==> out is Err && out->Err_0@ == no_instance(id),
{
    Instance::from_uuid(store, id)
}

/// The instance with this name.
pub fn get_by_name(store: &Store, name: &String) -> (out: Result<Instance, Error>)
    requires
        store.wf(),
    ensures
        store@.has_name(name@) ==> out is Ok && out->Ok_0@ == store@.instances[store@.name_index(
            name@,
        )],
        !store@.has_name(name@) ==> out is Err && out->Err_0@ == ErrorView::InstanceNotFound(
            name@,
        ),
{
    Instance::from_name(store, name)
}

/// All instances, in the order of their creation.
pub fn list(store: &Store) -> (out: Vec<Instance>)
    ensures
        crate::store::instance_views(out@) == store@.instances,
{
    let rows = store.instances();
    let mut out: Vec<Instance> = Vec::new();
    let mut k: usize = 0;
    while k < rows.len()
        invariant
            k <= rows.len(),
            out.len() == k,
            forall|j: int| 0 <= j < k ==> (#[trigger] out[j])@ == rows[j]@,
        decreases rows.len() - k,
    {
        out.push(rows[k].duplicate());
        k += 1;
    }
    assert(crate::store::instance_views(out@) =~= crate::store::instance_views(rows@));
    out
}

/// The lifecycle operations.
#[derive(Clone, Copy, Debug, PartialEq, Eq, Structural)]
pub enum Operation {
    Start,
    Shutdown,
    Reboot,
    HardReboot,
    Reinit,
    Delete,
}

/// The name under which an operation appears in the audit log.
pub open spec fn operation_name(op: Operation) -> Seq<char> {
    match op {
        Operation::Start => "start"@,
        Operation::Shutdown => "shutdown"@,
        Operation::Reboot => "reboot"@,
        Operation::HardReboot => "hard_reboot"@,
        Operation::Reinit => "reinit"@,
        Operation::Delete => "delete"@,
    }
}

/// The status of an instance after an operation. A deleted instance has
/// none: its row is gone.
pub open spec fn status_after(op: Operation) -> Seq<char> {
    match op {
        Operation::Start => "starting"@,
        Operation::Shutdown => "off"@,
        Operation::Reboot => "rebooting"@,
        Operation::HardReboot => "rebooting"@,
        Operation::Reinit => "reinit"@,
        Operation::Delete => Seq::empty(),
    }
}

/// How long a task waits between stopping a domain and touching its
/// volume, so that the hypervisor lets go of the device.
pub open spec fn grace_millis() -> u64 {
    500
}

/// A call to the hypervisor of the instance's host about its domain.
pub open spec fn domain_call(i: InstanceView, call: DomainCallView) -> ActionView {
    ActionView::Hypervisor { host: i.host, id: i.id, call }
}

/// A command on the instance's host.
pub open spec fn remote(i: InstanceView, command: CommandView) -> ActionView {
    ActionView::Remote { host: i.host, command }
}

/// The actions of an operation on an instance, in order.
pub open spec fn plan_of(op: Operation, i: InstanceView) -> Seq<ActionView> {
    match op {
        Operation::Start => seq![domain_call(i, DomainCallView::Create)],
        Operation::Shutdown => seq![domain_call(i, DomainCallView::Shutdown)],
        Operation::Reboot => seq![domain_call(i, DomainCallView::Reboot)],
        Operation::HardReboot => seq![
            domain_call(i, DomainCallView::Destroy),
            domain_call(i, DomainCallView::Create),
        ],
        Operation::Reinit => seq![
            domain_call(i, DomainCallView::Destroy),
            ActionView::Pause { millis: grace_millis() },
            remote(i, CommandView::RollbackVolume { volume: i.volume_name, tag: init_tag() }),
            domain_call(i, DomainCallView::Create),
        ],
        Operation::Delete => seq![
            domain_call(i, DomainCallView::Destroy),
            domain_call(i, DomainCallView::Undefine),
            ActionView::Pause { millis: grace_millis() },
            remote(i, CommandView::DestroyVolume { volume: i.volume_name }),
        ],
    }
}

/// The failure that a bad outcome of an action stands for: the volume
/// manager's failures name the host and carry what the command wrote, the
/// hypervisor's carry its message, and an action that could not be
/// carried out is an I/O failure.
pub open spec fn failure_of(action: ActionView, event: EventView) -> ErrorView {
    match event {
        EventView::Aborted(m) => ErrorView::IO(m),
        EventView::Succeeded => ErrorView::Catchall("the action succeeded"@),
        EventView::Failed(m) => match action {
            ActionView::Remote { host, command } => match command {
                CommandView::RollbackVolume { volume, tag } => ErrorView::VolumeRollbackFailed(
                    host,
                    tag,
                    m,
                ),
                CommandView::DestroyVolume { volume } => ErrorView::VolumeDestroyFailed(host, m),
                CommandView::CreateVolume { volume, size_gb } => ErrorView::VolumeCreateFailed(host, m),
                CommandView::HydrateVolume { sha256sum, volume } => ErrorView::VolumeHydrateFailed(
                    host,
                    m,
                ),
                CommandView::SnapshotVolume { volume, tag } => ErrorView::SnapshotFailed(
                    host,
                    m,
                ),
                CommandView::FetchImage { sha256sum, url } => ErrorView::ImageDownloadFailed(
                    url,
                    m,
                ),
                _ => ErrorView::IO(m),
            },
            ActionView::Hypervisor { host, id, call } => match call {
                DomainCallView::Define(_) => ErrorView::DomainDefineFailed(host, m),
                _ => ErrorView::Libvirt(m),
            },
            _ => ErrorView::IO(m),
        },
    }
}

/// The failure that a bad outcome of an action stands for.
pub fn failure(action: &Action, event: &Event) -> (out: Error)
    ensures
        out@ == failure_of(action@, event@),
{
    match event {
        Event::Aborted(m) => Error::IO(m.clone()),
        Event::Succeeded => Error::Catchall(String::from_str("the action succeeded")),
        Event::Failed(m) => match action {
            Action::Remote { host, command } => match command {
                Command::RollbackVolume { volume, tag } => Error::VolumeRollbackFailed(
                    host.clone(),
                    tag.clone(),
                    m.clone(),
                ),
                Command::DestroyVolume { volume } => Error::VolumeDestroyFailed(
                    host.clone(),
                    m.clone(),
                ),
                Command::CreateVolume { volume, size_gb } => Error::VolumeCreateFailed(
                    host.clone(),
                    m.clone(),
                ),
                Command::HydrateVolume { sha256sum, volume } => Error::VolumeHydrateFailed(
                    host.clone(),
                    m.clone(),
                ),
                Command::SnapshotVolume { volume, tag } => Error::SnapshotFailed(
                    host.clone(),
                    m.clone(),
                ),
                Command::FetchImage { sha256sum, url } => Error::ImageDownloadFailed(
                    url.clone(),
                    m.clone(),
                ),
                _ => Error::IO(m.clone()),
            },
            Action::Hypervisor { host, id, call } => match call {
                DomainCall::Define(_) => Error::DomainDefineFailed(host.clone(), m.clone()),
                _ => Error::Libvirt(m.clone()),
            },
            _ => Error::IO(m.clone()),
        },
    }
}

/// What deleting an instance does to the store: its row and its seed go,
/// and the audit log gets one event that holds the instance as it last
/// stood.
pub open spec fn removal_of(s: StoreView, id: u128, now: i64) -> Result<StoreView, ErrorView> {
    if !s.has_instance(id) {
        Err(no_instance(id))
    } else if !s.has_room() {
        Err(store_full())
    } else {
        let k = s.instance_index(id);
        let gone = s.instances[k];
        Ok(
            s.remove_instance(k).log(
                now,
                kind_instance(),
                operation_name(Operation::Delete),
                Some(PayloadView::Instance(gone)),
                Some(id),
                Some(gone.name),
            ),
        )
    }
}

/// What the store looks like once the plan of an operation has succeeded.
pub open spec fn commit_of(s: StoreView, op: Operation, id: u128, now: i64) -> Result<
    StoreView,
    ErrorView,
> {
    match op {
        Operation::Delete => removal_of(s, id, now),
        _ => match transition_of(s, id, status_after(op), operation_name(op), now) {
            Ok(t) => Ok(t.store),
            Err(e) => Err(e),
        },
    }
}

/// Committing an operation keeps the store well-formed.
pub proof fn lemma_commit_wf(s: StoreView, op: Operation, id: u128, now: i64)
    requires
        s.wf(),
    ensures
        commit_of(s, op, id, now) matches Ok(next) ==> next.wf(),
{
    match op {
        Operation::Delete => {
            if s.has_instance(id) && s.has_room() {
                let k = s.instance_index(id);
                let gone = s.instances[k];
                s.lemma_remove_instance_wf(k);
                s.remove_instance(k).lemma_log_wf(
                    now,
                    kind_instance(),
                    operation_name(Operation::Delete),
                    Some(PayloadView::Instance(gone)),
                    Some(id),
                    Some(gone.name),
                );
            }
        },
        _ => {
            lemma_transition_wf(s, id, status_after(op), operation_name(op), now);
        },
    }
}

/// A lifecycle operation under way on one instance.
#[derive(Clone, Debug)]
pub struct Task {
    pub op: Operation,
    /// The instance as it stood when the task began.
    pub instance: Instance,
    /// How many actions of the plan have succeeded. A task whose step is
    /// the length of its plan, or more, is over.
    pub step: usize,
}

/// What a `Task` holds, with its texts as sequences of characters.
pub struct TaskView {
    pub op: Operation,
    pub instance: InstanceView,
    pub step: nat,
}

impl View for Task {
    type V = TaskView;

    open spec fn view(&self) -> TaskView {
        TaskView { op: self.op, instance: self.instance@, step: self.step as nat }
    }
}

impl TaskView {
    /// The plan of the task.
    pub open spec fn plan(self) -> Seq<ActionView> {
        plan_of(self.op, self.instance)
    }

    /// Whether the task is over.
    pub open spec fn over(self) -> bool {
        self.step >= self.plan().len()
    }

    /// The action that the task waits for, or `Done` when it is over.
    pub open spec fn pending(self) -> ActionView {
        if self.over() {
            ActionView::Done
        } else {
            self.plan()[self.step as int]
        }
    }

    /// The task once it is over.
    pub open spec fn ended(self) -> TaskView {
        TaskView { step: self.plan().len(), ..self }
    }
}

/// A store, a task and the next action, after one outcome was taken in.
pub struct Advance {
    pub store: StoreView,
    pub task: TaskView,
    pub action: ActionView,
}

/// What one outcome does to a task and the store. A success moves the
/// task to its next action; the success of the last action commits the
/// operation. Any other outcome ends the task with a failure and leaves
/// the store as it was. A task that is over stays so.
pub open spec fn advance_of(s: StoreView, t: TaskView, e: EventView, now: i64) -> Advance {
    if t.over() {
        Advance { store: s, task: t, action: ActionView::Done }
    } else if e is Succeeded {
        if t.step + 1 < t.plan().len() {
            let next = TaskView { step: t.step + 1, ..t };
            Advance { store: s, task: next, action: next.pending() }
        } else {
            match commit_of(s, t.op, t.instance.id, now) {
                Ok(done) => Advance { store: done, task: t.ended(), action: ActionView::Done },
                Err(err) => Advance { store: s, task: t.ended(), action: ActionView::Failed(err) },
            }
        }
    } else {
        Advance {
            store: s,
            task: t.ended(),
            action: ActionView::Failed(failure_of(t.pending(), e)),
        }
    }
}

/// The views of a list of actions.
pub open spec fn action_views(list: Seq<Action>) -> Seq<ActionView> {
    list.map_values(|a: Action| a@)
}

fn domain(instance: &Instance, call: DomainCall) -> (out: Action)
    ensures
        out@ == domain_call(instance@, call@),
{
    Action::Hypervisor { host: instance.host.clone(), id: instance.id, call }
}

/// The actions of an operation on an instance, in order.
pub fn plan(op: Operation, instance: &Instance) -> (out: Vec<Action>)
    ensures
        action_views(out@) == plan_of(op, instance@),
{
    let mut out: Vec<Action> = Vec::new();
    match op {
        Operation::Start => {
            out.push(domain(instance, DomainCall::Create));
        },
        Operation::Shutdown => {
            out.push(domain(instance, DomainCall::Shutdown));
        },
        Operation::Reboot => {
            out.push(domain(instance, DomainCall::Reboot));
        },
        Operation::HardReboot => {
            out.push(domain(instance, DomainCall::Destroy));
            out.push(domain(instance, DomainCall::Create));
        },
        Operation::Reinit => {
            out.push(domain(instance, DomainCall::Destroy));
            out.push(Action::Pause { millis: 500 });
            out.push(
                Action::Remote {
                    host: instance.host.clone(),
                    command: Command::RollbackVolume {
                        volume: instance.volume_name.clone(),
                        tag: String::from_str("init"),
                    },
                },
            );
            out.push(domain(instance, DomainCall::Create));
        },
        Operation::Delete => {
            out.push(domain(instance, DomainCall::Destroy));
            out.push(domain(instance, DomainCall::Undefine));
            out.push(Action::Pause { millis: 500 });
            out.push(
                Action::Remote {
                    host: instance.host.clone(),
                    command: Command::DestroyVolume { volume: instance.volume_name.clone() },
                },
            );
        },
    }
    assert(action_views(out@) =~= plan_of(op, instance@));
    out
}

/// Removes an instance with its seed and records the removal.
pub(crate) fn remove(store: &mut Store, id: u128, now: i64) -> (out: Result<(), Error>)
    requires
        old(store).wf(),
    ensures
        final(store).wf(),
        match removal_of(old(store)@, id, now) {
            Ok(next) => out is Ok && final(store)@ == next,
            Err(e) => out is Err && out->Err_0@ == e && final(store)@ == old(store)@,
        },
{
    proof {
        lemma_commit_wf(old(store)@, Operation::Delete, id, now);
    }
    match store.find_instance(id) {
        None => Err(Error::InstanceNotFound(id_string(id))),
        Some(k) => {
            if !store.has_room() {
                return Err(Error::SQLite(String::from_str("database or disk is full")));
            }
            let gone = store.remove_instance(k);
            let name = gone.name.clone();
            store.log(
                now,
                String::from_str("instance"),
                String::from_str("delete"),
                Some(Payload::Instance(gone)),
                Some(id),
                Some(name),
            );
            Ok(())
        },
    }
}

/// Changes the store as the operation asks, once its plan has succeeded.
pub(crate) fn commit(store: &mut Store, op: Operation, id: u128, now: i64) -> (out: Result<
    (),
    Error,
>)
    requires
        old(store).wf(),
    ensures
        final(store).wf(),
        match commit_of(old(store)@, op, id, now) {
            Ok(next) => out is Ok && final(store)@ == next,
            Err(e) => out is Err && out->Err_0@ == e && final(store)@ == old(store)@,
        },
{
    let changed = match op {
        Operation::Delete => {
            return remove(store, id, now);
        },
        Operation::Start => transition(store, id, "starting", "start", now),
        Operation::Shutdown => transition(store, id, "off", "shutdown", now),
        Operation::Reboot => transition(store, id, "rebooting", "reboot", now),
        Operation::HardReboot => transition(store, id, "rebooting", "hard_reboot", now),
        Operation::Reinit => transition(store, id, "reinit", "reinit", now),
    };
    match changed {
        Ok(_) => Ok(()),
        Err(e) => Err(e),
    }
}

impl Task {
    /// The action that the task waits for, or `Done` when it is over.
    pub fn action(&self) -> (out: Action)
        ensures
            out@ == self@.pending(),
    {
        let mut actions = plan(self.op, &self.instance);
        if self.step >= actions.len() {
            Action::Done
        } else {
            let out = actions.remove(self.step);
            assert(out@ == action_views(actions@.insert(self.step as int, out))[self.step as int]);
            out
        }
    }

    /// Takes in the outcome of the action that the task waited for, and
    /// says what comes next.
    pub fn advance(&mut self, store: &mut Store, event: &Event, now: i64) -> (out: Action)
        requires
            old(store).wf(),
        ensures
            final(store).wf(),
            advance_of(old(store)@, old(self)@, event@, now) == (Advance {
                store: final(store)@,
                task: final(self)@,
                action: out@,
            }),
    {
        let actions = plan(self.op, &self.instance);
        let len = actions.len();
        assert(len == self@.plan().len()) by {
            assert(action_views(actions@).len() == actions@.len());
        }
        if self.step >= len {
            return Action::Done;
        }
        match event {
            Event::Succeeded => {
                if self.step + 1 < len {
                    self.step = self.step + 1;
                    self.action()
                } else {
                    self.step = len;
                    match commit(store, self.op, self.instance.id, now) {
                        Ok(()) => Action::Done,
                        Err(e) => Action::Failed(e),
                    }
                }
            },
            _ => {
                let pending = self.action();
                self.step = len;
                Action::Failed(failure(&pending, event))
            },
        }
    }
}

/// Begins an operation on the instance with this id: the task, and the
/// first action of its plan. Nothing is changed yet.
pub fn begin(store: &Store, op: Operation, id: u128) -> (out: Result<(Task, Action), Error>)
    requires
        store.wf(),
    ensures
        store@.has_instance(id) ==> out is Ok && out->Ok_0.0@ == (TaskView {
            op,
            instance: store@.instance(id),
            step: 0,
        }) && out->Ok_0.1@ == out->Ok_0.0@.pending(),
        !store@.has_instance(id) ==> out is Err && out->Err_0@ == no_instance(id),
{
    match store.find_instance(id) {
        None => Err(Error::InstanceNotFound(id_string(id))),
        Some(k) => {
            let task = Task { op, instance: store.instance_at(k).duplicate(), step: 0 };
            let first = task.action();
            Ok((task, first))
        },
    }
}

/// Begins to start an instance: the hypervisor starts its domain, then the
/// status becomes `starting`.
pub fn start(store: &Store, id: u128) -> (out: Result<(Task, Action), Error>)
    requires
        store.wf(),
    ensures
        store@.has_instance(id) ==> out is Ok && out->Ok_0.0@ == (TaskView {
            op: Operation::Start,
            instance: store@.instance(id),
            step: 0,
        }) && out->Ok_0.1@ == out->Ok_0.0@.pending(),
        !store@.has_instance(id) ==> out is Err && out->Err_0@ == no_instance(id),
{
    begin(store, Operation::Start, id)
}

/// Begins to shut an instance down: the guest is asked to stop, then the
/// status becomes `off`.
pub fn shutdown(store: &Store, id: u128) -> (out: Result<(Task, Action), Error>)
    requires
        store.wf(),
    ensures
        store@.has_instance(id) ==> out is Ok && out->Ok_0.0@ == (TaskView {
            op: Operation::Shutdown,
            instance: store@.instance(id),
            step: 0,
        }) && out->Ok_0.1@ == out->Ok_0.0@.pending(),
        !store@.has_instance(id) ==> out is Err && out->Err_0@ == no_instance(id),
{
    begin(store, Operation::Shutdown, id)
}

/// Begins to reboot an instance with the guest's cooperation; the status
/// becomes `rebooting`.
pub fn reboot(store: &Store, id: u128) -> (out: Result<(Task, Action), Error>)
    requires
        store.wf(),
    ensures
        store@.has_instance(id) ==> out is Ok && out->Ok_0.0@ == (TaskView {
            op: Operation::Reboot,
            instance: store@.instance(id),
            step: 0,
        }) && out->Ok_0.1@ == out->Ok_0.0@.pending(),
        !store@.has_instance(id) ==> out is Err && out->Err_0@ == no_instance(id),
{
    begin(store, Operation::Reboot, id)
}

/// Begins to reboot an instance without asking the guest: its domain is
/// stopped and started again; the status becomes `rebooting`.
pub fn hard_reboot(store: &Store, id: u128) -> (out: Result<(Task, Action), Error>)
    requires
        store.wf(),
    ensures
        store@.has_instance(id) ==> out is Ok && out->Ok_0.0@ == (TaskView {
            op: Operation::HardReboot,
            instance: store@.instance(id),
            step: 0,
        }) && out->Ok_0.1@ == out->Ok_0.0@.pending(),
        !store@.has_instance(id) ==> out is Err && out->Err_0@ == no_instance(id),
{
    begin(store, Operation::HardReboot, id)
}

/// Begins to reset an instance to the state its volume had when it was
/// first written: the domain is stopped, the volume rolled back to its
/// first snapshot, the domain started; the status becomes `reinit`.
pub fn reinit(store: &Store, id: u128) -> (out: Result<(Task, Action), Error>)
    requires
        store.wf(),
    ensures
        store@.has_instance(id) ==> out is Ok && out->Ok_0.0@ == (TaskView {
            op: Operation::Reinit,
            instance: store@.instance(id),
            step: 0,
        }) && out->Ok_0.1@ == out->Ok_0.0@.pending(),
        !store@.has_instance(id) ==> out is Err && out->Err_0@ == no_instance(id),
{
    begin(store, Operation::Reinit, id)
}

/// Begins to delete an instance: its domain is stopped and forgotten, its
/// volume destroyed, and then its row and its seed are removed.
pub fn delete(store: &Store, id: u128) -> (out: Result<(Task, Action), Error>)
    requires
        store.wf(),
    ensures
        store@.has_instance(id) ==> out is Ok && out->Ok_0.0@ == (TaskView {
            op: Operation::Delete,
            instance: store@.instance(id),
            step: 0,
        }) && out->Ok_0.1@ == out->Ok_0.0@.pending(),
        !store@.has_instance(id) ==> out is Err && out->Err_0@ == no_instance(id),
{
    begin(store, Operation::Delete, id)
}

/// Asks for the live state of an instance's domain.
pub fn get_machine(store: &Store, id: u128) -> (out: Result<Action, Error>)
    requires
        store.wf(),
    ensures
        store@.has_instance(id) ==> out is Ok && out->Ok_0@ == domain_call(
            store@.instance(id),
            DomainCallView::Inspect,
        ),
        !store@.has_instance(id) ==> out is Err && out->Err_0@ == no_instance(id),
{
    match store.find_instance(id) {
        None => Err(Error::InstanceNotFound(id_string(id))),
        Some(k) => Ok(domain(store.instance_at(k), DomainCall::Inspect)),
    }
}

/// The steps of provisioning, each named after the action it waits for.
#[derive(Clone, Copy, Debug, PartialEq, Eq, Structural)]
pub enum Stage {
    /// Is the image cached on the host?
    CheckImage,
    /// The image is being fetched.
    FetchImage,
    /// A failed fetch is being cleaned up.
    RemoveImage,
    CreateVolume,
    HydrateVolume,
    SnapshotVolume,
    DefineDomain,
    StartDomain,
    /// Nothing is left to do, whether provisioning succeeded or failed.
    Finished,
}

/// The provisioning of one instance, from the moment its row exists.
#[derive(Clone, Debug)]
pub struct Provision {
    /// The instance as the store last recorded it for this workflow.
    pub instance: Instance,
    /// The distro that the instance is made from.
    pub distro: Distro,
    pub sata: bool,
    /// The address under which the guest reaches the server.
    pub base_url: String,
    pub stage: Stage,
    /// What a failed fetch wrote, kept while its leftovers are removed.
    pub fetch_error: String,
}

/// What a `Provision` holds, with its texts as sequences of characters.
pub struct ProvisionView {
    pub instance: InstanceView,
    pub distro: DistroView,
    pub sata: bool,
    pub base_url: Seq<char>,
    pub stage: Stage,
    pub fetch_error: Seq<char>,
}

impl View for Provision {
    type V = ProvisionView;

    open spec fn view(&self) -> ProvisionView {
        ProvisionView {
            instance: self.instance@,
            distro: self.distro@,
            sata: self.sata,
            base_url: self.base_url@,
            stage: self.stage,
            fetch_error: self.fetch_error@,
        }
    }
}

/// Where the guest with this id fetches its cloud-init documents.
pub open spec fn callback_url_of(base_url: Seq<char>, id: u128) -> Seq<char> {
    base_url + "/api/cloudinit/"@ + id_text(id) + "/"@
}

impl ProvisionView {
    /// What the hypervisor is told of the new domain: the instance's name,
    /// id, hardware address, volume and processor count, the disk mode,
    /// the memory in kilobytes and the address for cloud-init.
    pub open spec fn domain_spec(self) -> DomainSpecView {
        DomainSpecView {
            name: self.instance.name,
            id: self.instance.id,
            mac_address: self.instance.mac_address,
            volume: self.instance.volume_name,
            sata: self.sata,
            memory_kb: (self.instance.memory_mb as int * 1024) as i64,
            cpus: self.instance.cpu_count,
            callback_url: callback_url_of(self.base_url, self.instance.id),
        }
    }

    /// The action that the workflow waits for, or `Done` when nothing is
    /// left to do.
    pub open spec fn pending(self) -> ActionView {
        let i = self.instance;
        let sha256sum = self.distro.sha256sum;
        match self.stage {
            Stage::CheckImage => remote(i, CommandView::StatImage { sha256sum }),
            Stage::FetchImage => remote(
                i,
                CommandView::FetchImage { sha256sum, url: self.distro.download_url },
            ),
            Stage::RemoveImage => remote(i, CommandView::RemoveImage { sha256sum }),
            Stage::CreateVolume => remote(
                i,
                CommandView::CreateVolume { volume: i.volume_name, size_gb: i.disk_size_gb },
            ),
            Stage::HydrateVolume => remote(
                i,
                CommandView::HydrateVolume { sha256sum, volume: i.volume_name },
            ),
            Stage::SnapshotVolume => remote(
                i,
                CommandView::SnapshotVolume { volume: i.volume_name, tag: init_tag() },
            ),
            Stage::DefineDomain => domain_call(i, DomainCallView::Define(self.domain_spec())),
            Stage::StartDomain => domain_call(i, DomainCallView::Create),
            Stage::Finished => ActionView::Done,
        }
    }

    /// The workflow at another stage.
    pub open spec fn at(self, stage: Stage) -> ProvisionView {
        ProvisionView { stage, ..self }
    }
}

/// A store, a provisioning workflow and the next action, after one outcome
/// was taken in.
pub struct Progress {
    pub store: StoreView,
    pub job: ProvisionView,
    pub action: ActionView,
}

/// The workflow moves on to a stage and waits for that stage's action.
pub open spec fn goes_to(s: StoreView, p: ProvisionView, stage: Stage) -> Progress {
    Progress { store: s, job: p.at(stage), action: p.at(stage).pending() }
}

/// The workflow ends with a failure. The store keeps the last status that
/// was reached.
pub open spec fn fails_with(s: StoreView, p: ProvisionView, e: ErrorView) -> Progress {
    Progress { store: s, job: p.at(Stage::Finished), action: ActionView::Failed(e) }
}

/// The instance takes a new status, which the audit log records under the
/// status's own name, and the workflow moves on to a stage. Where the
/// store cannot record the change, the workflow fails.
pub open spec fn enters(
    s: StoreView,
    p: ProvisionView,
    status: Seq<char>,
    stage: Stage,
    now: i64,
) -> Progress {
    match transition_of(s, p.instance.id, status, status, now) {
        Ok(t) => {
            let job = ProvisionView { instance: t.instance, stage, ..p };
            Progress { store: t.store, job, action: job.pending() }
        },
        Err(e) => fails_with(s, p, e),
    }
}

/// What one outcome does to the provisioning of an instance.
///
/// The image is fetched only where the host does not have it, and the
/// status becomes `downloading image` first; a failed fetch is cleaned up
/// and ends the workflow. Then the volume is created, the status becomes
/// `hydrating volume`, the image is written into the volume, the volume is
/// snapshotted, the domain is defined and started, and the status becomes
/// `waiting for cloud-init`. Any failure ends the workflow where it
/// stands: nothing is rolled back.
pub open spec fn make_instance_of(s: StoreView, p: ProvisionView, e: EventView, now: i64)
    -> Progress {
    if p.stage is Finished {
        Progress { store: s, job: p, action: ActionView::Done }
    } else {
        match e {
            EventView::Aborted(m) => fails_with(s, p, ErrorView::IO(m)),
            EventView::Succeeded => match p.stage {
                Stage::CheckImage => goes_to(s, p, Stage::CreateVolume),
                Stage::FetchImage => goes_to(s, p, Stage::CreateVolume),
                Stage::RemoveImage => fails_with(
                    s,
                    p,
                    ErrorView::ImageDownloadFailed(p.distro.download_url, p.fetch_error),
                ),
                Stage::CreateVolume => enters(s, p, status_hydrating(), Stage::HydrateVolume, now),
                Stage::HydrateVolume => goes_to(s, p, Stage::SnapshotVolume),
                Stage::SnapshotVolume => goes_to(s, p, Stage::DefineDomain),
                Stage::DefineDomain => goes_to(s, p, Stage::StartDomain),
                _ => enters(s, p, status_waiting(), Stage::Finished, now),
            },
            EventView::Failed(m) => match p.stage {
                Stage::CheckImage => enters(s, p, status_downloading(), Stage::FetchImage, now),
                Stage::FetchImage => goes_to(
                    s,
                    ProvisionView { fetch_error: m, ..p },
                    Stage::RemoveImage,
                ),
                Stage::RemoveImage => fails_with(
                    s,
                    p,
                    ErrorView::ImageDownloadFailed(p.distro.download_url, p.fetch_error),
                ),
                Stage::StartDomain => fails_with(
                    s,
                    p,
                    ErrorView::DomainStartFailed(p.instance.host, m),
                ),
                _ => fails_with(s, p, failure_of(p.pending(), e)),
            },
        }
    }
}

impl Provision {
    /// What the hypervisor is told of the new domain.
    pub fn domain_spec(&self) -> (out: DomainSpec)
        ensures
            out@ == self@.domain_spec(),
    {
        let id = id_string(self.instance.id);
        let memory_kb: i64 = (self.instance.memory_mb as i64) * 1024;
        DomainSpec {
            name: self.instance.name.clone(),
            id: self.instance.id,
            mac_address: self.instance.mac_address.clone(),
            volume: self.instance.volume_name.clone(),
            sata: self.sata,
            memory_kb,
            cpus: self.instance.cpu_count,
            callback_url: join4(self.base_url.as_str(), "/api/cloudinit/", id.as_str(), "/"),
        }
    }

    /// The action that the workflow waits for, or `Done` when nothing is
    /// left to do.
    pub fn action(&self) -> (out: Action)
        ensures
            out@ == self@.pending(),
    {
        let host = self.instance.host.clone();
        let command = match self.stage {
            Stage::CheckImage => Command::StatImage { sha256sum: self.distro.sha256sum.clone() },
            Stage::FetchImage => Command::FetchImage {
                sha256sum: self.distro.sha256sum.clone(),
                url: self.distro.download_url.clone(),
            },
            Stage::RemoveImage => Command::RemoveImage {
                sha256sum: self.distro.sha256sum.clone(),
            },
            Stage::CreateVolume => Command::CreateVolume {
                volume: self.instance.volume_name.clone(),
                size_gb: self.instance.disk_size_gb,
            },
            Stage::HydrateVolume => Command::HydrateVolume {
                sha256sum: self.distro.sha256sum.clone(),
                volume: self.instance.volume_name.clone(),
            },
            Stage::SnapshotVolume => Command::SnapshotVolume {
                volume: self.instance.volume_name.clone(),
                tag: String::from_str("init"),
            },
            Stage::DefineDomain => {
                return domain(&self.instance, DomainCall::Define(self.domain_spec()));
            },
            Stage::StartDomain => {
                return domain(&self.instance, DomainCall::Create);
            },
            Stage::Finished => {
                return Action::Done;
            },
        };
        Action::Remote { host, command }
    }

    fn go_to(&mut self, stage: Stage) -> (out: Action)
        ensures
            final(self)@ == old(self)@.at(stage),
            out@ == final(self)@.pending(),
    {
        self.stage = stage;
        self.action()
    }

    fn fail(&mut self, error: Error) -> (out: Action)
        ensures
            final(self)@ == old(self)@.at(Stage::Finished),
            out@ == ActionView::Failed(error@),
    {
        self.stage = Stage::Finished;
        Action::Failed(error)
    }

    fn enter(&mut self, store: &mut Store, status: &str, stage: Stage, now: i64) -> (out: Action)
        requires
            old(store).wf(),
        ensures
            final(store).wf(),
            enters(old(store)@, old(self)@, status@, stage, now) == (Progress {
                store: final(store)@,
                job: final(self)@,
                action: out@,
            }),
    {
        match transition(store, self.instance.id, status, status, now) {
            Ok(updated) => {
                self.instance = updated;
                self.stage = stage;
                self.action()
            },
            Err(e) => self.fail(e),
        }
    }
}

/// Takes in the outcome of the action that the provisioning of an
/// instance waited for, and says what comes next.
pub fn make_instance(store: &mut Store, job: &mut Provision, event: &Event, now: i64) -> (out:
    Action)
    requires
        old(store).wf(),
    ensures
        final(store).wf(),
        make_instance_of(old(store)@, old(job)@, event@, now) == (Progress {
            store: final(store)@,
            job: final(job)@,
            action: out@,
        }),
{
    match job.stage {
        Stage::Finished => {
            return Action::Done;
        },
        _ => {},
    }
    match event {
        Event::Aborted(m) => job.fail(Error::IO(m.clone())),
        Event::Succeeded => match job.stage {
            Stage::CheckImage => job.go_to(Stage::CreateVolume),
            Stage::FetchImage => job.go_to(Stage::CreateVolume),
            Stage::RemoveImage => {
                let error = Error::ImageDownloadFailed(
                    job.distro.download_url.clone(),
                    job.fetch_error.clone(),
                );
                job.fail(error)
            },
            Stage::CreateVolume => job.enter(store, "hydrating volume", Stage::HydrateVolume, now),
            Stage::HydrateVolume => job.go_to(Stage::SnapshotVolume),
            Stage::SnapshotVolume => job.go_to(Stage::DefineDomain),
            Stage::DefineDomain => job.go_to(Stage::StartDomain),
            _ => job.enter(store, "waiting for cloud-init", Stage::Finished, now),
        },
        Event::Failed(m) => match job.stage {
            Stage::CheckImage => job.enter(store, "downloading image", Stage::FetchImage, now),
            Stage::FetchImage => {
                job.fetch_error = m.clone();
                job.go_to(Stage::RemoveImage)
            },
            Stage::RemoveImage => {
                let error = Error::ImageDownloadFailed(
                    job.distro.download_url.clone(),
                    job.fetch_error.clone(),
                );
                job.fail(error)
            },
            Stage::StartDomain => {
                let error = Error::DomainStartFailed(job.instance.host.clone(), m.clone());
                job.fail(error)
            },
            _ => {
                let pending = job.action();
                let error = failure(&pending, event);
                job.fail(error)
            },
        },
    }
}

/// A text that may be missing, or else its default.
pub open spec fn text_or(o: Option<Seq<char>>, default: Seq<char>) -> Seq<char> {
    match o {
        Some(t) => t,
        None => default,
    }
}

/// A number that may be missing, or else its default.
pub open spec fn number_or(o: Option<i32>, default: i32) -> i32 {
    match o {
        Some(n) => n,
        None => default,
    }
}

/// A flag that may be missing, or else its default.
pub open spec fn flag_or(o: Option<bool>, default: bool) -> bool {
    match o {
        Some(b) => b,
        None => default,
    }
}

/// The name of the volume that backs an instance: the prefix, a slash and
/// the instance's name.
pub open spec fn volume_name_of(prefix: Seq<char>, name: Seq<char>) -> Seq<char> {
    prefix + "/"@ + name
}

/// The instance that a request describes, with what it leaves out filled
/// in: 512 MB of memory, two processors, the distro's minimum disk size,
/// the configured volume pool, no overlay network.
pub open spec fn instance_of(
    details: NewInstanceView,
    distro: DistroView,
    config: ConfigView,
    name: Seq<char>,
    id: u128,
    mac: Seq<char>,
) -> InstanceView {
    InstanceView {
        id,
        name,
        host: details.host,
        mac_address: mac,
        memory_mb: number_or(details.memory_mb, 512),
        cpu_count: number_or(details.cpus, 2),
        disk_size_gb: number_or(details.disk_size_gb, distro.min_size_gb),
        volume_name: volume_name_of(text_or(details.volume_prefix, config.rpool_base), name),
        distro: distro.name,
        status: status_init(),
        join_network: flag_or(details.join_network, false),
    }
}

/// What a creation leaves behind: the store with the new rows, the new
/// instance, and the workflow that will provision it.
pub struct Created {
    pub store: StoreView,
    pub instance: InstanceView,
    pub job: ProvisionView,
}

/// The failure of a request that has no name where none could be drawn.
pub open spec fn no_name() -> ErrorView {
    ErrorView::Catchall("no name is left to give"@)
}

/// The failure of adding an instance whose id is taken.
pub open spec fn id_taken() -> ErrorView {
    ErrorView::SQLite("UNIQUE constraint failed: instances.uuid"@)
}

/// The failure of adding an instance whose name is taken.
pub open spec fn name_taken() -> ErrorView {
    ErrorView::SQLite("UNIQUE constraint failed: instances.name"@)
}

/// What creating an instance does, given how many addresses its host
/// resolves to, the id and the hardware address that were made for it, and
/// the name that was drawn for it, if there was one to draw.
///
/// A host without an address and a distro that the catalog lacks are
/// refused, in this order. A request without a name takes the drawn one.
/// The id and the name must be new. Then the instance is added with status
/// `init`, its user data is kept as its seed, and the audit log records the
/// creation. A refused request changes nothing.
pub open spec fn create_of(
    s: StoreView,
    config: ConfigView,
    details: NewInstanceView,
    addrs: nat,
    id: u128,
    mac: Seq<char>,
    generated: Option<Seq<char>>,
    now: i64,
) -> Result<Created, ErrorView> {
    if addrs == 0 {
        Err(ErrorView::HostUnreachable(details.host))
    } else if !s.has_distro(details.distro) {
        Err(ErrorView::DistroNotFound(details.distro))
    } else if details.name is None && generated is None {
        Err(no_name())
    } else {
        let distro = s.distro(details.distro);
        let name = match details.name {
            Some(n) => n,
            None => generated->0,
        };
        let instance = instance_of(details, distro, config, name, id, mac);
        if s.has_instance(id) {
            Err(id_taken())
        } else if s.has_name(name) {
            Err(name_taken())
        } else if !s.has_room() {
            Err(store_full())
        } else {
            Ok(
                Created {
                    store: s.insert_instance(
                        instance,
                        text_or(details.user_data, config.user_data),
                    ).log(
                        now,
                        kind_instance(),
                        "create"@,
                        Some(PayloadView::Instance(instance)),
                        Some(id),
                        Some(name),
                    ),
                    instance,
                    job: ProvisionView {
                        instance,
                        distro,
                        sata: flag_or(details.sata, false),
                        base_url: config.base_url,
                        stage: Stage::CheckImage,
                        fetch_error: Seq::empty(),
                    },
                },
            )
        }
    }
}

/// What holds of every instance that was created: the store is still
/// well-formed, the instance is in it under an id and a name that no
/// instance had before, its status is `init`, it is made from the distro
/// that was asked for, and a request without a disk size got the distro's
/// minimum.
pub proof fn lemma_create(
    s: StoreView,
    config: ConfigView,
    details: NewInstanceView,
    addrs: nat,
    id: u128,
    mac: Seq<char>,
    generated: Option<Seq<char>>,
    now: i64,
)
    requires
        s.wf(),
    ensures
        create_of(s, config, details, addrs, id, mac, generated, now) matches Ok(c) ==> {
            &&& c.store.wf()
            &&& c.instance.id == id
            &&& !s.has_instance(c.instance.id)
            &&& !s.has_name(c.instance.name)
            &&& c.store.has_instance(id)
            &&& c.store.instance(id) == c.instance
            &&& c.store.seed(id).user_data == text_or(details.user_data, config.user_data)
            &&& c.instance.status == status_init()
            &&& c.instance.distro == details.distro
            &&& s.has_distro(details.distro)
            &&& details.disk_size_gb is None ==> c.instance.disk_size_gb == s.distro(
                details.distro,
            ).min_size_gb
            &&& details.name is Some ==> c.instance.name == details.name->0
            &&& c.store.audit.len() == s.audit.len() + 1
            &&& c.store.audit.last().operation == "create"@
        },
{
    if create_of(s, config, details, addrs, id, mac, generated, now) is Ok {
        let c = create_of(s, config, details, addrs, id, mac, generated, now)->Ok_0;
        let distro = s.distro(details.distro);
        assert(distro.name == details.distro);
        let user_data = text_or(details.user_data, config.user_data);
        let added = s.insert_instance(c.instance, user_data);
        s.lemma_insert_wf(c.instance, user_data);
        added.lemma_log_wf(
            now,
            kind_instance(),
            "create"@,
            Some(PayloadView::Instance(c.instance)),
            Some(id),
            Some(c.instance.name),
        );
        let k = s.instances.len() as int;
        assert(c.store.instances[k] == c.instance);
        c.store.lemma_instance_index(id, k);
    }
}

/// The view of what a creation hands back.
pub open spec fn created_view(out: Result<(Instance, Provision), Error>) -> Result<
    (InstanceView, ProvisionView),
    ErrorView,
> {
    match out {
        Ok(pair) => Ok((pair.0@, pair.1@)),
        Err(e) => Err(e@),
    }
}

/// Whether a store and a result are what creating an instance leaves
/// behind, for the given id, hardware address and drawn name.
pub open spec fn creates(
    before: StoreView,
    after: StoreView,
    config: ConfigView,
    details: NewInstanceView,
    addrs: nat,
    id: u128,
    mac: Seq<char>,
    generated: Option<Seq<char>>,
    now: i64,
    out: Result<(InstanceView, ProvisionView), ErrorView>,
) -> bool {
    match create_of(before, config, details, addrs, id, mac, generated, now) {
        Ok(c) => out == Ok::<(InstanceView, ProvisionView), ErrorView>((c.instance, c.job))
            && after == c.store,
        Err(e) => out == Err::<(InstanceView, ProvisionView), ErrorView>(e) && after == before,
    }
}

/// Creates an instance from a request, with the id, the hardware address
/// and the drawn name handed in.
pub fn create_with(
    store: &mut Store,
    config: &Config,
    details: NewInstance,
    addrs: usize,
    id: u128,
    mac: String,
    generated: Option<String>,
    now: i64,
) -> (out: Result<(Instance, Provision), Error>)
    requires
        old(store).wf(),
    ensures
        final(store).wf(),
        creates(
            old(store)@,
            final(store)@,
            config@,
            details@,
            addrs as nat,
            id,
            mac@,
            opt_text(generated),
            now,
            created_view(out),
        ),
{
    proof {
        lemma_create(
            old(store)@,
            config@,
            details@,
            addrs as nat,
            id,
            mac@,
            opt_text(generated),
            now,
        );
    }
    if addrs == 0 {
        return Err(Error::HostUnreachable(details.host));
    }
    let distro = match store.find_distro(&details.distro) {
        None => {
            return Err(Error::DistroNotFound(details.distro));
        },
        Some(k) => store.distro_at(k).duplicate(),
    };
    let name = match details.name {
        Some(n) => n,
        None => match generated {
            Some(g) => g,
            None => {
                return Err(Error::Catchall(String::from_str("no name is left to give")));
            },
        },
    };
    let prefix = match details.volume_prefix {
        Some(p) => p,
        None => config.rpool_base.clone(),
    };
    let user_data = match details.user_data {
        Some(u) => u,
        None => config.user_data.clone(),
    };
    let instance = Instance {
        id,
        name: name.clone(),
        host: details.host,
        mac_address: mac,
        memory_mb: match details.memory_mb {
            Some(m) => m,
            None => 512,
        },
        cpu_count: match details.cpus {
            Some(c) => c,
            None => 2,
        },
        disk_size_gb: match details.disk_size_gb {
            Some(d) => d,
            None => distro.min_size_gb,
        },
        volume_name: join3(prefix.as_str(), "/", name.as_str()),
        distro: distro.name.clone(),
        status: String::from_str("init"),
        join_network: match details.join_network {
            Some(j) => j,
            None => false,
        },
    };
    if store.find_instance(id).is_some() {
        return Err(
            Error::SQLite(String::from_str("UNIQUE constraint failed: instances.uuid")),
        );
    }
    if store.find_instance_by_name(&name).is_some() {
        return Err(
            Error::SQLite(String::from_str("UNIQUE constraint failed: instances.name")),
        );
    }
    if !store.has_room() {
        return Err(Error::SQLite(String::from_str("database or disk is full")));
    }
    let job = Provision {
        instance: instance.duplicate(),
        distro,
        sata: match details.sata {
            Some(s) => s,
            None => false,
        },
        base_url: config.base_url.clone(),
        stage: Stage::CheckImage,
        fetch_error: String::new(),
    };
    let snapshot = instance.duplicate();
    let out = instance.duplicate();
    store.insert_instance(instance, user_data);
    store.log(
        now,
        String::from_str("instance"),
        String::from_str("create"),
        Some(Payload::Instance(snapshot)),
        Some(id),
        Some(name),
    );
    Ok((out, job))
}

/// Creates an instance from a request: resolves what the request leaves
/// out, gives the instance a fresh random id and a random hardware
/// address, adds it to the store with status `init`, and hands back the
/// instance together with the workflow that provisions it.
///
/// `addrs` is the number of addresses that the request's host resolves
/// to. `names` is the document of candidate names, from which a name is
/// drawn for a request that has none.
pub fn create(
    store: &mut Store,
    config: &Config,
    details: NewInstance,
    addrs: usize,
    names: &Vec<u8>,
    now: i64,
) -> (out: Result<(Instance, Provision), Error>)
    requires
        old(store).wf(),
    ensures
        final(store).wf(),
        exists|id: u128, mac: Seq<char>, generated: Option<Seq<char>>|
            is_random_id(id) && (details@.name is None ==> may_draw(names@, generated))
                && #[trigger] creates(
                old(store)@,
                final(store)@,
                config@,
                details@,
                addrs as nat,
                id,
                mac,
                generated,
                now,
                created_view(out),
            ),
        addrs == 0 ==> out is Err && out->Err_0@ == ErrorView::HostUnreachable(details@.host),
        addrs > 0 && !old(store)@.has_distro(details@.distro) ==> out is Err && out->Err_0@
            == ErrorView::DistroNotFound(details@.distro),
        out is Err ==> final(store)@ == old(store)@,
        out is Ok ==> {
            let instance = out->Ok_0.0@;
            &&& instance.id != 0
            &&& !old(store)@.has_instance(instance.id)
            &&& !old(store)@.has_name(instance.name)
            &&& final(store)@.has_instance(instance.id)
            &&& final(store)@.instance(instance.id) == instance
            &&& instance.status == status_init()
            &&& instance.distro == details@.distro
            &&& details@.disk_size_gb is None ==> instance.disk_size_gb == old(store)@.distro(
                details@.distro,
            ).min_size_gb
            &&& out->Ok_0.1@.instance == instance
            &&& out->Ok_0.1@.stage == Stage::CheckImage
            &&& final(store)@.audit.len() == old(store)@.audit.len() + 1
            &&& final(store)@.audit.last().operation == "create"@
        },
{
    let id = fresh_id();
    let mac = random_mac();
    let generated = match &details.name {
        Some(_) => None,
        None => crate::namegen::next(names),
    };
    let ghost request = details@;
    let ghost drawn = opt_text(generated);
    let ghost mac_view = mac@;
    proof {
        lemma_create(
            old(store)@,
            config@,
            request,
            addrs as nat,
            id,
            mac_view,
            drawn,
            now,
        );
    }
    let out = create_with(store, config, details, addrs, id, mac, generated, now);
    assert(creates(
        old(store)@,
        store@,
        config@,
        request,
        addrs as nat,
        id,
        mac_view,
        drawn,
        now,
        created_view(out),
    ));
    out
}

} // verus!

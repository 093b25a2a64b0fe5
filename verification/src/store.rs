//! The durable state of the control plane, held in memory: the instance
//! table with its cloud-init seeds, the distro catalog and the audit log.

use crate::models::{
    opt_payload, opt_text, AuditEvent, AuditEventView, CloudconfigSeed, CloudconfigSeedView,
    Distro, DistroView, Instance, InstanceView, Payload, PayloadView,
};
use crate::error::{Error, ErrorView};
use crate::ident::{id_string, id_text};
use vstd::prelude::*;

verus! {

/// No two instances share an id or a name.
pub open spec fn distinct_instances(rows: Seq<InstanceView>) -> bool {
    forall|i: int, j: int|
        0 <= i < j < rows.len() ==> (#[trigger] rows[i]).id != (#[trigger] rows[j]).id
            && rows[i].name != rows[j].name
}

/// Every instance has its seed, in the same row position.
pub open spec fn matching_seeds(rows: Seq<InstanceView>, seeds: Seq<CloudconfigSeedView>)
    -> bool {
    &&& seeds.len() == rows.len()
    &&& forall|i: int| 0 <= i < seeds.len() ==> (#[trigger] seeds[i]).id == rows[i].id
}

/// No two distros share a name.
pub open spec fn distinct_distros(rows: Seq<DistroView>) -> bool {
    forall|i: int, j: int|
        0 <= i < j < rows.len() ==> (#[trigger] rows[i]).name != (#[trigger] rows[j]).name
}

/// The audit events are numbered from 1 in the order of insertion.
pub open spec fn numbered(log: Seq<AuditEventView>) -> bool {
    &&& log.len() <= i32::MAX
    &&& forall|i: int| 0 <= i < log.len() ==> (#[trigger] log[i]).id == i + 1
}

/// The four tables as sequences of rows, in the order of insertion.
pub struct StoreView {
    pub instances: Seq<InstanceView>,
    pub seeds: Seq<CloudconfigSeedView>,
    pub distros: Seq<DistroView>,
    pub audit: Seq<AuditEventView>,
}

impl StoreView {
    /// The store with no rows.
    pub open spec fn empty() -> StoreView {
        StoreView {
            instances: Seq::empty(),
            seeds: Seq::empty(),
            distros: Seq::empty(),
            audit: Seq::empty(),
        }
    }

    /// No two instances share an id or a name.
    pub open spec fn instances_distinct(self) -> bool {
        distinct_instances(self.instances)
    }

    /// Every instance has its seed, in the same row position.
    pub open spec fn seeds_match(self) -> bool {
        matching_seeds(self.instances, self.seeds)
    }

    /// No two distros share a name.
    pub open spec fn distros_distinct(self) -> bool {
        distinct_distros(self.distros)
    }

    /// The audit events are numbered from 1 in the order of insertion.
    pub open spec fn audit_numbered(self) -> bool {
        numbered(self.audit)
    }

    /// The invariant of the store.
    pub open spec fn wf(self) -> bool {
        &&& self.instances_distinct()
        &&& self.seeds_match()
        &&& self.distros_distinct()
        &&& self.audit_numbered()
    }

    /// Whether an instance has this id.
    pub open spec fn has_instance(self, id: u128) -> bool {
        exists|k: int| 0 <= k < self.instances.len() && (#[trigger] self.instances[k]).id == id
    }

    /// The row of the instance with this id.
    pub open spec fn instance_index(self, id: u128) -> int {
        choose|k: int| 0 <= k < self.instances.len() && (#[trigger] self.instances[k]).id == id
    }

    /// The instance with this id.
    pub open spec fn instance(self, id: u128) -> InstanceView {
        self.instances[self.instance_index(id)]
    }

    /// The seed of the instance with this id.
    pub open spec fn seed(self, id: u128) -> CloudconfigSeedView {
        self.seeds[self.instance_index(id)]
    }

    /// Whether an instance has this name.
    pub open spec fn has_name(self, name: Seq<char>) -> bool {
        exists|k: int|
            0 <= k < self.instances.len() && (#[trigger] self.instances[k]).name == name
    }

    /// The row of the instance with this name.
    pub open spec fn name_index(self, name: Seq<char>) -> int {
        choose|k: int|
            0 <= k < self.instances.len() && (#[trigger] self.instances[k]).name == name
    }

    /// Whether the catalog has a distro of this name.
    pub open spec fn has_distro(self, name: Seq<char>) -> bool {
        exists|k: int| 0 <= k < self.distros.len() && (#[trigger] self.distros[k]).name == name
    }

    /// The row of the distro of this name.
    pub open spec fn distro_index(self, name: Seq<char>) -> int {
        choose|k: int| 0 <= k < self.distros.len() && (#[trigger] self.distros[k]).name == name
    }

    /// The distro of this name.
    pub open spec fn distro(self, name: Seq<char>) -> DistroView {
        self.distros[self.distro_index(name)]
    }

    /// Whether the audit log can take one more event.
    pub open spec fn has_room(self) -> bool {
        self.audit.len() < i32::MAX
    }

    /// The store after a new instance and its seed were added.
    pub open spec fn insert_instance(self, instance: InstanceView, user_data: Seq<char>)
        -> StoreView {
        StoreView {
            instances: self.instances.push(instance),
            seeds: self.seeds.push(CloudconfigSeedView { id: instance.id, user_data }),
            ..self
        }
    }

    /// The store after the instance in row `k` changed its status.
    pub open spec fn set_status(self, k: int, status: Seq<char>) -> StoreView {
        StoreView {
            instances: self.instances.update(k, self.instances[k].with_status(status)),
            ..self
        }
    }

    /// The store after the instance in row `k` and its seed were removed.
    pub open spec fn remove_instance(self, k: int) -> StoreView {
        StoreView { instances: self.instances.remove(k), seeds: self.seeds.remove(k), ..self }
    }

    /// The store after a distro was written: in place of the one of its
    /// name, or as a new row.
    pub open spec fn put_distro(self, distro: DistroView) -> StoreView {
        if self.has_distro(distro.name) {
            StoreView {
                distros: self.distros.update(self.distro_index(distro.name), distro),
                ..self
            }
        } else {
            StoreView { distros: self.distros.push(distro), ..self }
        }
    }

    /// The store after the distro in row `k` was removed.
    pub open spec fn remove_distro(self, k: int) -> StoreView {
        StoreView { distros: self.distros.remove(k), ..self }
    }

    /// The event that the next insertion into the audit log makes.
    pub open spec fn next_event(
        self,
        now: i64,
        kind: Seq<char>,
        operation: Seq<char>,
        payload: Option<PayloadView>,
        entity_id: Option<u128>,
        entity_name: Option<Seq<char>>,
    ) -> AuditEventView {
        AuditEventView {
            id: (self.audit.len() + 1) as i32,
            timestamp: now,
            kind,
            operation,
            payload,
            entity_id,
            entity_name,
        }
    }

    /// The store after one event was appended to the audit log.
    pub open spec fn log(
        self,
        now: i64,
        kind: Seq<char>,
        operation: Seq<char>,
        payload: Option<PayloadView>,
        entity_id: Option<u128>,
        entity_name: Option<Seq<char>>,
    ) -> StoreView {
        StoreView {
            audit: self.audit.push(
                self.next_event(now, kind, operation, payload, entity_id, entity_name),
            ),
            ..self
        }
    }

    /// In a well-formed store an id names one row only.
    pub proof fn lemma_instance_index(self, id: u128, k: int)
        requires
            self.instances_distinct(),
            0 <= k < self.instances.len(),
            self.instances[k].id == id,
        ensures
            self.has_instance(id),
            self.instance_index(id) == k,
    {
        let c = self.instance_index(id);
        assert(0 <= c < self.instances.len() && self.instances[c].id == id);
        if c < k {
            assert(self.instances[c].id != self.instances[k].id);
        } else if k < c {
            assert(self.instances[k].id != self.instances[c].id);
        }
    }

    /// In a well-formed store a name names one row only.
    pub proof fn lemma_name_index(self, name: Seq<char>, k: int)
        requires
            self.instances_distinct(),
            0 <= k < self.instances.len(),
            self.instances[k].name == name,
        ensures
            self.has_name(name),
            self.name_index(name) == k,
    {
        let c = self.name_index(name);
        assert(0 <= c < self.instances.len() && self.instances[c].name == name);
        if c < k {
            assert(self.instances[c].name != self.instances[k].name);
        } else if k < c {
            assert(self.instances[k].name != self.instances[c].name);
        }
    }

    /// In a well-formed catalog a name names one row only.
    pub proof fn lemma_distro_index(self, name: Seq<char>, k: int)
        requires
            self.distros_distinct(),
            0 <= k < self.distros.len(),
            self.distros[k].name == name,
        ensures
            self.has_distro(name),
            self.distro_index(name) == k,
    {
        let c = self.distro_index(name);
        assert(0 <= c < self.distros.len() && self.distros[c].name == name);
        if c < k {
            assert(self.distros[c].name != self.distros[k].name);
        } else if k < c {
            assert(self.distros[k].name != self.distros[c].name);
        }
    }

    /// Adding an instance whose id and name are new keeps the store
    /// well-formed.
    pub proof fn lemma_insert_wf(self, instance: InstanceView, user_data: Seq<char>)
        requires
            self.wf(),
            !self.has_instance(instance.id),
            !self.has_name(instance.name),
        ensures
            self.insert_instance(instance, user_data).wf(),
    {
        let next = self.insert_instance(instance, user_data);
        assert forall|i: int, j: int| 0 <= i < j < next.instances.len() implies (
        #[trigger] next.instances[i]).id != (#[trigger] next.instances[j]).id
            && next.instances[i].name != next.instances[j].name by {
            if j == self.instances.len() {
                assert(self.instances[i].id != instance.id);
                assert(self.instances[i].name != instance.name);
            } else {
                assert(self.instances[i].id != self.instances[j].id);
            }
        }
        assert forall|i: int| 0 <= i < next.seeds.len() implies (#[trigger] next.seeds[i]).id
            == next.instances[i].id by {
            if i < self.seeds.len() {
                assert(self.seeds[i].id == self.instances[i].id);
            }
        }
    }

    /// A change of status keeps the store well-formed.
    pub proof fn lemma_set_status_wf(self, k: int, status: Seq<char>)
        requires
            self.wf(),
            0 <= k < self.instances.len(),
        ensures
            self.set_status(k, status).wf(),
    {
        let next = self.set_status(k, status);
        assert forall|i: int, j: int| 0 <= i < j < next.instances.len() implies (
        #[trigger] next.instances[i]).id != (#[trigger] next.instances[j]).id
            && next.instances[i].name != next.instances[j].name by {
            assert(self.instances[i].id != self.instances[j].id);
        }
        assert forall|i: int| 0 <= i < next.seeds.len() implies (#[trigger] next.seeds[i]).id
            == next.instances[i].id by {
            assert(self.seeds[i].id == self.instances[i].id);
        }
    }

    /// Removing a row keeps the store well-formed.
    pub proof fn lemma_remove_instance_wf(self, k: int)
        requires
            self.wf(),
            0 <= k < self.instances.len(),
        ensures
            self.remove_instance(k).wf(),
            !self.remove_instance(k).has_instance(self.instances[k].id),
    {
        let next = self.remove_instance(k);
        assert forall|i: int, j: int| 0 <= i < j < next.instances.len() implies (
        #[trigger] next.instances[i]).id != (#[trigger] next.instances[j]).id
            && next.instances[i].name != next.instances[j].name by {
            let oi = if i < k {
                i
            } else {
                i + 1
            };
            let oj = if j < k {
                j
            } else {
                j + 1
            };
            assert(self.instances[oi].id != self.instances[oj].id);
        }
        assert forall|i: int| 0 <= i < next.seeds.len() implies (#[trigger] next.seeds[i]).id
            == next.instances[i].id by {
            let oi = if i < k {
                i
            } else {
                i + 1
            };
            assert(self.seeds[oi].id == self.instances[oi].id);
        }
        if next.has_instance(self.instances[k].id) {
            let c = next.instance_index(self.instances[k].id);
            let oc = if c < k {
                c
            } else {
                c + 1
            };
            assert(next.instances[c] == self.instances[oc]);
            if oc < k {
                assert(self.instances[oc].id != self.instances[k].id);
            } else {
                assert(self.instances[k].id != self.instances[oc].id);
            }
        }
    }

    /// Writing a distro keeps the store well-formed and leaves exactly one
    /// row of its name, which holds what was written.
    pub proof fn lemma_put_distro_wf(self, distro: DistroView)
        requires
            self.wf(),
        ensures
            self.put_distro(distro).wf(),
            self.put_distro(distro).has_distro(distro.name),
            self.put_distro(distro).distro(distro.name) == distro,
    {
        let next = self.put_distro(distro);
        if self.has_distro(distro.name) {
            let k = self.distro_index(distro.name);
            assert forall|i: int, j: int| 0 <= i < j < next.distros.len() implies (
            #[trigger] next.distros[i]).name != (#[trigger] next.distros[j]).name by {
                assert(self.distros[i].name != self.distros[j].name);
            }
            assert(next.distros[k] == distro);
            next.lemma_distro_index(distro.name, k);
        } else {
            let k = self.distros.len() as int;
            assert forall|i: int, j: int| 0 <= i < j < next.distros.len() implies (
            #[trigger] next.distros[i]).name != (#[trigger] next.distros[j]).name by {
                if j == k {
                    assert(self.distros[i].name != distro.name);
                } else {
                    assert(self.distros[i].name != self.distros[j].name);
                }
            }
            assert(next.distros[k] == distro);
            next.lemma_distro_index(distro.name, k);
        }
    }

    /// Removing a distro keeps the store well-formed and leaves no row of
    /// its name.
    pub proof fn lemma_remove_distro_wf(self, k: int)
        requires
            self.wf(),
            0 <= k < self.distros.len(),
        ensures
            self.remove_distro(k).wf(),
            !self.remove_distro(k).has_distro(self.distros[k].name),
    {
        let next = self.remove_distro(k);
        assert forall|i: int, j: int| 0 <= i < j < next.distros.len() implies (
        #[trigger] next.distros[i]).name != (#[trigger] next.distros[j]).name by {
            let oi = if i < k {
                i
            } else {
                i + 1
            };
            let oj = if j < k {
                j
            } else {
                j + 1
            };
            assert(self.distros[oi].name != self.distros[oj].name);
        }
        if next.has_distro(self.distros[k].name) {
            let c = next.distro_index(self.distros[k].name);
            let oc = if c < k {
                c
            } else {
                c + 1
            };
            assert(next.distros[c] == self.distros[oc]);
            if oc < k {
                assert(self.distros[oc].name != self.distros[k].name);
            } else {
                assert(self.distros[k].name != self.distros[oc].name);
            }
        }
    }

    /// Appending an event keeps the store well-formed.
    pub proof fn lemma_log_wf(
        self,
        now: i64,
        kind: Seq<char>,
        operation: Seq<char>,
        payload: Option<PayloadView>,
        entity_id: Option<u128>,
        entity_name: Option<Seq<char>>,
    )
        requires
            self.wf(),
            self.has_room(),
        ensures
            self.log(now, kind, operation, payload, entity_id, entity_name).wf(),
    {
        let next = self.log(now, kind, operation, payload, entity_id, entity_name);
        assert forall|i: int| 0 <= i < next.audit.len() implies (#[trigger] next.audit[i]).id == i
            + 1 by {
            if i < self.audit.len() {
                assert(self.audit[i].id == i + 1);
            }
        }
    }
}

/// The views of a table of instances.
pub open spec fn instance_views(rows: Seq<Instance>) -> Seq<InstanceView> {
    rows.map_values(|r: Instance| r@)
}

/// The views of a table of seeds.
pub open spec fn seed_views(rows: Seq<CloudconfigSeed>) -> Seq<CloudconfigSeedView> {
    rows.map_values(|r: CloudconfigSeed| r@)
}

/// The views of a table of distros.
pub open spec fn distro_views(rows: Seq<Distro>) -> Seq<DistroView> {
    rows.map_values(|r: Distro| r@)
}

/// The views of a table of audit events.
pub open spec fn audit_views(rows: Seq<AuditEvent>) -> Seq<AuditEventView> {
    rows.map_values(|r: AuditEvent| r@)
}

fn check_instances(rows: &Vec<Instance>) -> (out: bool)
    ensures
        out == distinct_instances(instance_views(rows@)),
{
    let ghost views = instance_views(rows@);
    let mut j: usize = 0;
    while j < rows.len()
        invariant
            j <= rows.len(),
            views == instance_views(rows@),
            forall|a: int, b: int|
                0 <= a < b < j ==> (#[trigger] views[a]).id != (#[trigger] views[b]).id
                    && views[a].name != views[b].name,
        decreases rows.len() - j,
    {
        let mut i: usize = 0;
        while i < j
            invariant
                i <= j,
                j < rows.len(),
                views == instance_views(rows@),
                forall|a: int|
                    0 <= a < i ==> (#[trigger] views[a]).id != views[j as int].id && views[a].name
                        != views[j as int].name,
            decreases j - i,
        {
            if rows[i].id == rows[j].id || rows[i].name == rows[j].name {
                assert(views[i as int].id == views[j as int].id || views[i as int].name
                    == views[j as int].name);
                return false;
            }
            i += 1;
        }
        j += 1;
    }
    true
}

fn check_seeds(rows: &Vec<Instance>, seeds: &Vec<CloudconfigSeed>) -> (out: bool)
    ensures
        out == matching_seeds(instance_views(rows@), seed_views(seeds@)),
{
    if seeds.len() != rows.len() {
        return false;
    }
    let mut i: usize = 0;
    while i < seeds.len()
        invariant
            i <= seeds.len(),
            seeds.len() == rows.len(),
            forall|a: int|
                0 <= a < i ==> (#[trigger] seed_views(seeds@)[a]).id == instance_views(
                    rows@,
                )[a].id,
        decreases seeds.len() - i,
    {
        if seeds[i].id != rows[i].id {
            assert(seed_views(seeds@)[i as int].id != instance_views(rows@)[i as int].id);
            return false;
        }
        i += 1;
    }
    true
}

fn check_distros(rows: &Vec<Distro>) -> (out: bool)
    ensures
        out == distinct_distros(distro_views(rows@)),
{
    let ghost views = distro_views(rows@);
    let mut j: usize = 0;
    while j < rows.len()
        invariant
            j <= rows.len(),
            views == distro_views(rows@),
            forall|a: int, b: int|
                0 <= a < b < j ==> (#[trigger] views[a]).name != (#[trigger] views[b]).name,
        decreases rows.len() - j,
    {
        let mut i: usize = 0;
        while i < j
            invariant
                i <= j,
                j < rows.len(),
                views == distro_views(rows@),
                forall|a: int| 0 <= a < i ==> (#[trigger] views[a]).name != views[j as int].name,
            decreases j - i,
        {
            if rows[i].name == rows[j].name {
                assert(views[i as int].name == views[j as int].name);
                return false;
            }
            i += 1;
        }
        j += 1;
    }
    true
}

fn check_audit(log: &Vec<AuditEvent>) -> (out: bool)
    ensures
        out == numbered(audit_views(log@)),
{
    if log.len() > 0x7fff_ffff {
        return false;
    }
    let mut i: usize = 0;
    while i < log.len()
        invariant
            i <= log.len(),
            log.len() <= 0x7fff_ffff,
            forall|a: int| 0 <= a < i ==> (#[trigger] audit_views(log@)[a]).id == a + 1,
        decreases log.len() - i,
    {
        if log[i].id != (i + 1) as i32 {
            assert(audit_views(log@)[i as int].id != i + 1);
            return false;
        }
        i += 1;
    }
    true
}

/// The store. Its rows change only through the operations of this crate.
pub struct Store {
    instances: Vec<Instance>,
    seeds: Vec<CloudconfigSeed>,
    distros: Vec<Distro>,
    audit: Vec<AuditEvent>,
}

impl View for Store {
    type V = StoreView;

    closed spec fn view(&self) -> StoreView {
        StoreView {
            instances: instance_views(self.instances@),
            seeds: seed_views(self.seeds@),
            distros: distro_views(self.distros@),
            audit: audit_views(self.audit@),
        }
    }
}

impl Store {
    /// The invariant of the store.
    pub open spec fn wf(&self) -> bool {
        self@.wf()
    }

    /// A store with no rows.
    pub fn new() -> (out: Store)
        ensures
            out@ == StoreView::empty(),
            out.wf(),
    {
        let out = Store {
            instances: Vec::new(),
            seeds: Vec::new(),
            distros: Vec::new(),
            audit: Vec::new(),
        };
        assert(out@.instances =~= Seq::empty());
        assert(out@.seeds =~= Seq::empty());
        assert(out@.distros =~= Seq::empty());
        assert(out@.audit =~= Seq::empty());
        out
    }

    /// Makes a store of rows that were kept elsewhere, if they are the rows
    /// of a well-formed store: instances with distinct ids and names, one
    /// seed for each instance in the same order, distros with distinct
    /// names, and audit events numbered from 1.
    pub fn from_rows(
        instances: Vec<Instance>,
        seeds: Vec<CloudconfigSeed>,
        distros: Vec<Distro>,
        audit: Vec<AuditEvent>,
    ) -> (out: Option<Store>)
        ensures
            ({
                let rows = StoreView {
                    instances: instance_views(instances@),
                    seeds: seed_views(seeds@),
                    distros: distro_views(distros@),
                    audit: audit_views(audit@),
                };
                match out {
                    Some(store) => rows.wf() && store@ == rows,
                    None => !rows.wf(),
                }
            }),
    {
        if check_instances(&instances) && check_seeds(&instances, &seeds) && check_distros(
            &distros,
        ) && check_audit(&audit) {
            Some(Store { instances, seeds, distros, audit })
        } else {
            None
        }
    }

    /// Whether the store is well-formed.
    pub fn is_wf(&self) -> (out: bool)
        ensures
            out == self.wf(),
    {
        check_instances(&self.instances) && check_seeds(&self.instances, &self.seeds)
            && check_distros(&self.distros) && check_audit(&self.audit)
    }

    /// The rows of the instance table.
    pub fn instances(&self) -> (out: &Vec<Instance>)
        ensures
            instance_views(out@) == self@.instances,
    {
        &self.instances
    }

    /// The rows of the seed table.
    pub fn seeds(&self) -> (out: &Vec<CloudconfigSeed>)
        ensures
            seed_views(out@) == self@.seeds,
    {
        &self.seeds
    }

    /// The rows of the catalog.
    pub fn distros(&self) -> (out: &Vec<Distro>)
        ensures
            distro_views(out@) == self@.distros,
    {
        &self.distros
    }

    /// The audit log, oldest event first.
    pub fn audit_log(&self) -> (out: &Vec<AuditEvent>)
        ensures
            audit_views(out@) == self@.audit,
    {
        &self.audit
    }

    /// The row of the instance with this id, if there is one.
    pub fn find_instance(&self, id: u128) -> (out: Option<usize>)
        requires
            self.wf(),
        ensures
            out is Some <==> self@.has_instance(id),
            out is Some ==> out->0 == self@.instance_index(id) && out->0 < self@.instances.len(),
    {
        let mut k: usize = 0;
        while k < self.instances.len()
            invariant
                k <= self.instances.len(),
                self.wf(),
                forall|j: int| 0 <= j < k ==> (#[trigger] self@.instances[j]).id != id,
            decreases self.instances.len() - k,
        {
            if self.instances[k].id == id {
                proof {
                    assert(self@.instances[k as int].id == id);
                    self@.lemma_instance_index(id, k as int);
                }
                return Some(k);
            }
            k += 1;
        }
        None
    }

    /// The row of the instance with this name, if there is one.
    pub fn find_instance_by_name(&self, name: &String) -> (out: Option<usize>)
        requires
            self.wf(),
        ensures
            out is Some <==> self@.has_name(name@),
            out is Some ==> out->0 == self@.name_index(name@) && out->0 < self@.instances.len(),
    {
        let mut k: usize = 0;
        while k < self.instances.len()
            invariant
                k <= self.instances.len(),
                self.wf(),
                forall|j: int| 0 <= j < k ==> (#[trigger] self@.instances[j]).name != name@,
            decreases self.instances.len() - k,
        {
            if self.instances[k].name == *name {
                proof {
                    assert(self@.instances[k as int].name == name@);
                    self@.lemma_name_index(name@, k as int);
                }
                return Some(k);
            }
            k += 1;
        }
        None
    }

    /// The instance in row `k`.
    pub fn instance_at(&self, k: usize) -> (out: &Instance)
        requires
            k < self@.instances.len(),
        ensures
            out@ == self@.instances[k as int],
    {
        &self.instances[k]
    }

    /// The seed in row `k`.
    pub fn seed_at(&self, k: usize) -> (out: &CloudconfigSeed)
        requires
            k < self@.seeds.len(),
        ensures
            out@ == self@.seeds[k as int],
    {
        &self.seeds[k]
    }

    /// The row of the distro of this name, if there is one.
    pub fn find_distro(&self, name: &String) -> (out: Option<usize>)
        requires
            self.wf(),
        ensures
            out is Some <==> self@.has_distro(name@),
            out is Some ==> out->0 == self@.distro_index(name@) && out->0 < self@.distros.len(),
    {
        let mut k: usize = 0;
        while k < self.distros.len()
            invariant
                k <= self.distros.len(),
                self.wf(),
                forall|j: int| 0 <= j < k ==> (#[trigger] self@.distros[j]).name != name@,
            decreases self.distros.len() - k,
        {
            if self.distros[k].name == *name {
                proof {
                    assert(self@.distros[k as int].name == name@);
                    self@.lemma_distro_index(name@, k as int);
                }
                return Some(k);
            }
            k += 1;
        }
        None
    }

    /// The distro in row `k`.
    pub fn distro_at(&self, k: usize) -> (out: &Distro)
        requires
            k < self@.distros.len(),
        ensures
            out@ == self@.distros[k as int],
    {
        &self.distros[k]
    }

    /// Whether the audit log can take one more event.
    pub fn has_room(&self) -> (out: bool)
        ensures
            out == self@.has_room(),
    {
        self.audit.len() < 0x7fff_ffff
    }

    /// Adds an instance and its seed.
    pub(crate) fn insert_instance(&mut self, instance: Instance, user_data: String)
        requires
            old(self).wf(),
            !old(self)@.has_instance(instance.id),
            !old(self)@.has_name(instance.name@),
        ensures
            final(self)@ == old(self)@.insert_instance(instance@, user_data@),
            final(self).wf(),
    {
        let seed = CloudconfigSeed { id: instance.id, user_data };
        proof {
            old(self)@.lemma_insert_wf(instance@, user_data@);
        }
        self.instances.push(instance);
        self.seeds.push(seed);
        assert(self@.instances =~= old(self)@.instances.push(instance@));
        assert(self@.seeds =~= old(self)@.seeds.push(seed@));
    }

    /// Changes the status of the instance in row `k`.
    pub(crate) fn set_status(&mut self, k: usize, status: String)
        requires
            old(self).wf(),
            k < old(self)@.instances.len(),
        ensures
            final(self)@ == old(self)@.set_status(k as int, status@),
            final(self).wf(),
    {
        proof {
            old(self)@.lemma_set_status_wf(k as int, status@);
        }
        let mut row = self.instances[k].duplicate();
        row.status = status;
        self.instances.set(k, row);
        assert(self@.instances =~= old(self)@.instances.update(
            k as int,
            old(self)@.instances[k as int].with_status(status@),
        ));
    }

    /// Removes the instance in row `k` and its seed.
    pub(crate) fn remove_instance(&mut self, k: usize) -> (out: Instance)
        requires
            old(self).wf(),
            k < old(self)@.instances.len(),
        ensures
            final(self)@ == old(self)@.remove_instance(k as int),
            final(self).wf(),
            out@ == old(self)@.instances[k as int],
    {
        proof {
            old(self)@.lemma_remove_instance_wf(k as int);
        }
        let out = self.instances.remove(k);
        let _ = self.seeds.remove(k);
        assert(self@.instances =~= old(self)@.instances.remove(k as int));
        assert(self@.seeds =~= old(self)@.seeds.remove(k as int));
        out
    }

    /// Writes a distro: over the row of its name, or as a new row.
    pub(crate) fn put_distro(&mut self, distro: Distro)
        requires
            old(self).wf(),
        ensures
            final(self)@ == old(self)@.put_distro(distro@),
            final(self).wf(),
    {
        proof {
            old(self)@.lemma_put_distro_wf(distro@);
        }
        match self.find_distro(&distro.name) {
            Some(k) => {
                self.distros.set(k, distro);
                assert(self@.distros =~= old(self)@.distros.update(k as int, distro@));
            },
            None => {
                self.distros.push(distro);
                assert(self@.distros =~= old(self)@.distros.push(distro@));
            },
        }
    }

    /// Removes the distro in row `k`.
    pub(crate) fn remove_distro(&mut self, k: usize) -> (out: Distro)
        requires
            old(self).wf(),
            k < old(self)@.distros.len(),
        ensures
            final(self)@ == old(self)@.remove_distro(k as int),
            final(self).wf(),
            out@ == old(self)@.distros[k as int],
    {
        proof {
            old(self)@.lemma_remove_distro_wf(k as int);
        }
        let out = self.distros.remove(k);
        assert(self@.distros =~= old(self)@.distros.remove(k as int));
        out
    }

    /// Appends one event to the audit log.
    pub(crate) fn log(
        &mut self,
        now: i64,
        kind: String,
        operation: String,
        payload: Option<Payload>,
        entity_id: Option<u128>,
        entity_name: Option<String>,
    )
        requires
            old(self).wf(),
            old(self)@.has_room(),
        ensures
            final(self)@ == old(self)@.log(
                now,
                kind@,
                operation@,
                opt_payload(payload),
                entity_id,
                opt_text(entity_name),
            ),
            final(self).wf(),
    {
        proof {
            old(self)@.lemma_log_wf(
                now,
                kind@,
                operation@,
                opt_payload(payload),
                entity_id,
                opt_text(entity_name),
            );
        }
        let id: i32 = (self.audit.len() + 1) as i32;
        let event = AuditEvent {
            id,
            timestamp: now,
            kind,
            operation,
            payload,
            entity_id,
            entity_name,
        };
        self.audit.push(event);
        assert(self@.audit =~= old(self)@.audit.push(event@));
    }
}

impl Instance {
    /// The instance with this name.
    pub fn from_name(store: &Store, name: &String) -> (out: Result<Instance, Error>)
        requires
            store.wf(),
        ensures
            store@.has_name(name@) ==> out is Ok && out->Ok_0@
                == store@.instances[store@.name_index(name@)],
            !store@.has_name(name@) ==> out is Err && out->Err_0@
                == ErrorView::InstanceNotFound(name@),
    {
        match store.find_instance_by_name(name) {
            Some(k) => Ok(store.instance_at(k).duplicate()),
            None => Err(Error::InstanceNotFound(name.clone())),
        }
    }

    /// The instance with this id.
    pub fn from_uuid(store: &Store, id: u128) -> (out: Result<Instance, Error>)
        requires
            store.wf(),
        ensures
            store@.has_instance(id) ==> out is Ok && out->Ok_0@ == store@.instance(id),
            !store@.has_instance(id) ==> out is Err && out->Err_0@
                == ErrorView::InstanceNotFound(id_text(id)),
    {
        match store.find_instance(id) {
            Some(k) => Ok(store.instance_at(k).duplicate()),
            None => Err(Error::InstanceNotFound(id_string(id))),
        }
    }
}

impl Distro {
    /// The distro of this name.
    pub fn from_name(store: &Store, name: &String) -> (out: Result<Distro, Error>)
        requires
            store.wf(),
        ensures
            store@.has_distro(name@) ==> out is Ok && out->Ok_0@ == store@.distro(name@),
            !store@.has_distro(name@) ==> out is Err && out->Err_0@
                == ErrorView::DistroNotFound(name@),
    {
        match store.find_distro(name) {
            Some(k) => Ok(store.distro_at(k).duplicate()),
            None => Err(Error::DistroNotFound(name.clone())),
        }
    }
}

} // verus!

//! The live state of the fleet, as the hypervisors report it.

use crate::error::{Error, ErrorView};
use crate::namegen::texts;
use crate::models::opt_text;
use vstd::prelude::*;

verus! {

/// What a hypervisor reports of one domain. The addresses are those of
/// the domain's network leases, interface by interface; they are read
/// only while the domain is active.
#[derive(Clone, Debug)]
pub struct Domain {
    pub name: String,
    /// The name of the host that runs the hypervisor.
    pub host: String,
    pub active: bool,
    pub uuid: String,
    pub interfaces: Vec<Vec<String>>,
    /// The most memory the domain may use, in kilobytes.
    pub max_memory: u64,
    pub cpus: u32,
}

/// What a `Domain` holds, with its texts as sequences of characters.
pub struct DomainView {
    pub name: Seq<char>,
    pub host: Seq<char>,
    pub active: bool,
    pub uuid: Seq<char>,
    pub interfaces: Seq<Seq<Seq<char>>>,
    pub max_memory: u64,
    pub cpus: u32,
}

/// The views of the addresses of a list of interfaces.
pub open spec fn interface_views(list: Seq<Vec<String>>) -> Seq<Seq<Seq<char>>> {
    list.map_values(|addrs: Vec<String>| texts(addrs@))
}

impl View for Domain {
    type V = DomainView;

    open spec fn view(&self) -> DomainView {
        DomainView {
            name: self.name@,
            host: self.host@,
            active: self.active,
            uuid: self.uuid@,
            interfaces: interface_views(self.interfaces@),
            max_memory: self.max_memory,
            cpus: self.cpus,
        }
    }
}

/// A machine as the fleet inventory shows it.
#[derive(Clone, Debug)]
pub struct Machine {
    pub name: String,
    pub host: String,
    pub active: bool,
    pub uuid: String,
    pub addr: Option<String>,
    pub memory_megs: u64,
    pub cpus: u32,
}

/// What a `Machine` holds, with its texts as sequences of characters.
pub struct MachineView {
    pub name: Seq<char>,
    pub host: Seq<char>,
    pub active: bool,
    pub uuid: Seq<char>,
    pub addr: Option<Seq<char>>,
    pub memory_megs: u64,
    pub cpus: u32,
}

impl View for Machine {
    type V = MachineView;

    open spec fn view(&self) -> MachineView {
        MachineView {
            name: self.name@,
            host: self.host@,
            active: self.active,
            uuid: self.uuid@,
            addr: opt_text(self.addr),
            memory_megs: self.memory_megs,
            cpus: self.cpus,
        }
    }
}

/// The first address of the first interface that has one.
pub open spec fn first_address(interfaces: Seq<Seq<Seq<char>>>) -> Option<Seq<char>>
    decreases interfaces.len(),
{
    if interfaces.len() == 0 {
        None
    } else if interfaces[0].len() > 0 {
        Some(interfaces[0][0])
    } else {
        first_address(interfaces.drop_first())
    }
}

/// The machine that a domain is shown as: an inactive domain has no
/// address, and the memory is given in megabytes.
pub open spec fn machine_of(d: DomainView) -> MachineView {
    MachineView {
        name: d.name,
        host: d.host,
        active: d.active,
        uuid: d.uuid,
        addr: if d.active {
            first_address(d.interfaces)
        } else {
            None
        },
        memory_megs: d.max_memory / 1024,
        cpus: d.cpus,
    }
}

/// The views of a list of domains.
pub open spec fn domain_views(list: Seq<Domain>) -> Seq<DomainView> {
    list.map_values(|d: Domain| d@)
}

/// The views of a list of machines.
pub open spec fn machine_views(list: Seq<Machine>) -> Seq<MachineView> {
    list.map_values(|m: Machine| m@)
}

/// The machines that a list of domains is shown as.
pub open spec fn machines_of(list: Seq<DomainView>) -> Seq<MachineView> {
    list.map_values(|d: DomainView| machine_of(d))
}

fn address(interfaces: &Vec<Vec<String>>) -> (out: Option<String>)
    ensures
        opt_text(out) == first_address(interface_views(interfaces@)),
{
    let ghost all = interface_views(interfaces@);
    let mut k: usize = 0;
    assert(all.skip(0) =~= all);
    while k < interfaces.len()
        invariant
            k <= interfaces.len(),
            all == interface_views(interfaces@),
            first_address(all) == first_address(all.skip(k as int)),
        decreases interfaces.len() - k,
    {
        let ghost rest = all.skip(k as int);
        assert(rest[0] == texts(interfaces[k as int]@));
        assert(rest.drop_first() =~= all.skip(k as int + 1));
        if interfaces[k].len() > 0 {
            return Some(interfaces[k][0].clone());
        }
        k += 1;
    }
    assert(all.skip(k as int).len() == 0);
    None
}

impl Machine {
    /// The machine that a domain is shown as.
    pub fn from_domain(dom: &Domain) -> (out: Machine)
        ensures
            out@ == machine_of(dom@),
    {
        let addr = if dom.active {
            address(&dom.interfaces)
        } else {
            None
        };
        Machine {
            name: dom.name.clone(),
            host: dom.host.clone(),
            active: dom.active,
            uuid: dom.uuid.clone(),
            addr,
            memory_megs: dom.max_memory / 1024,
            cpus: dom.cpus,
        }
    }
}

/// The machines of one host, in the order in which its hypervisor lists
/// its domains.
pub fn list_all_vms(domains: &Vec<Domain>) -> (out: Vec<Machine>)
    ensures
        machine_views(out@) == machines_of(domain_views(domains@)),
{
    let mut out: Vec<Machine> = Vec::new();
    let mut k: usize = 0;
    while k < domains.len()
        invariant
            k <= domains.len(),
            out.len() == k,
            forall|j: int| 0 <= j < k ==> (#[trigger] out[j])@ == machine_of(domains[j]@),
        decreases domains.len() - k,
    {
        out.push(Machine::from_domain(&domains[k]));
        k += 1;
    }
    assert(machine_views(out@) =~= machines_of(domain_views(domains@)));
    out
}

/// What the hypervisor of one host answered when asked for its domains:
/// the domains, or its message where it failed.
pub open spec fn answer_view(answer: Result<Vec<Domain>, String>) -> Result<
    Seq<DomainView>,
    Seq<char>,
> {
    match answer {
        Ok(list) => Ok(domain_views(list@)),
        Err(m) => Err(m@),
    }
}

/// The views of the answers of a list of hosts.
pub open spec fn answer_views(list: Seq<Result<Vec<Domain>, String>>) -> Seq<
    Result<Seq<DomainView>, Seq<char>>,
> {
    list.map_values(|a: Result<Vec<Domain>, String>| answer_view(a))
}

/// The inventory of a fleet: the machines of every host, host by host.
/// The first host that failed makes the whole inventory fail.
pub open spec fn fleet_of(answers: Seq<Result<Seq<DomainView>, Seq<char>>>) -> Result<
    Seq<MachineView>,
    ErrorView,
>
    decreases answers.len(),
{
    if answers.len() == 0 {
        Ok(Seq::empty())
    } else {
        match fleet_of(answers.drop_last()) {
            Err(e) => Err(e),
            Ok(machines) => match answers.last() {
                Err(m) => Err(ErrorView::Libvirt(m)),
                Ok(domains) => Ok(machines + machines_of(domains)),
            },
        }
    }
}

/// The inventory of the fleet, from the answers of its hosts.
pub fn get_machines(answers: &Vec<Result<Vec<Domain>, String>>) -> (out: Result<
    Vec<Machine>,
    Error,
>)
    ensures
        match fleet_of(answer_views(answers@)) {
            Ok(machines) => out is Ok && machine_views(out->Ok_0@) == machines,
            Err(e) => out is Err && out->Err_0@ == e,
        },
{
    let ghost all = answer_views(answers@);
    let mut out: Vec<Machine> = Vec::new();
    let mut k: usize = 0;
    assert(all.take(0) =~= Seq::empty());
    assert(machine_views(out@) =~= Seq::empty());
    while k < answers.len()
        invariant
            k <= answers.len(),
            all == answer_views(answers@),
            fleet_of(all.take(k as int)) == Ok::<Seq<MachineView>, ErrorView>(
                machine_views(out@),
            ),
        decreases answers.len() - k,
    {
        let ghost before = all.take(k as int);
        let ghost after = all.take(k as int + 1);
        let ghost so_far = machine_views(out@);
        assert(after.drop_last() =~= before);
        assert(after.last() == answer_view(answers[k as int]));
        match &answers[k] {
            Err(m) => {
                proof {
                    lemma_fleet_fails(all, k as int + 1);
                }
                return Err(Error::Libvirt(m.clone()));
            },
            Ok(domains) => {
                let mut machines = list_all_vms(domains);
                let ghost added = machine_views(machines@);
                out.append(&mut machines);
                assert(machine_views(out@) =~= so_far + added);
            },
        }
        k += 1;
    }
    assert(all.take(k as int) =~= all);
    Ok(out)
}

/// Once the hosts up to some point make the inventory fail, the whole
/// fleet fails in the same way.
pub proof fn lemma_fleet_fails(answers: Seq<Result<Seq<DomainView>, Seq<char>>>, k: int)
    requires
        0 <= k <= answers.len(),
        fleet_of(answers.take(k)) is Err,
    ensures
        fleet_of(answers) == fleet_of(answers.take(k)),
    decreases answers.len(),
{
    if k == answers.len() {
        assert(answers.take(k) =~= answers);
    } else {
        assert(answers.drop_last().take(k) =~= answers.take(k));
        lemma_fleet_fails(answers.drop_last(), k);
    }
}

} // verus!

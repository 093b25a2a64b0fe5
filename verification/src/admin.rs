//! What the administration pages say: their titles and the summary of
//! the store on the home page.

use crate::models::{opt_text, InstanceView};
use crate::store::{instance_views, Store};
use crate::text::{int_text, join2, nat_string, nat_text, wide_int_string};
use vstd::prelude::*;
use vstd::string::*;

verus! {

/// The heading of a page: its title, or the name of the service where it
/// has none.
pub open spec fn heading_of(title: Option<Seq<char>>) -> Seq<char> {
    match title {
        Some(t) => t,
        None => "waifud"@,
    }
}

/// The title of the window of a page: its title followed by the name of
/// the service, or that name alone.
pub open spec fn window_title_of(title: Option<Seq<char>>) -> Seq<char> {
    match title {
        Some(t) => t + " - waifud"@,
        None => "waifud"@,
    }
}

/// The heading of a page and the title of its window.
pub fn titles(title: &Option<String>) -> (out: (String, String))
    ensures
        out.0@ == heading_of(opt_text(*title)),
        out.1@ == window_title_of(opt_text(*title)),
{
    match title {
        Some(t) => (t.clone(), join2(t.as_str(), " - waifud")),
        None => (String::from_str("waifud"), String::from_str("waifud")),
    }
}

/// The memory of all instances of a list together, in megabytes.
pub open spec fn total_memory(rows: Seq<InstanceView>) -> int
    decreases rows.len(),
{
    if rows.len() == 0 {
        0
    } else {
        total_memory(rows.drop_last()) + rows.last().memory_mb
    }
}

/// The total memory of a list of instances is within the bounds that the
/// length of the list gives.
pub proof fn lemma_total_memory_bounds(rows: Seq<InstanceView>)
    ensures
        -0x8000_0000 * rows.len() <= total_memory(rows) <= 0x7fff_ffff * rows.len(),
    decreases rows.len(),
{
    if rows.len() > 0 {
        lemma_total_memory_bounds(rows.drop_last());
    }
}

/// How much the store holds.
#[derive(Clone, Copy, Debug)]
pub struct Summary {
    pub distros: usize,
    pub instances: usize,
    /// The memory of all instances together, in megabytes.
    pub memory_mb: i128,
}

/// The summary of a store.
pub fn summary(store: &Store) -> (out: Summary)
    ensures
        out.distros == store@.distros.len(),
        out.instances == store@.instances.len(),
        out.memory_mb == total_memory(store@.instances),
{
    let rows = store.instances();
    let catalog = store.distros();
    let ghost all = instance_views(rows@);
    assert(crate::store::distro_views(catalog@).len() == catalog@.len());
    assert(all.len() == rows@.len());
    let mut total: i128 = 0;
    let mut k: usize = 0;
    assert(all.take(0) =~= Seq::empty());
    while k < rows.len()
        invariant
            k <= rows.len(),
            all == instance_views(rows@),
            total == total_memory(all.take(k as int)),
        decreases rows.len() - k,
    {
        proof {
            assert(all.take(k as int + 1).drop_last() =~= all.take(k as int));
            assert(all.take(k as int + 1).last() == rows[k as int]@);
            lemma_total_memory_bounds(all.take(k as int));
            assert(all.take(k as int).len() == k);
            assert(0x7fff_ffff * k <= 0x7fff_ffff * 0xffff_ffff_ffff_ffff) by (nonlinear_arith)
                requires
                    0 <= k <= 0xffff_ffff_ffff_ffff,
            ;
            assert(-0x8000_0000 * k >= -0x8000_0000 * 0xffff_ffff_ffff_ffff) by (nonlinear_arith)
                requires
                    0 <= k <= 0xffff_ffff_ffff_ffff,
            ;
        }
        total = total + rows[k].memory_mb as i128;
        k += 1;
    }
    assert(all.take(k as int) =~= all);
    Summary { distros: catalog.len(), instances: rows.len(), memory_mb: total }
}

/// The ending of a noun for a count: nothing for one, `s` otherwise.
pub open spec fn plural_of(count: int) -> Seq<char> {
    if count == 1 {
        Seq::empty()
    } else {
        "s"@
    }
}

/// The sentence of the home page that greets a user and sums up the
/// store.
pub open spec fn greeting_of(login: Seq<char>, distros: nat, instances: nat, memory: int) -> Seq<
    char,
> {
    "Hello "@ + login + "! I am tracking "@ + nat_text(distros) + " distribution image"@
        + plural_of(distros as int) + ", "@ + nat_text(instances) + " VM instance"@ + plural_of(
        instances as int,
    ) + " that use a total of "@ + int_text(memory) + " megabytes of RAM."@
}

fn plural(count: usize) -> (out: &'static str)
    ensures
        out@ == plural_of(count as int),
{
    proof {
        reveal_strlit("");
        assert(""@ =~= Seq::<char>::empty());
    }
    if count == 1 {
        ""
    } else {
        "s"
    }
}

/// The sentence of the home page that greets a user and sums up the
/// store.
pub fn greeting(login: &String, summary: &Summary) -> (out: String)
    ensures
        out@ == greeting_of(
            login@,
            summary.distros as nat,
            summary.instances as nat,
            summary.memory_mb as int,
        ),
{
    let distros = nat_string(summary.distros as u128);
    let instances = nat_string(summary.instances as u128);
    let memory = wide_int_string(summary.memory_mb);
    let mut out = String::from_str("Hello ");
    out.append(login.as_str());
    out.append("! I am tracking ");
    out.append(distros.as_str());
    out.append(" distribution image");
    out.append(plural(summary.distros));
    out.append(", ");
    out.append(instances.as_str());
    out.append(" VM instance");
    out.append(plural(summary.instances));
    out.append(" that use a total of ");
    out.append(memory.as_str());
    out.append(" megabytes of RAM.");
    out
}

} // verus!

//! The distro catalog: adding, replacing, removing and reading base-image
//! descriptors. Every change is recorded in the audit log.

use crate::api::instances::store_full;
use crate::error::{Error, ErrorView};
use crate::models::{kind_distro, Distro, DistroView, Payload, PayloadView};
use crate::store::{distro_views, Store, StoreView};
use crate::text::{le, lemma_bytes_le_total, lemma_bytes_le_transitive, text_le};
use vstd::prelude::*;
use vstd::seq_lib::{to_multiset_build, to_multiset_insert};
use vstd::utf8::encode_utf8;
use vstd::string::*;

verus! {

/// The format tag that a distro gets when it names none.
pub open spec fn qcow2_tag() -> Seq<char> {
    "waifud://qcow2"@
}

/// A distro as the catalog keeps it: an empty format becomes the qcow2
/// tag.
pub open spec fn normalized(d: DistroView) -> DistroView {
    if d.format.len() == 0 {
        DistroView { format: qcow2_tag(), ..d }
    } else {
        d
    }
}

/// The failure of adding a distro whose name is taken.
pub open spec fn distro_taken() -> ErrorView {
    ErrorView::SQLite("UNIQUE constraint failed: distros.name"@)
}

/// The failure of looking for a distro that is not there.
pub open spec fn no_distro(name: Seq<char>) -> ErrorView {
    ErrorView::DistroNotFound(name)
}

/// The store after a distro was written and the audit log has recorded it
/// under the given operation.
pub open spec fn written(s: StoreView, d: DistroView, operation: Seq<char>, now: i64)
    -> StoreView {
    s.put_distro(d).log(
        now,
        kind_distro(),
        operation,
        Some(PayloadView::Distro(d)),
        None,
        Some(d.name),
    )
}

/// What adding a distro does. A name that the catalog already has is
/// refused.
pub open spec fn create_of(s: StoreView, d: DistroView, now: i64) -> Result<StoreView, ErrorView> {
    if s.has_distro(d.name) {
        Err(distro_taken())
    } else if !s.has_room() {
        Err(store_full())
    } else {
        Ok(written(s, normalized(d), "create"@, now))
    }
}

/// What writing a distro does: it replaces the distro of its name, or is
/// added where the catalog has none of that name.
pub open spec fn update_of(s: StoreView, d: DistroView, now: i64) -> Result<StoreView, ErrorView> {
    if !s.has_room() {
        Err(store_full())
    } else {
        Ok(written(s, normalized(d), "update"@, now))
    }
}

/// What removing a distro does. The audit log keeps the distro as it last
/// stood.
pub open spec fn delete_of(s: StoreView, name: Seq<char>, now: i64) -> Result<
    StoreView,
    ErrorView,
> {
    if !s.has_distro(name) {
        Err(no_distro(name))
    } else if !s.has_room() {
        Err(store_full())
    } else {
        let k = s.distro_index(name);
        let gone = s.distros[k];
        Ok(
            s.remove_distro(k).log(
                now,
                kind_distro(),
                "delete"@,
                Some(PayloadView::Distro(gone)),
                None,
                Some(gone.name),
            ),
        )
    }
}

/// Writing a distro keeps the store well-formed.
pub proof fn lemma_written_wf(s: StoreView, d: DistroView, operation: Seq<char>, now: i64)
    requires
        s.wf(),
        s.has_room(),
    ensures
        written(s, d, operation, now).wf(),
        written(s, d, operation, now).has_distro(d.name),
        written(s, d, operation, now).distro(d.name) == d,
{
    s.lemma_put_distro_wf(d);
    s.put_distro(d).lemma_log_wf(
        now,
        kind_distro(),
        operation,
        Some(PayloadView::Distro(d)),
        None,
        Some(d.name),
    );
}

/// Removing a distro keeps the store well-formed and leaves no distro of
/// that name.
pub proof fn lemma_delete_wf(s: StoreView, name: Seq<char>, now: i64)
    requires
        s.wf(),
    ensures
        delete_of(s, name, now) matches Ok(next) ==> next.wf() && !next.has_distro(name),
{
    if s.has_distro(name) && s.has_room() {
        let k = s.distro_index(name);
        let gone = s.distros[k];
        s.lemma_remove_distro_wf(k);
        s.remove_distro(k).lemma_log_wf(
            now,
            kind_distro(),
            "delete"@,
            Some(PayloadView::Distro(gone)),
            None,
            Some(gone.name),
        );
    }
}

fn normalize(distro: Distro) -> (out: Distro)
    ensures
        out@ == normalized(distro@),
{
    let mut out = distro;
    if out.format.as_str().is_empty() {
        out.format = String::from_str("waifud://qcow2");
    }
    out
}

fn write(store: &mut Store, distro: Distro, operation: &str, now: i64) -> (out: Distro)
    requires
        old(store).wf(),
        old(store)@.has_room(),
    ensures
        final(store).wf(),
        final(store)@ == written(old(store)@, distro@, operation@, now),
        out@ == distro@,
{
    proof {
        lemma_written_wf(old(store)@, distro@, operation@, now);
    }
    let out = distro.duplicate();
    let snapshot = distro.duplicate();
    let name = distro.name.clone();
    store.put_distro(distro);
    store.log(
        now,
        String::from_str("distro"),
        String::from_str(operation),
        Some(Payload::Distro(snapshot)),
        None,
        Some(name),
    );
    out
}

/// Adds a distro to the catalog and hands back what was stored.
pub fn create(store: &mut Store, distro: Distro, now: i64) -> (out: Result<Distro, Error>)
    requires
        old(store).wf(),
    ensures
        final(store).wf(),
        match create_of(old(store)@, distro@, now) {
            Ok(next) => out is Ok && out->Ok_0@ == normalized(distro@) && final(store)@ == next,
            Err(e) => out is Err && out->Err_0@ == e && final(store)@ == old(store)@,
        },
{
    if store.find_distro(&distro.name).is_some() {
        return Err(Error::SQLite(String::from_str("UNIQUE constraint failed: distros.name")));
    }
    if !store.has_room() {
        return Err(Error::SQLite(String::from_str("database or disk is full")));
    }
    Ok(write(store, normalize(distro), "create", now))
}

/// Writes a distro into the catalog, over the one of its name if there is
/// one, and hands back what was stored.
pub fn update(store: &mut Store, distro: Distro, now: i64) -> (out: Result<Distro, Error>)
    requires
        old(store).wf(),
    ensures
        final(store).wf(),
        match update_of(old(store)@, distro@, now) {
            Ok(next) => out is Ok && out->Ok_0@ == normalized(distro@) && final(store)@ == next,
            Err(e) => out is Err && out->Err_0@ == e && final(store)@ == old(store)@,
        },
{
    if !store.has_room() {
        return Err(Error::SQLite(String::from_str("database or disk is full")));
    }
    Ok(write(store, normalize(distro), "update", now))
}

/// Removes the distro of this name from the catalog.
pub fn delete(store: &mut Store, name: &String, now: i64) -> (out: Result<(), Error>)
    requires
        old(store).wf(),
    ensures
        final(store).wf(),
        match delete_of(old(store)@, name@, now) {
            Ok(next) => out is Ok && final(store)@ == next,
            Err(e) => out is Err && out->Err_0@ == e && final(store)@ == old(store)@,
        },
{
    proof {
        lemma_delete_wf(old(store)@, name@, now);
    }
    match store.find_distro(name) {
        None => Err(Error::DistroNotFound(name.clone())),
        Some(k) => {
            if !store.has_room() {
                return Err(Error::SQLite(String::from_str("database or disk is full")));
            }
            let gone = store.remove_distro(k);
            let gone_name = gone.name.clone();
            store.log(
                now,
                String::from_str("distro"),
                String::from_str("delete"),
                Some(Payload::Distro(gone)),
                None,
                Some(gone_name),
            );
            Ok(())
        },
    }
}

/// The distro of this name.
pub fn get(store: &Store, name: &String) -> (out: Result<Distro, Error>)
    requires
        store.wf(),
    ensures
        store@.has_distro(name@) ==> out is Ok && out->Ok_0@ == store@.distro(name@),
        !store@.has_distro(name@) ==> out is Err && out->Err_0@ == no_distro(name@),
{
    Distro::from_name(store, name)
}

/// Whether distros stand in the order of their names.
pub open spec fn sorted_by_name(rows: Seq<DistroView>) -> bool {
    forall|i: int, j: int|
        0 <= i < j < rows.len() ==> text_le((#[trigger] rows[i]).name, (#[trigger] rows[j]).name)
}

/// All distros of the catalog, in the order of their names.
pub fn list(store: &Store) -> (out: Vec<Distro>)
    ensures
        sorted_by_name(distro_views(out@)),
        distro_views(out@).to_multiset() == store@.distros.to_multiset(),
{
    let rows = store.distros();
    let ghost all = distro_views(rows@);
    let mut out: Vec<Distro> = Vec::new();
    let mut k: usize = 0;
    assert(all.take(0) =~= Seq::empty());
    assert(distro_views(out@) =~= Seq::empty());
    while k < rows.len()
        invariant
            k <= rows.len(),
            all == distro_views(rows@),
            sorted_by_name(distro_views(out@)),
            distro_views(out@).to_multiset() == all.take(k as int).to_multiset(),
        decreases rows.len() - k,
    {
        let ghost sorted = distro_views(out@);
        let row = rows[k].duplicate();
        let mut p: usize = 0;
        while p < out.len() && le(out[p].name.as_str(), row.name.as_str())
            invariant
                p <= out.len(),
                sorted == distro_views(out@),
                forall|j: int| 0 <= j < p ==> text_le((#[trigger] sorted[j]).name, row@.name),
            decreases out.len() - p,
        {
            p += 1;
        }
        proof {
            let x = row@;
            let next = sorted.insert(p as int, x);
            assert forall|i: int, j: int| 0 <= i < j < next.len() implies text_le(
                (#[trigger] next[i]).name,
                (#[trigger] next[j]).name,
            ) by {
                if j < p {
                    assert(text_le(sorted[i].name, sorted[j].name));
                } else if j == p {
                    assert(text_le(sorted[i].name, x.name));
                } else if i == p {
                    lemma_bytes_le_total(
                        encode_utf8(sorted[p as int].name),
                        encode_utf8(x.name),
                    );
                    if j - 1 > p {
                        assert(text_le(sorted[p as int].name, sorted[j - 1].name));
                        lemma_bytes_le_transitive(
                            encode_utf8(x.name),
                            encode_utf8(sorted[p as int].name),
                            encode_utf8(sorted[j - 1].name),
                        );
                    }
                } else if i < p {
                    assert(text_le(sorted[i].name, sorted[j - 1].name));
                } else {
                    assert(text_le(sorted[i - 1].name, sorted[j - 1].name));
                }
            }
            to_multiset_insert(sorted, p as int, x);
            assert(all.take(k as int + 1) =~= all.take(k as int).push(x));
            to_multiset_build(all.take(k as int), x);
        }
        out.insert(p, row);
        assert(distro_views(out@) =~= sorted.insert(p as int, row@));
        k += 1;
    }
    assert(all.take(k as int) =~= all);
    out
}

} // verus!

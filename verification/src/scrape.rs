//! Refreshing the catalog from the sites that publish cloud images. The
//! pages are fetched elsewhere; here is what is read out of them.

pub mod amazon_linux;
pub mod arch;
pub mod nixos;
pub mod rocky_linux;
pub mod ubuntu;

use crate::api::instances::store_full;
use crate::error::{Error, ErrorView};
use crate::models::{kind_distro, opt_text, Distro, DistroView, Payload, PayloadView};
use crate::namegen::texts;
use crate::store::{distro_views, Store, StoreView};
use crate::text::{
    begins_with, contains, ends_with, finishes_with, holds, split, split_of, starts_with,
};
use vstd::prelude::*;
use vstd::string::*;

verus! {

/// The views of a list of texts that may be missing.
pub open spec fn opt_views(list: Seq<Option<String>>) -> Seq<Option<Seq<char>>> {
    list.map_values(|o: Option<String>| opt_text(o))
}

/// The references of the anchors of an HTML document, in the order of the
/// document: for each `a` element the value of its `href` attribute, or
/// nothing where it has none, as `scraper` reads the document.
pub uninterp spec fn anchors_of(html: Seq<char>) -> Seq<Option<Seq<char>>>;

/// Calls `scraper::Html::parse_document`, selects the `a` elements with
/// `Html::select` and reads the `href` of each with `Element::attr`. The
/// result depends on the document alone.
#[verifier::external_body]
pub(crate) fn anchors(html: &String) -> (out: Vec<Option<String>>)
    ensures
        opt_views(out@) == anchors_of(html@),
{
    let document = scraper::Html::parse_document(html);
    let selector = scraper::Selector::parse("a").expect("selector to parse");
    document.select(&selector).map(|a| a.value().attr("href").map(|h| h.to_string())).collect()
}

/// What a reference resolves to against a base address: the address as
/// `url` writes it, or the message of the error with which `url` refuses
/// the base or the reference.
pub uninterp spec fn joined(base: Seq<char>, reference: Seq<char>) -> Result<
    Seq<char>,
    Seq<char>,
>;

/// The view of an address or of the message in its place.
pub open spec fn joined_view(out: Result<String, String>) -> Result<Seq<char>, Seq<char>> {
    match out {
        Ok(u) => Ok(u@),
        Err(m) => Err(m@),
    }
}

/// Calls `url::Url::parse` on the base and `Url::join` on what it gives,
/// and writes the result with `Display`. The result depends on the two
/// texts alone.
#[verifier::external_body]
fn resolve(base: &String, reference: &String) -> (out: Result<String, String>)
    ensures
        joined_view(out) == joined(base@, reference@),
{
    match url::Url::parse(base) {
        Err(why) => Err(why.to_string()),
        Ok(base) => match base.join(reference) {
            Err(why) => Err(why.to_string()),
            Ok(address) => Ok(address.to_string()),
        },
    }
}

/// What a reference resolves to against a base address, as a result of
/// this library.
pub open spec fn join_of(base: Seq<char>, reference: Seq<char>) -> Result<Seq<char>, ErrorView> {
    match joined(base, reference) {
        Ok(u) => Ok(u),
        Err(m) => Err(ErrorView::URL(m)),
    }
}

/// The view of a text or of the failure in its place.
pub open spec fn text_view(out: Result<String, Error>) -> Result<Seq<char>, ErrorView> {
    match out {
        Ok(u) => Ok(u@),
        Err(e) => Err(e@),
    }
}

/// Resolves a reference against a base address.
pub fn join(base: &String, reference: &str) -> (out: Result<String, Error>)
    ensures
        text_view(out) == join_of(base@, reference@),
{
    match resolve(base, &String::from_str(reference)) {
        Ok(u) => Ok(u),
        Err(m) => Err(Error::URL(m)),
    }
}

/// The references that are there, in order.
pub open spec fn present(anchors: Seq<Option<Seq<char>>>) -> Seq<Seq<char>>
    decreases anchors.len(),
{
    if anchors.len() == 0 {
        Seq::empty()
    } else {
        match anchors.last() {
            Some(h) => present(anchors.drop_last()).push(h),
            None => present(anchors.drop_last()),
        }
    }
}

/// The references that are there, in order.
pub fn hrefs(anchors: &Vec<Option<String>>) -> (out: Vec<String>)
    ensures
        texts(out@) == present(opt_views(anchors@)),
{
    let ghost all = opt_views(anchors@);
    let mut out: Vec<String> = Vec::new();
    let mut k: usize = 0;
    assert(all.take(0) =~= Seq::empty());
    assert(texts(out@) =~= Seq::empty());
    while k < anchors.len()
        invariant
            k <= anchors.len(),
            all == opt_views(anchors@),
            texts(out@) == present(all.take(k as int)),
        decreases anchors.len() - k,
    {
        let ghost so_far = texts(out@);
        assert(all.take(k as int + 1).drop_last() =~= all.take(k as int));
        assert(all.take(k as int + 1).last() == opt_text(anchors[k as int]));
        match &anchors[k] {
            Some(h) => {
                out.push(h.clone());
                assert(texts(out@) =~= so_far.push(h@));
            },
            None => {},
        }
        k += 1;
    }
    assert(all.take(k as int) =~= all);
    out
}

/// A condition on a reference.
#[derive(Clone, Debug)]
pub enum Rule {
    StartsWith(String),
    EndsWith(String),
    Contains(String),
    Lacks(String),
}

/// What a `Rule` holds, with its texts as sequences of characters.
pub enum RuleView {
    StartsWith(Seq<char>),
    EndsWith(Seq<char>),
    Contains(Seq<char>),
    Lacks(Seq<char>),
}

impl View for Rule {
    type V = RuleView;

    open spec fn view(&self) -> RuleView {
        match self {
            Rule::StartsWith(p) => RuleView::StartsWith(p@),
            Rule::EndsWith(p) => RuleView::EndsWith(p@),
            Rule::Contains(p) => RuleView::Contains(p@),
            Rule::Lacks(p) => RuleView::Lacks(p@),
        }
    }
}

/// The views of a list of rules.
pub open spec fn rule_views(list: Seq<Rule>) -> Seq<RuleView> {
    list.map_values(|r: Rule| r@)
}

/// Whether a text meets a rule.
pub open spec fn meets(text: Seq<char>, rule: RuleView) -> bool {
    match rule {
        RuleView::StartsWith(p) => begins_with(text, p),
        RuleView::EndsWith(p) => finishes_with(text, p),
        RuleView::Contains(p) => holds(text, p),
        RuleView::Lacks(p) => !holds(text, p),
    }
}

/// Whether a text meets every rule of a list.
pub open spec fn meets_all(text: Seq<char>, rules: Seq<RuleView>) -> bool {
    forall|k: int| 0 <= k < rules.len() ==> meets(text, #[trigger] rules[k])
}

/// The texts of a list that meet every rule, in order.
pub open spec fn kept(list: Seq<Seq<char>>, rules: Seq<RuleView>) -> Seq<Seq<char>>
    decreases list.len(),
{
    if list.len() == 0 {
        Seq::empty()
    } else if meets_all(list.last(), rules) {
        kept(list.drop_last(), rules).push(list.last())
    } else {
        kept(list.drop_last(), rules)
    }
}

fn check(text: &String, rules: &Vec<Rule>) -> (out: bool)
    ensures
        out == meets_all(text@, rule_views(rules@)),
{
    let mut k: usize = 0;
    while k < rules.len()
        invariant
            k <= rules.len(),
            forall|j: int| 0 <= j < k ==> meets(text@, #[trigger] rule_views(rules@)[j]),
        decreases rules.len() - k,
    {
        let met = match &rules[k] {
            Rule::StartsWith(p) => starts_with(text.as_str(), p.as_str()),
            Rule::EndsWith(p) => ends_with(text.as_str(), p.as_str()),
            Rule::Contains(p) => contains(text.as_str(), p.as_str()),
            Rule::Lacks(p) => !contains(text.as_str(), p.as_str()),
        };
        if !met {
            assert(!meets(text@, rule_views(rules@)[k as int]));
            return false;
        }
        k += 1;
    }
    true
}

/// The texts of a list that meet every rule, in order.
pub fn keep(list: &Vec<String>, rules: &Vec<Rule>) -> (out: Vec<String>)
    ensures
        texts(out@) == kept(texts(list@), rule_views(rules@)),
{
    let ghost all = texts(list@);
    let ghost wanted = rule_views(rules@);
    let mut out: Vec<String> = Vec::new();
    let mut k: usize = 0;
    assert(all.take(0) =~= Seq::empty());
    assert(texts(out@) =~= Seq::empty());
    while k < list.len()
        invariant
            k <= list.len(),
            all == texts(list@),
            wanted == rule_views(rules@),
            texts(out@) == kept(all.take(k as int), wanted),
        decreases list.len() - k,
    {
        let ghost so_far = texts(out@);
        assert(all.take(k as int + 1).drop_last() =~= all.take(k as int));
        assert(all.take(k as int + 1).last() == list[k as int]@);
        if check(&list[k], rules) {
            out.push(list[k].clone());
            assert(texts(out@) =~= so_far.push(list[k as int]@));
        }
        k += 1;
    }
    assert(all.take(k as int) =~= all);
    out
}

/// What stands before the first occurrence of a separator in a text.
pub open spec fn head_of(text: Seq<char>, sep: Seq<char>) -> Seq<char> {
    split_of(text, sep)[0]
}

/// Splitting a text gives at least one piece.
pub proof fn lemma_split_nonempty(text: Seq<char>, sep: Seq<char>)
    ensures
        split_of(text, sep).len() > 0,
{
}

/// What stands before the first occurrence of a separator in a text.
pub fn head(text: &str, sep: &str) -> (out: String)
    ensures
        out@ == head_of(text@, sep@),
{
    let parts = split(text, sep);
    proof {
        lemma_split_nonempty(text@, sep@);
        assert(texts(parts@).len() == parts@.len());
        assert(texts(parts@)[0] == parts@[0]@);
    }
    parts[0].clone()
}

/// The views of a list of results of scraping.
pub open spec fn scraped_views(list: Seq<Result<Distro, Error>>) -> Seq<
    Result<DistroView, ErrorView>,
> {
    list.map_values(|r: Result<Distro, Error>| crate::scrape::arch::distro_view(r))
}

/// The distros of a list of results, in order, or the first failure of
/// the list.
pub open spec fn gathered(list: Seq<Result<DistroView, ErrorView>>) -> Result<
    Seq<DistroView>,
    ErrorView,
>
    decreases list.len(),
{
    if list.len() == 0 {
        Ok(Seq::empty())
    } else {
        match gathered(list.drop_last()) {
            Err(e) => Err(e),
            Ok(found) => match list.last() {
                Err(e) => Err(e),
                Ok(d) => Ok(found.push(d)),
            },
        }
    }
}

/// Once the results up to some point hold a failure, the whole list fails
/// in the same way.
pub proof fn lemma_gathered_fails(list: Seq<Result<DistroView, ErrorView>>, k: int)
    requires
        0 <= k <= list.len(),
        gathered(list.take(k)) is Err,
    ensures
        gathered(list) == gathered(list.take(k)),
    decreases list.len(),
{
    if k == list.len() {
        assert(list.take(k) =~= list);
    } else {
        assert(list.drop_last().take(k) =~= list.take(k));
        lemma_gathered_fails(list.drop_last(), k);
    }
}

/// The Ubuntu releases that are scraped: the version and the name of
/// each.
pub fn ubuntu_releases() -> (out: Vec<(String, String)>)
    ensures
        out.len() == 3,
        out[0].0@ == "22.04"@ && out[0].1@ == "jammy"@,
        out[1].0@ == "20.04"@ && out[1].1@ == "focal"@,
        out[2].0@ == "18.04"@ && out[2].1@ == "bionic"@,
{
    let mut out: Vec<(String, String)> = Vec::new();
    out.push((String::from_str("22.04"), String::from_str("jammy")));
    out.push((String::from_str("20.04"), String::from_str("focal")));
    out.push((String::from_str("18.04"), String::from_str("bionic")));
    out
}

/// All that was scraped, in the order of the results: the distros, or the
/// first failure among the results.
pub fn get_all(results: Vec<Result<Distro, Error>>) -> (out: Result<Vec<Distro>, Error>)
    ensures
        match gathered(scraped_views(results@)) {
            Ok(found) => out is Ok && distro_views(out->Ok_0@) == found,
            Err(e) => out is Err && out->Err_0@ == e,
        },
{
    let ghost all = scraped_views(results@);
    let mut out: Vec<Distro> = Vec::new();
    let mut k: usize = 0;
    assert(all.take(0) =~= Seq::empty());
    assert(distro_views(out@) =~= Seq::empty());
    while k < results.len()
        invariant
            k <= results.len(),
            all == scraped_views(results@),
            gathered(all.take(k as int)) == Ok::<Seq<DistroView>, ErrorView>(distro_views(out@)),
        decreases results.len() - k,
    {
        let ghost so_far = distro_views(out@);
        assert(all.take(k as int + 1).drop_last() =~= all.take(k as int));
        assert(all.take(k as int + 1).last() == crate::scrape::arch::distro_view(
            results[k as int],
        ));
        match &results[k] {
            Err(e) => {
                proof {
                    lemma_gathered_fails(all, k as int + 1);
                }
                return Err(e.duplicate());
            },
            Ok(d) => {
                out.push(d.duplicate());
                assert(distro_views(out@) =~= so_far.push(d@));
            },
        }
        k += 1;
    }
    assert(all.take(k as int) =~= all);
    Ok(out)
}

/// The store after one scraped distro was taken in: a distro of the
/// catalog takes the scraped values, one that the catalog lacks is not
/// added, and either way the audit log records an update.
pub open spec fn taken_in(s: StoreView, d: DistroView, now: i64) -> StoreView {
    let next = if s.has_distro(d.name) {
        s.put_distro(d)
    } else {
        s
    };
    next.log(now, kind_distro(), "update"@, Some(PayloadView::Distro(d)), None, Some(d.name))
}

/// The store after a list of scraped distros was taken in, one after the
/// other.
pub open spec fn refreshed(s: StoreView, found: Seq<DistroView>, now: i64) -> StoreView
    decreases found.len(),
{
    if found.len() == 0 {
        s
    } else {
        taken_in(refreshed(s, found.drop_last(), now), found.last(), now)
    }
}

/// What refreshing the catalog does: all scraped distros are taken in,
/// or, where the audit log has no room for all of them, none.
pub open spec fn refresh_of(s: StoreView, found: Seq<DistroView>, now: i64) -> Result<
    StoreView,
    ErrorView,
> {
    if s.audit.len() + found.len() > i32::MAX {
        Err(store_full())
    } else {
        Ok(refreshed(s, found, now))
    }
}

/// Taking scraped distros in keeps the store well-formed, adds no distro
/// and no instance, and writes one audit event for each of them.
pub proof fn lemma_refreshed(s: StoreView, found: Seq<DistroView>, now: i64)
    requires
        s.wf(),
        s.audit.len() + found.len() <= i32::MAX,
    ensures
        refreshed(s, found, now).wf(),
        refreshed(s, found, now).audit.len() == s.audit.len() + found.len(),
        refreshed(s, found, now).distros.len() == s.distros.len(),
        refreshed(s, found, now).instances == s.instances,
        refreshed(s, found, now).seeds == s.seeds,
    decreases found.len(),
{
    if found.len() > 0 {
        let before = refreshed(s, found.drop_last(), now);
        let d = found.last();
        lemma_refreshed(s, found.drop_last(), now);
        before.lemma_put_distro_wf(d);
        let next = if before.has_distro(d.name) {
            before.put_distro(d)
        } else {
            before
        };
        next.lemma_log_wf(
            now,
            kind_distro(),
            "update"@,
            Some(PayloadView::Distro(d)),
            None,
            Some(d.name),
        );
    }
}

/// Takes the scraped distros into the catalog.
pub fn refresh(store: &mut Store, found: &Vec<Distro>, now: i64) -> (out: Result<(), Error>)
    requires
        old(store).wf(),
    ensures
        final(store).wf(),
        match refresh_of(old(store)@, distro_views(found@), now) {
            Ok(next) => out is Ok && final(store)@ == next,
            Err(e) => out is Err && out->Err_0@ == e && final(store)@ == old(store)@,
        },
{
    let ghost all = distro_views(found@);
    let log = store.audit_log();
    let logged = log.len();
    assert(logged == old(store)@.audit.len()) by {
        assert(crate::store::audit_views(log@).len() == log@.len());
    }
    if logged > 0x7fff_ffff || found.len() > 0x7fff_ffff - logged {
        return Err(Error::SQLite(String::from_str("database or disk is full")));
    }
    let mut k: usize = 0;
    assert(all.take(0) =~= Seq::empty());
    while k < found.len()
        invariant
            k <= found.len(),
            all == distro_views(found@),
            old(store).wf(),
            store.wf(),
            old(store)@.audit.len() + found.len() <= i32::MAX,
            store@ == refreshed(old(store)@, all.take(k as int), now),
        decreases found.len() - k,
    {
        proof {
            assert(all.take(k as int + 1).drop_last() =~= all.take(k as int));
            assert(all.take(k as int + 1).last() == found[k as int]@);
            lemma_refreshed(old(store)@, all.take(k as int), now);
            lemma_refreshed(old(store)@, all.take(k as int + 1), now);
        }
        let d = &found[k];
        if store.find_distro(&d.name).is_some() {
            store.put_distro(d.duplicate());
        }
        store.log(
            now,
            String::from_str("distro"),
            String::from_str("update"),
            Some(Payload::Distro(d.duplicate())),
            None,
            Some(d.name.clone()),
        );
        k += 1;
    }
    assert(all.take(k as int) =~= all);
    Ok(())
}

} // verus!

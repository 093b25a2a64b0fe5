//! Arch Linux images: the newest directory of the mirror holds the image
//! and its checksum.

use crate::error::{Error, ErrorView};
use crate::models::{Distro, DistroView};
use crate::namegen::texts;
use crate::scrape::{
    anchors, anchors_of, head, head_of, hrefs, join, join_of, keep, kept, opt_views, present,
    text_view, Rule, RuleView,
};
use vstd::prelude::*;
use vstd::string::*;

verus! {

/// Where the mirror lists its directories.
pub open spec fn release_base() -> Seq<char> {
    "https://geo.mirror.pkgbuild.com/images/"@
}

/// The failure of a list without its last entry.
pub open spec fn no_last() -> ErrorView {
    ErrorView::Catchall("can't get last element of Arch image list"@)
}

/// The failure of an anchor without a reference.
pub open spec fn no_href() -> ErrorView {
    ErrorView::Catchall("link has no href, how???"@)
}

/// The failure of a directory that does not hold four image files.
pub open spec fn wrong_count() -> ErrorView {
    ErrorView::Catchall("wrong number of things in the list, wanted 4"@)
}

/// The reference of the newest directory: that of the last anchor of the
/// list.
pub open spec fn newest_of(all: Seq<Option<Seq<char>>>) -> Result<Seq<char>, ErrorView> {
    if all.len() == 0 {
        Err(no_last())
    } else {
        match all.last() {
            None => Err(no_href()),
            Some(h) => Ok(h),
        }
    }
}

/// The newest directory: what the last anchor of the list refers to.
pub open spec fn release_of(html: Seq<char>) -> Result<Seq<char>, ErrorView> {
    match newest_of(anchors_of(html)) {
        Err(e) => Err(e),
        Ok(h) => join_of(release_base(), h),
    }
}

/// The files of the image among the anchors of a directory: the
/// references that begin with the image's name.
pub open spec fn files_in(all: Seq<Option<Seq<char>>>) -> Seq<Seq<char>> {
    kept(present(all), seq![RuleView::StartsWith("Arch-Linux-x86_64-cloudimg-"@)])
}

/// The files of the image in a directory.
pub open spec fn files_of(html: Seq<char>) -> Seq<Seq<char>> {
    files_in(anchors_of(html))
}

/// Where the checksum of the image is: the second of the four files.
pub open spec fn checksum_url_of(release: Seq<char>, html: Seq<char>) -> Result<
    Seq<char>,
    ErrorView,
> {
    if files_of(html).len() != 4 {
        Err(wrong_count())
    } else {
        join_of(release, files_of(html)[1])
    }
}

/// The distro of an image at an address: its checksum is what stands
/// before the first two spaces of the checksum file.
pub open spec fn described(image: Seq<char>, sums: Seq<char>) -> DistroView {
    DistroView {
        name: "arch"@,
        download_url: image,
        sha256sum: head_of(sums, "  "@),
        min_size_gb: 2,
        format: "waifud://qcow2"@,
    }
}

/// The distro that a directory and its checksum file stand for: the image
/// is the first of the four files.
pub open spec fn distro_of(release: Seq<char>, html: Seq<char>, sums: Seq<char>) -> Result<
    DistroView,
    ErrorView,
> {
    if files_of(html).len() != 4 {
        Err(wrong_count())
    } else {
        match join_of(release, files_of(html)[0]) {
            Err(e) => Err(e),
            Ok(image) => Ok(described(image, sums)),
        }
    }
}

/// The view of a distro or of the failure in its place.
pub open spec fn distro_view(out: Result<Distro, Error>) -> Result<DistroView, ErrorView> {
    match out {
        Ok(d) => Ok(d@),
        Err(e) => Err(e@),
    }
}

/// Where the mirror lists its directories.
pub fn index_url() -> (out: String)
    ensures
        out@ == release_base(),
{
    String::from_str("https://geo.mirror.pkgbuild.com/images/")
}

/// The reference of the newest directory among the anchors of the list.
pub fn newest(all: &Vec<Option<String>>) -> (out: Result<String, Error>)
    ensures
        text_view(out) == newest_of(opt_views(all@)),
{
    if all.len() == 0 {
        return Err(Error::Catchall(String::from_str("can't get last element of Arch image list")));
    }
    assert(opt_views(all@).last() == crate::models::opt_text(all[all.len() - 1]));
    match &all[all.len() - 1] {
        None => Err(Error::Catchall(String::from_str("link has no href, how???"))),
        Some(h) => Ok(h.clone()),
    }
}

/// The newest directory of the mirror, read from its list.
pub fn release_url(html: &String) -> (out: Result<String, Error>)
    ensures
        text_view(out) == release_of(html@),
{
    match newest(&anchors(html)) {
        Err(e) => Err(e),
        Ok(h) => join(&index_url(), h.as_str()),
    }
}

/// The files of the image among the anchors of a directory.
pub fn files(all: &Vec<Option<String>>) -> (out: Vec<String>)
    ensures
        texts(out@) == files_in(opt_views(all@)),
{
    let mut rules: Vec<Rule> = Vec::new();
    rules.push(Rule::StartsWith(String::from_str("Arch-Linux-x86_64-cloudimg-")));
    assert(crate::scrape::rule_views(rules@) =~= seq![
        RuleView::StartsWith("Arch-Linux-x86_64-cloudimg-"@),
    ]);
    keep(&hrefs(all), &rules)
}

/// Where the checksum of the newest image is, read from its directory.
pub fn checksum_url(release: &String, html: &String) -> (out: Result<String, Error>)
    ensures
        text_view(out) == checksum_url_of(release@, html@),
{
    let links = files(&anchors(html));
    if links.len() != 4 {
        return Err(
            Error::Catchall(String::from_str("wrong number of things in the list, wanted 4")),
        );
    }
    assert(texts(links@)[1] == links[1]@);
    join(release, links[1].as_str())
}

/// The distro of an image at an address, with the checksum that the
/// checksum file begins with.
pub fn describe(image: String, sums: &String) -> (out: Distro)
    ensures
        out@ == described(image@, sums@),
{
    Distro {
        name: String::from_str("arch"),
        download_url: image,
        sha256sum: head(sums.as_str(), "  "),
        min_size_gb: 2,
        format: String::from_str("waifud://qcow2"),
    }
}

/// The distro for the newest image, from its directory and its checksum
/// file.
pub fn scrape(release: &String, html: &String, sums: &String) -> (out: Result<Distro, Error>)
    ensures
        distro_view(out) == distro_of(release@, html@, sums@),
{
    let links = files(&anchors(html));
    if links.len() != 4 {
        return Err(
            Error::Catchall(String::from_str("wrong number of things in the list, wanted 4")),
        );
    }
    assert(texts(links@)[0] == links[0]@);
    match join(release, links[0].as_str()) {
        Err(e) => Err(e),
        Ok(image) => Ok(describe(image, sums)),
    }
}

} // verus!

//! Amazon Linux images: the address of the newest release redirects to
//! the directory that holds the image and its checksum.

use crate::error::{Error, ErrorView};
use crate::models::{Distro, DistroView};
use crate::namegen::texts;
use crate::scrape::arch::distro_view;
use crate::scrape::{
    anchors, anchors_of, head, head_of, hrefs, join, join_of, keep, kept, present, rule_views,
    text_view, Rule, RuleView,
};
use vstd::prelude::*;
use vstd::string::*;

verus! {

/// The address that redirects to the newest release.
pub open spec fn latest() -> Seq<char> {
    "https://cdn.amazonlinux.com/os-images/latest/kvm/"@
}

/// The failure of an answer that redirects nowhere.
pub open spec fn no_redirect() -> ErrorView {
    ErrorView::Catchall("why did the redirect not work?"@)
}

/// The failure of a directory without an image.
pub open spec fn no_image() -> ErrorView {
    ErrorView::Catchall("can't get last element of Amazon Linux image list"@)
}

/// The images among the anchors of a directory: the references that
/// begin with the image's name.
pub open spec fn images_in(all: Seq<Option<Seq<char>>>) -> Seq<Seq<char>> {
    kept(present(all), seq![RuleView::StartsWith("amzn2-kvm"@)])
}

/// The images of a directory.
pub open spec fn images_of(html: Seq<char>) -> Seq<Seq<char>> {
    images_in(anchors_of(html))
}

/// The directory of the newest release: where the answer redirects to.
pub open spec fn release_of(location: Option<Seq<char>>) -> Result<Seq<char>, ErrorView> {
    match location {
        Some(l) => Ok(l),
        None => Err(no_redirect()),
    }
}

/// Where the checksum of the image is.
pub open spec fn checksum_url_of(release: Seq<char>) -> Result<Seq<char>, ErrorView> {
    join_of(release, "SHA256SUMS"@)
}

/// The distro of an image at an address: its checksum is what stands
/// before the first two spaces of the checksum file.
pub open spec fn described(image: Seq<char>, sums: Seq<char>) -> DistroView {
    DistroView {
        name: "amazon-linux-2"@,
        download_url: image,
        sha256sum: head_of(sums, "  "@),
        min_size_gb: 25,
        format: "waifud://qcow2"@,
    }
}

/// The distro that a directory and its checksum file stand for: the image
/// is the first one of the directory.
pub open spec fn distro_of(release: Seq<char>, html: Seq<char>, sums: Seq<char>) -> Result<
    DistroView,
    ErrorView,
> {
    if images_of(html).len() == 0 {
        Err(no_image())
    } else {
        match join_of(release, images_of(html)[0]) {
            Err(e) => Err(e),
            Ok(image) => Ok(described(image, sums)),
        }
    }
}

/// The address that redirects to the newest release.
pub fn index_url() -> (out: String)
    ensures
        out@ == latest(),
{
    String::from_str("https://cdn.amazonlinux.com/os-images/latest/kvm/")
}

/// The directory of the newest release, from the place that the answer
/// redirects to.
pub fn release_url(location: Option<String>) -> (out: Result<String, Error>)
    ensures
        text_view(out) == release_of(crate::models::opt_text(location)),
{
    match location {
        Some(l) => Ok(l),
        None => Err(Error::Catchall(String::from_str("why did the redirect not work?"))),
    }
}

/// Where the checksum of the image is.
pub fn checksum_url(release: &String) -> (out: Result<String, Error>)
    ensures
        text_view(out) == checksum_url_of(release@),
{
    join(release, "SHA256SUMS")
}

/// The images among the anchors of a directory.
pub fn images(all: &Vec<Option<String>>) -> (out: Vec<String>)
    ensures
        texts(out@) == images_in(crate::scrape::opt_views(all@)),
{
    let mut rules: Vec<Rule> = Vec::new();
    rules.push(Rule::StartsWith(String::from_str("amzn2-kvm")));
    assert(rule_views(rules@) =~= seq![RuleView::StartsWith("amzn2-kvm"@)]);
    keep(&hrefs(all), &rules)
}

/// The distro of an image at an address, with the checksum that the
/// checksum file begins with.
pub fn describe(image: String, sums: &String) -> (out: Distro)
    ensures
        out@ == described(image@, sums@),
{
    Distro {
        name: String::from_str("amazon-linux-2"),
        download_url: image,
        sha256sum: head(sums.as_str(), "  "),
        min_size_gb: 25,
        format: String::from_str("waifud://qcow2"),
    }
}

/// The distro for the newest image, from its directory and its checksum
/// file.
pub fn scrape(release: &String, html: &String, sums: &String) -> (out: Result<Distro, Error>)
    ensures
        distro_view(out) == distro_of(release@, html@, sums@),
{
    let links = images(&anchors(html));
    if links.len() == 0 {
        return Err(
            Error::Catchall(
                String::from_str("can't get last element of Amazon Linux image list"),
            ),
        );
    }
    assert(texts(links@)[0] == links[0]@);
    match join(release, links[0].as_str()) {
        Err(e) => Err(e),
        Ok(image) => Ok(describe(image, sums)),
    }
}

} // verus!

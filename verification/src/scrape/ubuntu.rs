//! Ubuntu images: each release has a list of daily builds, and each build
//! a directory with the image and a file of checksums.

use crate::error::{Error, ErrorView};
use crate::models::{opt_text, Distro, DistroView};
use crate::namegen::texts;
use crate::scrape::arch::distro_view;
use crate::scrape::{
    anchors, anchors_of, hrefs, join, join_of, keep, kept, opt_views, present, rule_views,
    text_view, Rule, RuleView,
};
use crate::text::{join2, join3, split, split_of};
use vstd::prelude::*;
use vstd::string::*;

verus! {

/// Where the daily builds are published.
pub open spec fn release_base() -> Seq<char> {
    "http://cloud-images.ubuntu.com/daily/server/"@
}

/// How the image of a release ends.
pub open spec fn image_suffix() -> Seq<char> {
    "-server-cloudimg-amd64.img"@
}

/// The failure of a list with fewer than three anchors.
pub open spec fn no_build() -> ErrorView {
    ErrorView::Catchall("can't get second to last element of image list"@)
}

/// The failure of an anchor without a reference.
pub open spec fn no_href() -> ErrorView {
    ErrorView::Catchall("link has no href, how???"@)
}

/// The failure of a directory without an image.
pub open spec fn no_image() -> ErrorView {
    ErrorView::Catchall("can't find the image in the list"@)
}

/// The failure of a file of checksums that does not list the image.
pub open spec fn no_checksum(name: Seq<char>) -> ErrorView {
    ErrorView::Catchall("can't find shasum for "@ + name)
}

/// Where the builds of a release are listed.
pub open spec fn index_of(name: Seq<char>) -> Result<Seq<char>, ErrorView> {
    join_of(release_base() + name + "/"@, Seq::empty())
}

/// The anchor of the newest build: the third from the end of the list.
pub open spec fn newest_of(all: Seq<Option<Seq<char>>>) -> Result<Option<Seq<char>>, ErrorView> {
    if all.len() < 3 {
        Err(no_build())
    } else {
        Ok(all[all.len() - 3])
    }
}

/// The directory of the newest build: what the third anchor from the end
/// of the list refers to, resolved against the release's name under the
/// list.
pub open spec fn release_of(index: Seq<char>, name: Seq<char>, html: Seq<char>) -> Result<
    Seq<char>,
    ErrorView,
> {
    match newest_of(anchors_of(html)) {
        Err(e) => Err(e),
        Ok(anchor) => match join_of(index, name) {
            Err(e) => Err(e),
            Ok(under) => match anchor {
                None => Err(no_href()),
                Some(h) => join_of(under, h),
            },
        },
    }
}

/// The images among the anchors of a directory: the references that end
/// as images do.
pub open spec fn images_in(all: Seq<Option<Seq<char>>>) -> Seq<Seq<char>> {
    kept(present(all), seq![RuleView::EndsWith(image_suffix())])
}

/// The images of a directory.
pub open spec fn images_of(html: Seq<char>) -> Seq<Seq<char>> {
    images_in(anchors_of(html))
}

/// Where the checksums of a build are, if the build has an image.
pub open spec fn checksum_url_of(release: Seq<char>, html: Seq<char>) -> Result<
    Seq<char>,
    ErrorView,
> {
    if images_of(html).len() == 0 {
        Err(no_image())
    } else {
        join_of(release, "SHA256SUMS"@)
    }
}

/// The checksum that a file of checksums lists for a file. A line lists a
/// file where a space and an asterisk part it in two: the checksum and
/// the file. The last line that lists the file counts.
pub open spec fn listed(lines: Seq<Seq<char>>, file: Seq<char>) -> Option<Seq<char>>
    decreases lines.len(),
{
    if lines.len() == 0 {
        None
    } else {
        let sides = split_of(lines.last(), " *"@);
        if sides.len() == 2 && sides[1] == file {
            Some(sides[0])
        } else {
            listed(lines.drop_last(), file)
        }
    }
}

/// The distro of a release with its image at an address and its
/// checksum.
pub open spec fn described(version: Seq<char>, image: Seq<char>, sha256sum: Seq<char>)
    -> DistroView {
    DistroView {
        name: "ubuntu-"@ + version,
        download_url: image,
        sha256sum,
        min_size_gb: 5,
        format: "waifud://qcow2"@,
    }
}

/// The distro that a build stands for: its image is the first one of the
/// directory, with the checksum that the file of checksums lists for the
/// image of the release.
pub open spec fn distro_of(
    version: Seq<char>,
    name: Seq<char>,
    release: Seq<char>,
    html: Seq<char>,
    sums: Seq<char>,
) -> Result<DistroView, ErrorView> {
    if images_of(html).len() == 0 {
        Err(no_image())
    } else {
        match listed(split_of(sums, "\n"@), name + image_suffix()) {
            None => Err(no_checksum(name)),
            Some(sha256sum) => match join_of(release, images_of(html)[0]) {
                Err(e) => Err(e),
                Ok(image) => Ok(described(version, image, sha256sum)),
            },
        }
    }
}

/// Where the builds of a release are listed.
pub fn index_url(name: &String) -> (out: Result<String, Error>)
    ensures
        text_view(out) == index_of(name@),
{
    let base = join3("http://cloud-images.ubuntu.com/daily/server/", name.as_str(), "/");
    proof {
        reveal_strlit("");
        assert(""@ =~= Seq::<char>::empty());
    }
    join(&base, "")
}

/// The view of an anchor or of the failure in its place.
pub open spec fn anchor_view(out: Result<Option<String>, Error>) -> Result<
    Option<Seq<char>>,
    ErrorView,
> {
    match out {
        Ok(a) => Ok(opt_text(a)),
        Err(e) => Err(e@),
    }
}

/// The anchor of the newest build among the anchors of the list.
pub fn newest(all: &Vec<Option<String>>) -> (out: Result<Option<String>, Error>)
    ensures
        anchor_view(out) == newest_of(opt_views(all@)),
{
    if all.len() < 3 {
        return Err(
            Error::Catchall(String::from_str("can't get second to last element of image list")),
        );
    }
    assert(opt_views(all@)[all.len() - 3] == opt_text(all[all.len() - 3]));
    Ok(crate::models::copy_opt(&all[all.len() - 3]))
}

/// The directory of the newest build, read from the list of builds.
pub fn release_url(index: &String, name: &String, html: &String) -> (out: Result<String, Error>)
    ensures
        text_view(out) == release_of(index@, name@, html@),
{
    let anchor = match newest(&anchors(html)) {
        Err(e) => {
            return Err(e);
        },
        Ok(anchor) => anchor,
    };
    match join(index, name.as_str()) {
        Err(e) => Err(e),
        Ok(under) => match anchor {
            None => Err(Error::Catchall(String::from_str("link has no href, how???"))),
            Some(h) => join(&under, h.as_str()),
        },
    }
}

/// The images among the anchors of a directory.
pub fn images(all: &Vec<Option<String>>) -> (out: Vec<String>)
    ensures
        texts(out@) == images_in(opt_views(all@)),
{
    let mut rules: Vec<Rule> = Vec::new();
    rules.push(Rule::EndsWith(String::from_str("-server-cloudimg-amd64.img")));
    assert(rule_views(rules@) =~= seq![RuleView::EndsWith(image_suffix())]);
    keep(&hrefs(all), &rules)
}

/// Where the checksums of a build are.
pub fn checksum_url(release: &String, html: &String) -> (out: Result<String, Error>)
    ensures
        text_view(out) == checksum_url_of(release@, html@),
{
    if images(&anchors(html)).len() == 0 {
        return Err(Error::Catchall(String::from_str("can't find the image in the list")));
    }
    join(release, "SHA256SUMS")
}

/// The checksum that a file of checksums lists for a file.
pub fn checksum(lines: &Vec<String>, file: &String) -> (out: Option<String>)
    ensures
        opt_text(out) == listed(texts(lines@), file@),
{
    let ghost all = texts(lines@);
    let mut out: Option<String> = None;
    let mut k: usize = 0;
    assert(all.take(0) =~= Seq::empty());
    while k < lines.len()
        invariant
            k <= lines.len(),
            all == texts(lines@),
            opt_text(out) == listed(all.take(k as int), file@),
        decreases lines.len() - k,
    {
        assert(all.take(k as int + 1).drop_last() =~= all.take(k as int));
        assert(all.take(k as int + 1).last() == lines[k as int]@);
        let sides = split(lines[k].as_str(), " *");
        assert(texts(sides@).len() == sides@.len());
        if sides.len() == 2 {
            assert(texts(sides@)[1] == sides[1]@);
            assert(texts(sides@)[0] == sides[0]@);
            if sides[1] == *file {
                out = Some(sides[0].clone());
            }
        }
        k += 1;
    }
    assert(all.take(k as int) =~= all);
    out
}

/// The distro of a release with its image at an address and its
/// checksum.
pub fn describe(version: &String, image: String, sha256sum: String) -> (out: Distro)
    ensures
        out@ == described(version@, image@, sha256sum@),
{
    Distro {
        name: join2("ubuntu-", version.as_str()),
        download_url: image,
        sha256sum,
        min_size_gb: 5,
        format: String::from_str("waifud://qcow2"),
    }
}

/// The distro for the newest build of a release, from the build's
/// directory and its file of checksums.
pub fn scrape(version: &String, name: &String, release: &String, html: &String, sums: &String)
    -> (out: Result<Distro, Error>)
    ensures
        distro_view(out) == distro_of(version@, name@, release@, html@, sums@),
{
    let links = images(&anchors(html));
    if links.len() == 0 {
        return Err(Error::Catchall(String::from_str("can't find the image in the list")));
    }
    assert(texts(links@)[0] == links[0]@);
    let file = join2(name.as_str(), "-server-cloudimg-amd64.img");
    let sha256sum = match checksum(&split(sums.as_str(), "\n"), &file) {
        None => {
            return Err(Error::Catchall(join2("can't find shasum for ", name.as_str())));
        },
        Some(s) => s,
    };
    match join(release, links[0].as_str()) {
        Err(e) => Err(e),
        Ok(image) => Ok(describe(version, image, sha256sum)),
    }
}

} // verus!

//! Rocky Linux images: the directory of a release holds the images of
//! all its builds and one file of checksums.

use crate::error::{Error, ErrorView};
use crate::models::{Distro, DistroView};
use crate::namegen::texts;
use crate::scrape::arch::distro_view;
use crate::scrape::{
    anchors, anchors_of, hrefs, join, join_of, keep, kept, present, rule_views, text_view, Rule,
    RuleView,
};
use crate::text::{int_string, int_text, join2, join4, split, split_of};
use vstd::prelude::*;
use vstd::string::*;

verus! {

/// Where the releases are published.
pub open spec fn release_base() -> Seq<char> {
    "http://download.rockylinux.org/pub/rocky/"@
}

/// The failure of a directory without an image.
pub open spec fn no_image() -> ErrorView {
    ErrorView::Catchall("can't get second to last element of image list"@)
}

/// The directory of a release under the place where releases are
/// published. Release 9 keeps its images one level deeper.
pub open spec fn directory_of(version: i32) -> Seq<char> {
    release_base() + int_text(version as int) + "/images/"@ + if version == 9 {
        "x86_64/"@
    } else {
        Seq::empty()
    }
}

/// Where the images of a release are listed.
pub open spec fn index_of(version: i32) -> Result<Seq<char>, ErrorView> {
    join_of(directory_of(version), Seq::empty())
}

/// What makes a reference that of a dated image of the generic cloud
/// flavour.
pub open spec fn image_rules() -> Seq<RuleView> {
    seq![
        RuleView::Contains("GenericCloud"@),
        RuleView::Contains("x86_64"@),
        RuleView::Lacks("latest"@),
        RuleView::EndsWith(".qcow2"@),
    ]
}

/// The dated images among the anchors of a directory, in the order of the
/// directory.
pub open spec fn images_in(all: Seq<Option<Seq<char>>>) -> Seq<Seq<char>> {
    kept(present(all), image_rules())
}

/// The dated images of a directory.
pub open spec fn images_of(html: Seq<char>) -> Seq<Seq<char>> {
    images_in(anchors_of(html))
}

/// The address of the newest image: the last dated image of the
/// directory.
pub open spec fn image_of(index: Seq<char>, html: Seq<char>) -> Result<Seq<char>, ErrorView> {
    if images_of(html).len() == 0 {
        Err(no_image())
    } else {
        join_of(index, images_of(html).last())
    }
}

/// Where the checksums of a release are: beside the newest image.
pub open spec fn checksum_url_of(index: Seq<char>, html: Seq<char>) -> Result<
    Seq<char>,
    ErrorView,
> {
    match image_of(index, html) {
        Err(e) => Err(e),
        Ok(image) => join_of(image, "./CHECKSUM"@),
    }
}

/// The lines of a file of checksums that can say something of an image:
/// those that name it, and from release 9 on only those that name the kind
/// of checksum as well.
pub open spec fn line_rules(link: Seq<char>, version: i32) -> Seq<RuleView> {
    if version != 8 {
        seq![RuleView::Contains("SHA256"@), RuleView::Contains(link)]
    } else {
        seq![RuleView::Contains(link)]
    }
}

/// The checksum after one more line. Release 8 writes the checksum, two
/// spaces and the file; the later ones write four words, of which the last
/// is the checksum. A line of another shape says nothing.
pub open spec fn after_line(found: Seq<char>, line: Seq<char>, version: i32) -> Seq<char> {
    if version != 8 {
        let sides = split_of(line, " "@);
        if sides.len() == 4 {
            sides[3]
        } else {
            found
        }
    } else {
        let sides = split_of(line, "  "@);
        if sides.len() == 2 {
            sides[0]
        } else {
            found
        }
    }
}

/// The checksum after the lines of a list, read in order up to the first
/// empty one.
pub open spec fn after_lines(found: Seq<char>, lines: Seq<Seq<char>>, version: i32) -> Seq<char>
    decreases lines.len(),
{
    if lines.len() == 0 || lines[0].len() == 0 {
        found
    } else {
        after_lines(after_line(found, lines[0], version), lines.drop_first(), version)
    }
}

/// The checksum that a file of checksums gives for an image, or the empty
/// text where it gives none.
pub open spec fn checksum_of(sums: Seq<char>, link: Seq<char>, version: i32) -> Seq<char> {
    after_lines(Seq::empty(), kept(split_of(sums, "\n"@), line_rules(link, version)), version)
}

/// The distro of a release with its image at an address and its
/// checksum.
pub open spec fn described(version: i32, image: Seq<char>, sha256sum: Seq<char>) -> DistroView {
    DistroView {
        name: "rocky-linux-"@ + int_text(version as int),
        download_url: image,
        sha256sum,
        min_size_gb: 10,
        format: "waifud://qcow2"@,
    }
}

/// The distro that a release stands for: its newest image, with the
/// checksum that the file of checksums gives for it.
pub open spec fn distro_of(version: i32, index: Seq<char>, html: Seq<char>, sums: Seq<char>)
    -> Result<DistroView, ErrorView> {
    match image_of(index, html) {
        Err(e) => Err(e),
        Ok(image) => match join_of(image, image) {
            Err(e) => Err(e),
            Ok(address) => Ok(
                described(version, address, checksum_of(sums, images_of(html).last(), version)),
            ),
        },
    }
}

/// Where the images of a release are listed.
pub fn index_url(version: i32) -> (out: Result<String, Error>)
    ensures
        text_view(out) == index_of(version),
{
    let number = int_string(version);
    let deeper = if version == 9 {
        "x86_64/"
    } else {
        ""
    };
    proof {
        reveal_strlit("");
        assert(""@ =~= Seq::<char>::empty());
    }
    let base = join4(
        "http://download.rockylinux.org/pub/rocky/",
        number.as_str(),
        "/images/",
        deeper,
    );
    join(&base, "")
}

/// The dated images among the anchors of a directory.
pub fn images(all: &Vec<Option<String>>) -> (out: Vec<String>)
    ensures
        texts(out@) == images_in(crate::scrape::opt_views(all@)),
{
    let mut rules: Vec<Rule> = Vec::new();
    rules.push(Rule::Contains(String::from_str("GenericCloud")));
    rules.push(Rule::Contains(String::from_str("x86_64")));
    rules.push(Rule::Lacks(String::from_str("latest")));
    rules.push(Rule::EndsWith(String::from_str(".qcow2")));
    assert(rule_views(rules@) =~= image_rules());
    keep(&hrefs(all), &rules)
}

fn image(index: &String, links: &Vec<String>) -> (out: Result<String, Error>)
    ensures
        text_view(out) == (if texts(links@).len() == 0 {
            Err::<Seq<char>, ErrorView>(no_image())
        } else {
            join_of(index@, texts(links@).last())
        }),
{
    if links.len() == 0 {
        return Err(
            Error::Catchall(String::from_str("can't get second to last element of image list")),
        );
    }
    assert(texts(links@).last() == links[links.len() - 1]@);
    join(index, links[links.len() - 1].as_str())
}

/// Where the checksums of a release are, read from its directory.
pub fn checksum_url(index: &String, html: &String) -> (out: Result<String, Error>)
    ensures
        text_view(out) == checksum_url_of(index@, html@),
{
    match image(index, &images(&anchors(html))) {
        Err(e) => Err(e),
        Ok(address) => join(&address, "./CHECKSUM"),
    }
}

/// The checksum that a file of checksums gives for an image.
pub fn checksum(sums: &String, link: &String, version: i32) -> (out: String)
    ensures
        out@ == checksum_of(sums@, link@, version),
{
    let mut rules: Vec<Rule> = Vec::new();
    if version != 8 {
        rules.push(Rule::Contains(String::from_str("SHA256")));
    }
    rules.push(Rule::Contains(link.clone()));
    assert(rule_views(rules@) =~= line_rules(link@, version));
    let lines = keep(&split(sums.as_str(), "\n"), &rules);
    let ghost all = texts(lines@);
    let mut out = String::new();
    let mut k: usize = 0;
    assert(all.skip(0) =~= all);
    while k < lines.len()
        invariant
            k <= lines.len(),
            all == texts(lines@),
            all == kept(split_of(sums@, "\n"@), line_rules(link@, version)),
            after_lines(Seq::empty(), all, version) == after_lines(
                out@,
                all.skip(k as int),
                version,
            ),
        decreases lines.len() - k,
    {
        let line = &lines[k];
        assert(all.skip(k as int)[0] == line@);
        assert(all.skip(k as int).drop_first() =~= all.skip(k as int + 1));
        if line.as_str().is_empty() {
            return out;
        }
        if version != 8 {
            let sides = split(line.as_str(), " ");
            assert(texts(sides@).len() == sides@.len());
            if sides.len() == 4 {
                assert(texts(sides@)[3] == sides[3]@);
                out = sides[3].clone();
            }
        } else {
            let sides = split(line.as_str(), "  ");
            assert(texts(sides@).len() == sides@.len());
            if sides.len() == 2 {
                assert(texts(sides@)[0] == sides[0]@);
                out = sides[0].clone();
            }
        }
        k += 1;
    }
    assert(all.skip(k as int).len() == 0);
    out
}

/// The distro of a release with its image at an address and its
/// checksum.
pub fn describe(version: i32, image: String, sha256sum: String) -> (out: Distro)
    ensures
        out@ == described(version, image@, sha256sum@),
{
    let number = int_string(version);
    Distro {
        name: join2("rocky-linux-", number.as_str()),
        download_url: image,
        sha256sum,
        min_size_gb: 10,
        format: String::from_str("waifud://qcow2"),
    }
}

/// The distro for the newest image of a release, from the release's
/// directory and its file of checksums.
pub fn scrape(version: i32, index: &String, html: &String, sums: &String) -> (out: Result<
    Distro,
    Error,
>)
    ensures
        distro_view(out) == distro_of(version, index@, html@, sums@),
{
    let links = images(&anchors(html));
    let address = match image(index, &links) {
        Err(e) => {
            return Err(e);
        },
        Ok(address) => address,
    };
    assert(texts(links@).last() == links[links.len() - 1]@);
    let sha256sum = checksum(sums, &links[links.len() - 1], version);
    match join(&address, address.as_str()) {
        Err(e) => Err(e),
        Ok(download_url) => Ok(describe(version, download_url, sha256sum)),
    }
}

} // verus!

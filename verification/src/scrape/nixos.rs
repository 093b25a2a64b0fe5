//! NixOS images, which are published with a table of their names and
//! checksums.

use crate::models::{Distro, DistroView};
use crate::text::join2;
use vstd::prelude::*;
use vstd::string::*;

verus! {

/// What the table says of one release: the file of its image and the
/// checksum of the file.
#[derive(Clone, Debug)]
pub struct Metadata {
    pub fname: String,
    pub sha256: String,
}

/// What a `Metadata` holds, with its texts as sequences of characters.
pub struct MetadataView {
    pub fname: Seq<char>,
    pub sha256: Seq<char>,
}

impl View for Metadata {
    type V = MetadataView;

    open spec fn view(&self) -> MetadataView {
        MetadataView { fname: self.fname@, sha256: self.sha256@ }
    }
}

/// Where the table of releases is published.
pub open spec fn index() -> Seq<char> {
    "https://xena.greedo.xeserv.us/pkg/nixos/metadata.json"@
}

/// The distro that one entry of the table stands for.
pub open spec fn distro_of(release: Seq<char>, entry: MetadataView) -> DistroView {
    DistroView {
        name: "nixos-"@ + release,
        download_url: "https://xena.greedo.xeserv.us/pkg/nixos/"@ + entry.fname,
        sha256sum: entry.sha256,
        min_size_gb: 8,
        format: "waifud://qcow2"@,
    }
}

/// The views of the entries of a table.
pub open spec fn entry_views(table: Seq<(String, Metadata)>) -> Seq<(Seq<char>, MetadataView)> {
    table.map_values(|e: (String, Metadata)| (e.0@, e.1@))
}

/// The distros that a table stands for, entry by entry.
pub open spec fn distros_of(table: Seq<(Seq<char>, MetadataView)>) -> Seq<DistroView> {
    table.map_values(|e: (Seq<char>, MetadataView)| distro_of(e.0, e.1))
}

/// Where the table of releases is published.
pub fn url() -> (out: String)
    ensures
        out@ == index(),
{
    String::from_str("https://xena.greedo.xeserv.us/pkg/nixos/metadata.json")
}

/// The distros that the table of releases stands for.
pub fn scrape(table: &Vec<(String, Metadata)>) -> (out: Vec<Distro>)
    ensures
        crate::store::distro_views(out@) == distros_of(entry_views(table@)),
{
    let mut out: Vec<Distro> = Vec::new();
    let mut k: usize = 0;
    while k < table.len()
        invariant
            k <= table.len(),
            out.len() == k,
            forall|j: int|
                0 <= j < k ==> (#[trigger] out[j])@ == distro_of(table[j].0@, table[j].1@),
        decreases table.len() - k,
    {
        let entry = &table[k];
        out.push(
            Distro {
                name: join2("nixos-", entry.0.as_str()),
                download_url: join2(
                    "https://xena.greedo.xeserv.us/pkg/nixos/",
                    entry.1.fname.as_str(),
                ),
                sha256sum: entry.1.sha256.clone(),
                min_size_gb: 8,
                format: String::from_str("waifud://qcow2"),
            },
        );
        k += 1;
    }
    assert(crate::store::distro_views(out@) =~= distros_of(entry_views(table@)));
    out
}

} // verus!

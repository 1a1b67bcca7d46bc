//! The ordered scan of the search directories' listings.
use vstd::prelude::*;
use crate::filename_filter::{FileNameFilter, FileNameMatch, SearchFilter};

verus! {

/// One entry of a directory listing: its name and what its metadata says.
pub struct EntryInfo {
    pub name: String,
    pub mode: u32,
    pub is_file: bool,
    pub is_symlink: bool,
}

/// The entries of one search directory, in the order the listing gave them.
pub struct DirListing {
    pub directory: String,
    pub entries: Vec<EntryInfo>,
}

/// A file whose name matched, with the directory it was found in and the
/// range that matched.
#[derive(Debug)]
pub struct MatchedFile {
    pub directory: String,
    pub filename: String,
    pub range: FileNameMatch,
}

/// Some execute bit (owner, group or other) is set in `mode`.
pub open spec fn has_execute_bit(mode: u32) -> bool {
    mode & 0o100 != 0 || mode & 0o010 != 0 || mode & 0o001 != 0
}

/// An entry can be run: it has an execute bit and is a regular file or a
/// symbolic link (execute on a directory only lets it be searched).
pub open spec fn runnable(mode: u32, is_file: bool, is_symlink: bool) -> bool {
    has_execute_bit(mode) && (is_file || is_symlink)
}

pub fn is_executable(mode: u32, is_file: bool, is_symlink: bool) -> (r: bool)
    ensures
        r == runnable(mode, is_file, is_symlink),
{
    assert(mode & 0o111 != 0 <==> (mode & 0o100 != 0 || mode & 0o010 != 0 || mode & 0o001 != 0))
        by (bit_vector);
    mode & 0o111 != 0 && (is_file || is_symlink)
}

/// The entry passes the filter and, where only runnable entries count, can
/// be run.
pub open spec fn selected(filter: SearchFilter, e: EntryInfo, executable_only: bool) -> bool {
    filter.spec_filter(e.name@) is Some && (!executable_only || runnable(
        e.mode,
        e.is_file,
        e.is_symlink,
    ))
}

/// The matches among `entries` of the directory `directory`, in listing order.
pub open spec fn matches_in(
    filter: SearchFilter,
    directory: String,
    entries: Seq<EntryInfo>,
    executable_only: bool,
) -> Seq<MatchedFile>
    decreases entries.len(),
{
    if entries.len() == 0 {
        seq![]
    } else {
        let before = matches_in(filter, directory, entries.drop_last(), executable_only);
        let e = entries.last();
        if selected(filter, e, executable_only) {
            before.push(
                MatchedFile {
                    directory: directory,
                    filename: e.name,
                    range: filter.spec_filter(e.name@)->Some_0,
                },
            )
        } else {
            before
        }
    }
}

/// The matches of a whole scan: each directory's matches, directories in the
/// order of the list.
pub open spec fn scan_matches(
    filter: SearchFilter,
    listings: Seq<DirListing>,
    executable_only: bool,
) -> Seq<MatchedFile>
    decreases listings.len(),
{
    if listings.len() == 0 {
        seq![]
    } else {
        let d = listings.last();
        scan_matches(filter, listings.drop_last(), executable_only) + matches_in(
            filter,
            d.directory,
            d.entries@,
            executable_only,
        )
    }
}

/// For each match of a scan, the position in the list of the directory it
/// came from.
pub open spec fn match_origins(
    filter: SearchFilter,
    listings: Seq<DirListing>,
    executable_only: bool,
) -> Seq<int>
    decreases listings.len(),
{
    if listings.len() == 0 {
        seq![]
    } else {
        let d = listings.last();
        let n = matches_in(filter, d.directory, d.entries@, executable_only).len();
        match_origins(filter, listings.drop_last(), executable_only) + Seq::new(
            n,
            |k: int| listings.len() - 1,
        )
    }
}

proof fn lemma_matches_in_directory(
    filter: SearchFilter,
    directory: String,
    entries: Seq<EntryInfo>,
    executable_only: bool,
)
    ensures
        forall|k: int|
            0 <= k < matches_in(filter, directory, entries, executable_only).len() ==> (#[trigger] matches_in(
                filter,
                directory,
                entries,
                executable_only,
            )[k]).directory == directory,
    decreases entries.len(),
{
    if entries.len() > 0 {
        lemma_matches_in_directory(filter, directory, entries.drop_last(), executable_only);
    }
}

/// Without ranking, the directory list decides the order of the matches:
/// every match comes from a directory of the list, and a match from an
/// earlier directory always comes before a match from a later one.
pub proof fn lemma_directory_order(
    filter: SearchFilter,
    listings: Seq<DirListing>,
    executable_only: bool,
)
    ensures
        match_origins(filter, listings, executable_only).len() == scan_matches(
            filter,
            listings,
            executable_only,
        ).len(),
        forall|k: int|
            0 <= k < scan_matches(filter, listings, executable_only).len() ==> {
                let o = #[trigger] match_origins(filter, listings, executable_only)[k];
                &&& 0 <= o < listings.len()
                &&& scan_matches(filter, listings, executable_only)[k].directory
                    == listings[o].directory
            },
        forall|k: int, l: int|
            0 <= k < l < scan_matches(filter, listings, executable_only).len() ==> #[trigger] match_origins(
                filter,
                listings,
                executable_only,
            )[k] <= #[trigger] match_origins(filter, listings, executable_only)[l],
    decreases listings.len(),
{
    if listings.len() > 0 {
        let rest = listings.drop_last();
        let d = listings.last();
        lemma_directory_order(filter, rest, executable_only);
        lemma_matches_in_directory(filter, d.directory, d.entries@, executable_only);
        let a = scan_matches(filter, rest, executable_only);
        let b = matches_in(filter, d.directory, d.entries@, executable_only);
        let oa = match_origins(filter, rest, executable_only);
        let o = match_origins(filter, listings, executable_only);
        let m = scan_matches(filter, listings, executable_only);
        assert forall|k: int| 0 <= k < m.len() implies {
            let ok = #[trigger] o[k];
            &&& 0 <= ok < listings.len()
            &&& m[k].directory == listings[ok].directory
        } by {
            if k < a.len() {
                assert(o[k] == oa[k]);
                assert(m[k] == a[k]);
                assert(rest[oa[k]] == listings[oa[k]]);
            } else {
                assert(m[k] == b[k - a.len()]);
            }
        }
        assert forall|k: int, l: int| 0 <= k < l < m.len() implies #[trigger] o[k] <= #[trigger] o[l] by {
            if l < a.len() {
                assert(o[k] == oa[k] && o[l] == oa[l]);
            } else if k < a.len() {
                assert(o[k] == oa[k]);
                assert(oa[k] < rest.len());
            }
        }
    }
}

/// Collects, directory by directory and entry by entry, the entries whose
/// names pass the filter and, where `executable_only` holds, that can be run.
pub fn collect_matches(
    listings: &Vec<DirListing>,
    filter: &SearchFilter,
    executable_only: bool,
) -> (r: Vec<MatchedFile>)
    ensures
        r@ == scan_matches(*filter, listings@, executable_only),
{
    let mut found: Vec<MatchedFile> = Vec::new();
    let mut i: usize = 0;
    while i < listings.len()
        invariant
            i <= listings@.len(),
            found@ == scan_matches(*filter, listings@.subrange(0, i as int), executable_only),
        decreases listings@.len() - i,
    {
        let listing = &listings[i];
        let ghost before = found@;
        let mut j: usize = 0;
        while j < listing.entries.len()
            invariant
                j <= listing.entries@.len(),
                found@ == before + matches_in(
                    *filter,
                    listing.directory,
                    listing.entries@.subrange(0, j as int),
                    executable_only,
                ),
            decreases listing.entries@.len() - j,
        {
            let e = &listing.entries[j];
            let outcome = filter.filter(e.name.as_str());
            proof {
                assert(listing.entries@.subrange(0, j + 1).drop_last() =~= listing.entries@.subrange(
                    0,
                    j as int,
                ));
            }
            match outcome {
                Some(range) => {
                    if !executable_only || is_executable(e.mode, e.is_file, e.is_symlink) {
                        found.push(
                            MatchedFile {
                                directory: listing.directory.clone(),
                                filename: e.name.clone(),
                                range,
                            },
                        );
                    }
                },
                None => {},
            }
            j = j + 1;
        }
        proof {
            assert(listing.entries@.subrange(0, j as int) =~= listing.entries@);
            assert(listings@.subrange(0, i + 1).drop_last() =~= listings@.subrange(0, i as int));
        }
        i = i + 1;
    }
    proof {
        assert(listings@.subrange(0, i as int) =~= listings@);
    }
    found
}

} // verus!

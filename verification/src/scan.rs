//! The directory scanner: which entries of the environments directory are
//! environments, and under what names.

use vstd::prelude::*;
use crate::protocol::{ScannedEntry, ScannedEntryView};
use crate::text::views;

verus! {

/// The name given to an entry whose file name is not valid Unicode.
pub open spec fn unknown_name() -> Seq<char> {
    "Unknown"@
}

/// The name under which an entry is listed.
pub open spec fn entry_name(entry: ScannedEntryView) -> Seq<char> {
    match entry.name {
        Some(name) => name,
        None => unknown_name(),
    }
}

/// The names of the environments among the entries of a scan: the
/// directories, in the order of the scan. What is not a directory is left out.
pub open spec fn directory_names(entries: Seq<ScannedEntryView>) -> Seq<Seq<char>> {
    entries.filter(|entry: ScannedEntryView| entry.is_dir).map_values(
        |entry: ScannedEntryView| entry_name(entry),
    )
}

/// The names of the environments among the entries of a scan.
pub fn environment_names(entries: &Vec<ScannedEntry>) -> (names: Vec<String>)
    ensures
        views(names@) == directory_names(views(entries@)),
{
    let ghost all = views(entries@);
    let ghost is_dir = |entry: ScannedEntryView| entry.is_dir;
    let ghost name_of = |entry: ScannedEntryView| entry_name(entry);
    let mut names: Vec<String> = Vec::new();
    let mut i: usize = 0;
    proof {
        reveal(Seq::filter);
        assert(all.take(0) =~= Seq::<ScannedEntryView>::empty());
        assert(views(names@) =~= all.take(0).filter(is_dir).map_values(name_of));
    }
    while i < entries.len()
        invariant
            i <= entries.len(),
            all == views(entries@),
            is_dir == |entry: ScannedEntryView| entry.is_dir,
            name_of == |entry: ScannedEntryView| entry_name(entry),
            views(names@) == all.take(i as int).filter(is_dir).map_values(name_of),
        decreases entries.len() - i,
    {
        let entry = &entries[i];
        let ghost before = views(names@);
        let ghost kept = all.take(i as int).filter(is_dir);
        proof {
            reveal(Seq::filter);
            assert(all.take(i + 1).drop_last() =~= all.take(i as int));
            assert(all.take(i + 1).last() == entry@);
        }
        if entry.is_dir {
            let name = match &entry.name {
                Some(name) => name.clone(),
                None => "Unknown".to_string(),
            };
            names.push(name);
            proof {
                assert(views(names@) =~= before.push(entry_name(entry@)));
                assert(kept.push(entry@).map_values(name_of) =~= kept.map_values(name_of).push(
                    entry_name(entry@),
                ));
            }
        }
        i += 1;
    }
    proof {
        assert(all.take(entries.len() as int) =~= all);
    }
    names
}

} // verus!

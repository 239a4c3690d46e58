//! The paths that a listing of the catalog shows: each folder's path, and
//! the path of each library file and of its sidecars.
use std::collections::BTreeMap;

use vstd::prelude::*;
use vstd::string::*;

use crate::folders::{resolved_path, Folder, Folders};
use crate::libraryfiles::LibraryFile;
use crate::lrobject::LrId;
use crate::text::{chars_of, push_char};

verus! {

broadcast use vstd::std_specs::btree::group_btree_axioms, vstd::laws_cmp::group_laws_cmp;

/// The path that a listing shows for a folder: its resolved path, or its
/// path from the root alone when no root folder has its id.
pub open spec fn listed_path(roots: Seq<crate::folders::RootFolder>, folder: Folder) -> Seq<char> {
    match resolved_path(roots, folder) {
        Some(p) => p,
        None => folder.path_from_root@,
    }
}

/// The non-empty pieces of `s` read so far, and the piece being read, once
/// `s` has been read up to its end.
pub open spec fn pieces_so_far(s: Seq<char>) -> (Seq<Seq<char>>, Seq<char>)
    decreases s.len(),
{
    if s.len() == 0 {
        (Seq::empty(), Seq::empty())
    } else {
        let (done, current) = pieces_so_far(s.drop_last());
        if s.last() == ',' {
            (
                if current.len() > 0 {
                    done.push(current)
                } else {
                    done
                },
                Seq::empty(),
            )
        } else {
            (done, current.push(s.last()))
        }
    }
}

/// The non-empty pieces of a comma separated list, in order.
pub open spec fn comma_pieces(s: Seq<char>) -> Seq<Seq<char>> {
    let (done, current) = pieces_so_far(s);
    if current.len() > 0 {
        done.push(current)
    } else {
        done
    }
}

/// `folder`, `base`, a dot, then `ext`.
pub open spec fn file_path(folder: Seq<char>, base: Seq<char>, ext: Seq<char>) -> Seq<char> {
    folder + base + "."@ + ext
}

/// The paths of a file in `folder`: the file itself, then one per sidecar
/// extension.
pub open spec fn file_entries(f: LibraryFile, folder: Seq<char>) -> Seq<Seq<char>> {
    seq![file_path(folder, f.basename@, f.extension@)] + comma_pieces(f.sidecar_extensions@).map_values(
        |ext: Seq<char>| file_path(folder, f.basename@, ext),
    )
}

/// The paths of the files, in order, of those whose folder has a path.
pub open spec fn file_listing(files: Seq<LibraryFile>, folders: Map<LrId, String>) -> Seq<Seq<char>>
    decreases files.len(),
{
    if files.len() == 0 {
        Seq::empty()
    } else {
        let f = files.last();
        file_listing(files.drop_last(), folders) + if folders.contains_key(f.folder) {
            file_entries(f, folders[f.folder]@)
        } else {
            Seq::empty()
        }
    }
}

pub open spec fn strings_model(v: Seq<String>) -> Seq<Seq<char>> {
    v.map_values(|s: String| s@)
}

/// The non-empty pieces of a comma separated list.
fn split_commas(s: &str) -> (r: Vec<String>)
    ensures
        strings_model(r@) == comma_pieces(s@),
{
    let chars = chars_of(s);
    let mut out: Vec<String> = Vec::new();
    let mut current = String::new();
    let mut k: usize = 0;
    while k < chars.len()
        invariant
            k <= chars.len(),
            chars@ == s@,
            (strings_model(out@), current@) == pieces_so_far(chars@.take(k as int)),
        decreases chars.len() - k,
    {
        assert(chars@.take(k + 1).drop_last() =~= chars@.take(k as int));
        let c = chars[k];
        if c == ',' {
            if current.unicode_len() > 0 {
                let ghost before = out@;
                out.push(current);
                assert(strings_model(out@) =~= strings_model(before).push(out@.last()@));
            }
            current = String::new();
        } else {
            push_char(&mut current, c);
        }
        k += 1;
    }
    assert(chars@.take(chars.len() as int) =~= s@);
    if current.unicode_len() > 0 {
        let ghost before = out@;
        out.push(current);
        assert(strings_model(out@) =~= strings_model(before).push(out@.last()@));
    }
    out
}

/// `folder`, `base`, a dot, then `ext`, as a string.
fn join_path(folder: &str, base: &str, ext: &str) -> (r: String)
    ensures
        r@ == file_path(folder@, base@, ext@),
{
    let mut path = String::from_str(folder);
    path.append(base);
    path.append(".");
    path.append(ext);
    path
}

/// The path that a listing shows for each folder, with the folder's id, in
/// the order of the folders.
pub fn folder_paths(folders: &Folders) -> (r: Vec<(LrId, String)>)
    ensures
        r.len() == folders.folders.len(),
        forall|k: int|
            0 <= k < r.len() ==> (#[trigger] r@[k]).0 == folders.folders@[k].id && r@[k].1@ == listed_path(
                folders.roots@,
                folders.folders@[k],
            ),
{
    let mut out: Vec<(LrId, String)> = Vec::new();
    let mut k: usize = 0;
    while k < folders.folders.len()
        invariant
            k <= folders.folders.len(),
            out.len() == k,
            forall|m: int|
                0 <= m < k ==> (#[trigger] out@[m]).0 == folders.folders@[m].id && out@[m].1@
                    == listed_path(folders.roots@, folders.folders@[m]),
        decreases folders.folders.len() - k,
    {
        let folder = &folders.folders[k];
        let path = match folders.resolve_folder_path(folder) {
            Some(p) => p,
            None => folder.path_from_root.clone(),
        };
        out.push((folder.id, path));
        k += 1;
    }
    out
}

/// The paths of the files whose folder has a path in `folders`, in the
/// order of the files: each file's own path, then the path of each of its
/// sidecars.
pub fn file_paths(libfiles: &Vec<LibraryFile>, folders: &BTreeMap<LrId, String>) -> (r: Vec<String>)
    ensures
        strings_model(r@) == file_listing(libfiles@, folders@),
{
    let mut out: Vec<String> = Vec::new();
    let mut k: usize = 0;
    while k < libfiles.len()
        invariant
            k <= libfiles.len(),
            strings_model(out@) == file_listing(libfiles@.take(k as int), folders@),
        decreases libfiles.len() - k,
    {
        let file = &libfiles[k];
        assert(libfiles@.take(k + 1).drop_last() =~= libfiles@.take(k as int));
        let ghost before = strings_model(out@);
        if let Some(folder) = folders.get(&file.folder) {
            let base = file.basename.as_str();
            out.push(join_path(folder.as_str(), base, file.extension.as_str()));
            let exts = split_commas(file.sidecar_extensions.as_str());
            let mut e: usize = 0;
            while e < exts.len()
                invariant
                    e <= exts.len(),
                    base@ == file.basename@,
                    strings_model(exts@) == comma_pieces(file.sidecar_extensions@),
                    strings_model(out@) == before + seq![file_path(folder@, file.basename@, file.extension@)]
                        + comma_pieces(file.sidecar_extensions@).take(e as int).map_values(
                        |x: Seq<char>| file_path(folder@, file.basename@, x),
                    ),
                decreases exts.len() - e,
            {
                let ghost prev = out@;
                let ghost pieces = comma_pieces(file.sidecar_extensions@);
                assert(exts@[e as int]@ == pieces[e as int]);
                let path = join_path(folder.as_str(), base, exts[e].as_str());
                let ghost pv = path@;
                assert(pv == file_path(folder@, file.basename@, pieces[e as int]));
                out.push(path);
                let ghost head = before + seq![file_path(folder@, file.basename@, file.extension@)];
                let ghost done = pieces.take(e as int).map_values(
                    |x: Seq<char>| file_path(folder@, file.basename@, x),
                );
                assert(strings_model(out@) =~= strings_model(prev).push(pv));
                assert(pieces.take(e + 1).map_values(|x: Seq<char>| file_path(folder@, file.basename@, x))
                    =~= done.push(pv));
                assert(head + done.push(pv) =~= (head + done).push(pv));
                e += 1;
            }
            assert(comma_pieces(file.sidecar_extensions@).take(exts.len() as int)
                =~= comma_pieces(file.sidecar_extensions@));
            assert(strings_model(out@) =~= before + file_entries(*file, folder@));
        } else {
            assert(strings_model(out@) =~= before + Seq::<Seq<char>>::empty());
        }
        k += 1;
    }
    assert(libfiles@.take(libfiles.len() as int) =~= libfiles@);
    out
}

} // verus!

//! Candidate selection for one job: name-based exclusion of path
//! components, destination-key computation, and the assembly of the task
//! queue from the files found under the local root. The enumeration of
//! the directory tree itself is a collaborator's concern; every decision
//! about what it found is made — and proved — here.

use vstd::prelude::*;
use crate::structs::{FileEntry, SyncTask};
use crate::text::{norm_seps, normalize_separators, strip_slash, strip_trailing_slash};

verus! {

/// A path separator, whichever kind the host writes.
pub open spec fn is_sep(c: char) -> bool {
    c == '/' || c == '\\'
}

/// The position of the first separator, or the length if there is none.
pub open spec fn idx_first_sep(s: Seq<char>) -> nat
    decreases s.len(),
{
    if s.len() == 0 {
        0
    } else if is_sep(s[0]) {
        0
    } else {
        1 + idx_first_sep(s.drop_first())
    }
}

/// The components of a path: the maximal separator-free pieces, in
/// order; separators themselves and empty pieces (doubled separators, a
/// leading root separator) carry no name and are dropped.
pub open spec fn components_of(s: Seq<char>) -> Seq<Seq<char>>
    decreases s.len(),
{
    let i = idx_first_sep(s) as int;
    if s.len() == 0 {
        Seq::empty()
    } else if i == 0 {
        components_of(s.drop_first())
    } else if i >= s.len() {
        seq![s]
    } else {
        seq![s.subrange(0, i)] + components_of(s.subrange(i + 1, s.len() as int))
    }
}

/// The text of each string, as mathematical values.
pub open spec fn strings_views(v: Seq<String>) -> Seq<Seq<char>> {
    v.map_values(|x: String| x@)
}

/// `path` lies under `root`: it reads as the root, a separator, and a
/// nonempty remainder.
pub open spec fn spec_under_root(path: Seq<char>, root: Seq<char>) -> bool {
    path.len() > root.len() + 1 && path.subrange(0, root.len() as int) == root && path[root.len() as int]
        == '/'
}

/// If the first `k` characters are not separators and the one after them
/// is (or the text ends there), the first separator is at `k`.
proof fn lemma_idx_first_sep_is(s: Seq<char>, k: int)
    requires
        0 <= k <= s.len(),
        forall|j: int| 0 <= j < k ==> !is_sep(s[j]),
        k < s.len() ==> is_sep(s[k]),
    ensures
        idx_first_sep(s) == k,
    decreases k,
{
    if k > 0 {
        lemma_idx_first_sep_is(s.drop_first(), k - 1);
    }
}

/// Some path component equals some name of the exclusion set.
pub open spec fn spec_excluded(components: Seq<String>, ignores: Seq<String>) -> bool {
    exists|i: int, j: int|
        0 <= i < components.len() && 0 <= j < ignores.len() && components[i]@ == ignores[j]@
}

/// The destination key of a file: the remote root, a separator, and the
/// root-relative path with its separators normalized.
pub open spec fn spec_dest_key(remote_root: Seq<char>, rel: Seq<char>) -> Seq<char> {
    remote_root + seq!['/'] + norm_seps(rel)
}

/// The task queue assembled from the files found under the local root:
/// one task per file that no exclusion name matches, in discovery order,
/// keyed under the remote root.
pub open spec fn spec_collect(
    files: Seq<FileEntry>,
    ignores: Seq<String>,
    remote_root: Seq<char>,
) -> Seq<(Seq<char>, Seq<char>)>
    decreases files.len(),
{
    if files.len() == 0 {
        Seq::empty()
    } else {
        let last = files[files.len() - 1];
        spec_collect(files.drop_last(), ignores, remote_root) + if spec_excluded(
            last.components@,
            ignores,
        ) {
            Seq::empty()
        } else {
            seq![(last.path@, spec_dest_key(remote_root, last.rel@))]
        }
    }
}

/// The source path and destination key of each task, as mathematical
/// values.
pub open spec fn task_views(tasks: Seq<SyncTask>) -> Seq<(Seq<char>, Seq<char>)> {
    tasks.map_values(|t: SyncTask| (t.from@, t.to@))
}

/// One job's full exclusion set: the globally configured names followed
/// by the names the task itself carries.
pub fn concat_ignores(global: &Vec<String>, own: &Vec<String>) -> (r: Vec<String>)
    ensures
        r@ == global@ + own@,
{
    let mut r: Vec<String> = Vec::new();
    let mut i: usize = 0;
    while i < global.len()
        invariant
            i <= global@.len(),
            r@ =~= global@.subrange(0, i as int),
        decreases global@.len() - i,
    {
        r.push(global[i].clone());
        proof {
            assert(r@ =~= global@.subrange(0, i + 1 as int));
        }
        i = i + 1;
    }
    let mut j: usize = 0;
    while j < own.len()
        invariant
            j <= own@.len(),
            r@ =~= global@ + own@.subrange(0, j as int),
        decreases own@.len() - j,
    {
        r.push(own[j].clone());
        proof {
            assert(r@ =~= global@ + own@.subrange(0, j + 1 as int));
        }
        j = j + 1;
    }
    proof {
        assert(global@ + own@.subrange(0, own@.len() as int) =~= global@ + own@);
    }
    r
}

/// Whether some name of `ignores` equals `name`, character for character.
pub fn name_in_set(ignores: &Vec<String>, name: &String) -> (r: bool)
    ensures
        r == exists|j: int| 0 <= j < ignores@.len() && ignores@[j]@ == name@,
{
    let n = ignores.len();
    let mut j: usize = 0;
    while j < n
        invariant
            n == ignores@.len(),
            j <= n,
            forall|k: int| 0 <= k < j ==> ignores@[k]@ != name@,
        decreases n - j,
    {
        if crate::text::str_eq(ignores[j].as_str(), name.as_str()) {
            return true;
        }
        j = j + 1;
    }
    false
}

/// Whether a file is excluded: every component of its path — not just the
/// leaf name — is checked against the exclusion set, and any match
/// excludes the whole file, at any nesting depth.
pub fn is_excluded(components: &Vec<String>, ignores: &Vec<String>) -> (r: bool)
    ensures
        r == spec_excluded(components@, ignores@),
{
    let n = components.len();
    let mut i: usize = 0;
    while i < n
        invariant
            n == components@.len(),
            i <= n,
            forall|k: int, j: int|
                0 <= k < i && 0 <= j < ignores@.len() ==> components@[k]@ != ignores@[j]@,
        decreases n - i,
    {
        if name_in_set(ignores, &components[i]) {
            return true;
        }
        i = i + 1;
    }
    false
}

/// A component that is in the exclusion set excludes the file, however
/// deeply it is nested under the root.
pub proof fn lemma_excluded_component_excludes_file(
    components: Seq<String>,
    ignores: Seq<String>,
    i: int,
    j: int,
)
    requires
        0 <= i < components.len(),
        0 <= j < ignores.len(),
        components[i]@ == ignores[j]@,
    ensures
        spec_excluded(components, ignores),
{
}

/// Split a path into its components: the separator-free pieces, in
/// order, with empty pieces dropped.
pub fn split_components(path: &str) -> (r: Vec<String>)
    ensures
        strings_views(r@) == components_of(path@),
{
    let n = path.unicode_len();
    let mut r: Vec<String> = Vec::new();
    let mut start: usize = 0;
    let mut i: usize = 0;
    proof {
        assert(strings_views(r@) =~= Seq::<Seq<char>>::empty());
        assert(path@.skip(0) =~= path@);
    }
    while i < n
        invariant
            n == path@.len(),
            start <= i <= n,
            forall|j: int| start <= j < i ==> !is_sep(path@[j]),
            components_of(path@) =~= strings_views(r@) + components_of(
                path@.skip(start as int),
            ),
        decreases n - i,
    {
        let c = path.get_char(i);
        if c == '/' || c == '\\' {
            proof {
                let t = path@.skip(start as int);
                lemma_idx_first_sep_is(t, i - start);
                if i > start {
                    assert(t.subrange(0, i - start) =~= path@.subrange(start as int, i as int));
                    assert(t.subrange(i - start + 1, t.len() as int) =~= path@.skip(i + 1));
                } else {
                    assert(t.drop_first() =~= path@.skip(i + 1));
                }
            }
            if i > start {
                let seg = path.substring_char(start, i).to_owned();
                r.push(seg);
                proof {
                    assert(strings_views(r@) =~= strings_views(r@.drop_last()).push(
                        path@.subrange(start as int, i as int),
                    ));
                }
            }
            start = i + 1;
        }
        i = i + 1;
    }
    proof {
        let t = path@.skip(start as int);
        lemma_idx_first_sep_is(t, n - start);
    }
    if start < n {
        let seg = path.substring_char(start, n).to_owned();
        r.push(seg);
        proof {
            assert(path@.skip(start as int) =~= path@.subrange(start as int, n as int));
            assert(strings_views(r@) =~= strings_views(r@.drop_last()).push(
                path@.subrange(start as int, n as int),
            ));
        }
    }
    r
}

/// The path of a file relative to the local root, or nothing if the file
/// does not lie under it. The root may carry one trailing slash; reads
/// trim it first.
pub fn strip_path_prefix(path: &str, root: &str) -> (r: Option<String>)
    ensures
        match r {
            Option::Some(rel) => spec_under_root(path@, strip_slash(root@)) && rel@
                == path@.subrange(strip_slash(root@).len() as int + 1, path@.len() as int),
            Option::None => !spec_under_root(path@, strip_slash(root@)),
        },
{
    let rt = strip_trailing_slash(root);
    let rn = rt.as_str().unicode_len();
    let pn = path.unicode_len();
    if pn <= rn {
        return Option::None;
    }
    if pn - rn < 2 {
        return Option::None;
    }
    let prefix = path.substring_char(0, rn);
    if !crate::text::str_eq(prefix, rt.as_str()) {
        return Option::None;
    }
    if path.get_char(rn) != '/' {
        return Option::None;
    }
    let rel = path.substring_char(rn + 1, pn).to_owned();
    Option::Some(rel)
}

/// Build the walker's record for one file the enumeration found: its
/// path, its components for the exclusion check, and its root-relative
/// path for the destination key — or nothing if it does not lie under
/// the root.
pub fn walk_entry(path: &str, root: &str) -> (r: Option<FileEntry>)
    ensures
        match r {
            Option::Some(e) => spec_under_root(path@, strip_slash(root@)) && e.path@ == path@
                && strings_views(e.components@) == components_of(path@) && e.rel@
                == path@.subrange(strip_slash(root@).len() as int + 1, path@.len() as int),
            Option::None => !spec_under_root(path@, strip_slash(root@)),
        },
{
    match strip_path_prefix(path, root) {
        Option::Some(rel) => Option::Some(
            FileEntry { path: path.to_owned(), components: split_components(path), rel },
        ),
        Option::None => Option::None,
    }
}

/// Compute a file's destination key from the remote root and its path
/// relative to the local root.
pub fn dest_key(remote_root: &str, rel: &str) -> (r: String)
    ensures
        r@ == spec_dest_key(remote_root@, rel@),
{
    let norm = normalize_separators(rel);
    let r = remote_root.to_owned().concat("/").concat(norm.as_str());
    proof {
        reveal_strlit("/");
        assert("/"@ =~= seq!['/']);
    }
    r
}

/// Assemble the task queue for one job: keep every file that the
/// exclusion set does not match, in the order the walk found them, each
/// keyed under the remote root.
pub fn collect_tasks(files: &Vec<FileEntry>, ignores: &Vec<String>, remote_root: &str) -> (r: Vec<
    SyncTask,
>)
    ensures
        task_views(r@) == spec_collect(files@, ignores@, remote_root@),
{
    let n = files.len();
    let mut r: Vec<SyncTask> = Vec::new();
    let mut i: usize = 0;
    while i < n
        invariant
            n == files@.len(),
            i <= n,
            task_views(r@) == spec_collect(files@.subrange(0, i as int), ignores@, remote_root@),
        decreases n - i,
    {
        let entry = &files[i];
        if !is_excluded(&entry.components, ignores) {
            let to = dest_key(remote_root, entry.rel.as_str());
            let task = SyncTask { from: entry.path.clone(), to };
            r.push(task);
        }
        proof {
            let fpre = files@.subrange(0, i as int);
            let fcur = files@.subrange(0, i + 1 as int);
            assert(fcur.drop_last() =~= fpre);
            assert(fcur[fcur.len() - 1] == files@[i as int]);
            if spec_excluded(files@[i as int].components@, ignores@) {
                assert(task_views(r@) =~= spec_collect(fcur, ignores@, remote_root@));
            } else {
                assert(task_views(r@) =~= spec_collect(fpre, ignores@, remote_root@) + seq![
                    (files@[i as int].path@, spec_dest_key(remote_root@, files@[i as int].rel@)),
                ]);
            }
        }
        i = i + 1;
    }
    proof {
        assert(files@.subrange(0, n as int) =~= files@);
    }
    r
}

} // verus!

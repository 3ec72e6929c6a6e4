//! File operations below a base directory: where a file of a stage stands,
//! which name is free for it, and what a move or a save has to do.

use vstd::prelude::*;
use vstd::string::*;
use vstd::set_lib::{lemma_int_range, lemma_len_subset, lemma_map_size, set_int_range};
use crate::name_laws::lemma_numbered_is_injective;
use crate::names::{
    has_file_name, is_file_name, join_path, joined, make_new_name, numbered_name,
};
use crate::text::{owned, same_text};

verus! {

/// Why a file operation is refused.
#[derive(Debug)]
pub enum FilerError {
    /// The file at this path does not exist.
    Missing(String),
    /// Every candidate name is taken.
    NoFreeName,
}

impl FilerError {
    /// The error as a line of text.
    pub fn message(&self) -> (r: String)
        ensures
            match *self {
                FilerError::Missing(p) => r@ == "File "@ + p@ + " does not exist"@,
                FilerError::NoFreeName => r@ == "No free name"@,
            },
    {
        match self {
            FilerError::Missing(p) => {
                let mut r = owned("File ");
                r.append(p.as_str());
                r.append(" does not exist");
                r
            },
            FilerError::NoFreeName => owned("No free name"),
        }
    }
}

/// The largest number that is tried as a suffix of a name.
pub const MAX_SUFFIX: i32 = 2147483647;

/// Where a file is written: its directory, which is created where it is
/// missing, and its path.
#[derive(Debug)]
pub struct Target {
    pub dir: String,
    pub path: String,
}

/// A text file that is to be written.
#[derive(Debug)]
pub struct TextFile {
    pub target: Target,
    pub content: String,
}

/// A move of one file. The directory of `dest` is created where it is
/// missing; a file that stands at `dest` is removed first where `remove_dest`
/// says so; then `source` is renamed to `dest`.
#[derive(Debug)]
pub struct MovePlan {
    pub source: String,
    pub dest_dir: String,
    pub dest: String,
    pub remove_dest: bool,
}

/// `base` and `folder` joined by `/`.
pub open spec fn stage_dir(base: Seq<char>, folder: Seq<char>) -> Seq<char> {
    base + seq!['/'] + folder
}

/// The names that a listing holds.
pub open spec fn names_of(taken: Seq<String>) -> Set<Seq<char>> {
    Set::new(|n: Seq<char>| exists|i: int| 0 <= i < taken.len() && (#[trigger] taken[i])@ == n)
}

/// The number of the first candidate for `name`, from `k` on, that is not in
/// `taken`; none where all of them up to the largest suffix are taken.
pub open spec fn first_free_from(name: Seq<char>, taken: Set<Seq<char>>, k: int) -> Option<int>
    decreases 2147483647 - k + 1,
{
    if k < 0 || k > 2147483647 {
        None
    } else if !taken.contains(numbered_name(name, k)) {
        Some(k)
    } else {
        first_free_from(name, taken, k + 1)
    }
}

/// The collision-free name for `name` in a directory that holds `taken`: the
/// first candidate that is not taken.
pub open spec fn free_name(name: Seq<char>, taken: Set<Seq<char>>) -> Option<Seq<char>> {
    match first_free_from(name, taken, 0) {
        Some(k) => Some(numbered_name(name, k)),
        None => None,
    }
}

/// Tells whether a path exists. Wraps `std::path::Path::exists`; the answer
/// depends on the disk, so nothing is claimed of it.
#[verifier::external_body]
fn path_exists(path: &str) -> (r: bool) {
    std::path::Path::new(path).exists()
}

/// Tells whether `name` is in `taken`.
pub fn contains_name(taken: &Vec<String>, name: &str) -> (r: bool)
    ensures
        r == names_of(taken@).contains(name@),
{
    let mut i: usize = 0;
    while i < taken.len()
        invariant
            i <= taken.len(),
            forall|j: int| 0 <= j < i ==> (#[trigger] taken@[j])@ != name@,
        decreases taken.len() - i,
    {
        if same_text(taken[i].as_str(), name) {
            return true;
        }
        i = i + 1;
    }
    false
}

/// File operations below one base directory.
#[derive(Debug)]
pub struct Filer {
    base_dir: String,
}

impl Clone for Filer {
    fn clone(&self) -> (r: Self)
        ensures
            r.base() == self.base(),
    {
        Filer { base_dir: owned(self.base_dir.as_str()) }
    }
}

impl Filer {
    /// The base directory.
    pub closed spec fn base(&self) -> Seq<char> {
        self.base_dir@
    }

    /// A filer for the stage directories below `base_dir`.
    pub fn new(base_dir: &str) -> (r: Self)
        ensures
            r.base() == base_dir@,
    {
        Filer { base_dir: owned(base_dir) }
    }

    /// The base directory.
    pub fn base_dir(&self) -> (r: &str)
        ensures
            r@ == self.base(),
    {
        self.base_dir.as_str()
    }

    /// The directory of the stage `folder`: the one whose files are listed
    /// before a name is chosen in it.
    pub fn dir_of(&self, folder: &str) -> (r: String)
        ensures
            r@ == stage_dir(self.base(), folder@),
    {
        let mut dir = owned(self.base_dir.as_str());
        dir.append("/");
        dir.append(folder);
        proof {
            reveal_strlit("/");
            assert("/"@ =~= seq!['/']);
        }
        dir
    }

    /// Where the file `f_name` of the stage `folder` stands.
    pub fn target(&self, f_name: &str, folder: &str) -> (r: Target)
        ensures
            r.dir@ == stage_dir(self.base(), folder@),
            r.path@ == joined(self.base(), folder@, f_name@),
    {
        Target { dir: self.dir_of(folder), path: join_path(self.base_dir.as_str(), folder, f_name) }
    }

    /// The text file `f_name` of the stage `folder`, with `txt` as its content.
    pub fn save_txt(&self, f_name: &str, folder: &str, txt: &str) -> (r: TextFile)
        ensures
            r.target.dir@ == stage_dir(self.base(), folder@),
            r.target.path@ == joined(self.base(), folder@, f_name@),
            r.content@ == txt@,
    {
        TextFile { target: self.target(f_name, folder), content: owned(txt) }
    }

    /// Where a stream is written that becomes the file `f_name` of the stage
    /// `folder`.
    pub fn save_stream(&self, f_name: &str, folder: &str) -> (r: Target)
        ensures
            r.dir@ == stage_dir(self.base(), folder@),
            r.path@ == joined(self.base(), folder@, f_name@),
    {
        self.target(f_name, folder)
    }

    /// The collision-free name for `f_name` in a stage directory that holds
    /// the files `taken`: `f_name` itself where no file has that name, else
    /// the first of `file.1.wav`, `file.2.wav`, ... that no file has. It
    /// fails only where every candidate is taken, which for the name of a
    /// file takes a directory of more than 2147483647 files.
    pub fn non_existing_name(&self, f_name: &str, taken: &Vec<String>) -> (r: Result<
        String,
        FilerError,
    >)
        ensures
            match free_name(f_name@, names_of(taken@)) {
                Some(n) => r is Ok && r->Ok_0@ == n,
                None => r is Err && r->Err_0 is NoFreeName,
            },
            r is Ok ==> !names_of(taken@).contains(r->Ok_0@),
            has_file_name(f_name@) && taken@.len() <= 2147483647 ==> r is Ok,
            !names_of(taken@).contains(f_name@) ==> r is Ok && r->Ok_0@ == f_name@,
    {
        proof {
            lemma_free_name_is_free(f_name@, names_of(taken@));
            lemma_names_of_is_finite(taken@);
            if has_file_name(f_name@) && taken@.len() <= 2147483647 {
                lemma_free_name_exists(f_name@, names_of(taken@));
            }
        }
        if !is_file_name(f_name) {
            // every candidate is the name itself
            proof {
                lemma_first_free(f_name@, names_of(taken@), 0);
            }
            if contains_name(taken, f_name) {
                return Err(FilerError::NoFreeName);
            }
            return Ok(owned(f_name));
        }
        let mut i: i32 = 0;
        loop
            invariant
                0 <= i <= 2147483647,
                first_free_from(f_name@, names_of(taken@), 0) == first_free_from(
                    f_name@,
                    names_of(taken@),
                    i as int,
                ),
                has_file_name(f_name@) && taken@.len() <= 2147483647 ==> free_name(
                    f_name@,
                    names_of(taken@),
                ) is Some,
                !names_of(taken@).contains(f_name@) ==> free_name(f_name@, names_of(taken@))
                    == Some(f_name@),
            decreases 2147483647 - i,
        {
            let candidate = make_new_name(f_name, i);
            if !contains_name(taken, candidate.as_str()) {
                return Ok(candidate);
            }
            if i == MAX_SUFFIX {
                return Err(FilerError::NoFreeName);
            }
            i = i + 1;
        }
    }

    /// The move of `f_name` in `dir_from` to `to_name` in `dir_to`, given
    /// what the disk holds: a missing source is an error, and a file that
    /// stands at the destination is removed first.
    pub fn plan_move(
        &self,
        f_name: &str,
        to_name: &str,
        dir_from: &str,
        dir_to: &str,
        source_exists: bool,
        dest_exists: bool,
    ) -> (r: Result<MovePlan, FilerError>)
        ensures
            !source_exists ==> r is Err && r->Err_0 is Missing && r->Err_0->Missing_0@ == joined(
                self.base(),
                dir_from@,
                f_name@,
            ),
            source_exists ==> r is Ok && r->Ok_0.source@ == joined(self.base(), dir_from@, f_name@)
                && r->Ok_0.dest@ == joined(self.base(), dir_to@, to_name@) && r->Ok_0.dest_dir@
                == stage_dir(self.base(), dir_to@) && r->Ok_0.remove_dest == dest_exists,
    {
        let source = join_path(self.base_dir.as_str(), dir_from, f_name);
        if !source_exists {
            return Err(FilerError::Missing(source));
        }
        let to = self.target(to_name, dir_to);
        Ok(MovePlan { source, dest_dir: to.dir, dest: to.path, remove_dest: dest_exists })
    }

    /// The move of `f_name` in `dir_from` to `to_name` in `dir_to`, with the
    /// source and the destination probed on disk.
    pub fn move_to(&self, f_name: &str, to_name: &str, dir_from: &str, dir_to: &str) -> (r: Result<
        MovePlan,
        FilerError,
    >)
        ensures
            match r {
                Ok(plan) => plan.source@ == joined(self.base(), dir_from@, f_name@) && plan.dest@
                    == joined(self.base(), dir_to@, to_name@) && plan.dest_dir@ == stage_dir(
                    self.base(),
                    dir_to@,
                ),
                Err(e) => e is Missing && e->Missing_0@ == joined(self.base(), dir_from@, f_name@),
            },
    {
        let source = join_path(self.base_dir.as_str(), dir_from, f_name);
        let dest = join_path(self.base_dir.as_str(), dir_to, to_name);
        let source_exists = path_exists(source.as_str());
        let dest_exists = path_exists(dest.as_str());
        self.plan_move(f_name, to_name, dir_from, dir_to, source_exists, dest_exists)
    }

    /// The removal of `f_name` in the stage `folder`, given whether it is
    /// there: a missing file is an error.
    pub fn plan_delete(&self, f_name: &str, folder: &str, exists: bool) -> (r: Result<
        String,
        FilerError,
    >)
        ensures
            exists ==> r is Ok && r->Ok_0@ == joined(self.base(), folder@, f_name@),
            !exists ==> r is Err && r->Err_0 is Missing && r->Err_0->Missing_0@ == joined(
                self.base(),
                folder@,
                f_name@,
            ),
    {
        let path = join_path(self.base_dir.as_str(), folder, f_name);
        if exists {
            Ok(path)
        } else {
            Err(FilerError::Missing(path))
        }
    }

    /// The removal of `f_name` in the stage `folder`, probed on disk.
    pub fn delete(&self, f_name: &str, folder: &str) -> (r: Result<String, FilerError>)
        ensures
            match r {
                Ok(p) => p@ == joined(self.base(), folder@, f_name@),
                Err(e) => e is Missing && e->Missing_0@ == joined(self.base(), folder@, f_name@),
            },
    {
        let path = join_path(self.base_dir.as_str(), folder, f_name);
        let exists = path_exists(path.as_str());
        self.plan_delete(f_name, folder, exists)
    }
}

/// The collision-free name is a candidate that is not taken, and every
/// candidate before it is taken.
pub proof fn lemma_first_free(name: Seq<char>, taken: Set<Seq<char>>, k: int)
    requires
        0 <= k <= 2147483647,
    ensures
        match first_free_from(name, taken, k) {
            Some(f) => k <= f <= 2147483647 && !taken.contains(numbered_name(name, f)) && forall|
                j: int,
            |
                k <= j < f ==> taken.contains(#[trigger] numbered_name(name, j)),
            None => forall|j: int|
                k <= j <= 2147483647 ==> taken.contains(#[trigger] numbered_name(name, j)),
        },
    decreases 2147483647 - k,
{
    if taken.contains(numbered_name(name, k)) {
        if k < 2147483647 {
            lemma_first_free(name, taken, k + 1);
        } else {
            assert(first_free_from(name, taken, k + 1) is None);
        }
    }
}

/// The names of a listing are finitely many: at most as many as the listing
/// is long.
pub proof fn lemma_names_of_is_finite(taken: Seq<String>)
    ensures
        names_of(taken).finite(),
        names_of(taken).len() <= taken.len(),
{
    broadcast use vstd::seq_lib::seq_to_set_is_finite;

    let views = taken.map_values(|s: String| s@);
    assert forall|n: Seq<char>| names_of(taken).contains(n) == views.to_set().contains(n) by {
        if names_of(taken).contains(n) {
            let i = choose|i: int| 0 <= i < taken.len() && (#[trigger] taken[i])@ == n;
            assert(views[i] == n);
            assert(views.contains(n));
        }
        if views.to_set().contains(n) {
            let i = choose|i: int| 0 <= i < views.len() && views[i] == n;
            assert(taken[i]@ == n);
        }
    }
    assert(names_of(taken) =~= views.to_set());
    views.lemma_cardinality_of_set();
}

/// A free name is owed: for the name of a file, a directory that holds
/// fewer files than there are candidates leaves one of them free.
pub proof fn lemma_free_name_exists(name: Seq<char>, taken: Set<Seq<char>>)
    requires
        has_file_name(name),
        taken.finite(),
        taken.len() <= 2147483647,
    ensures
        free_name(name, taken) is Some,
{
    if free_name(name, taken) is None {
        lemma_first_free(name, taken, 0);
        let f = |k: int| numbered_name(name, k);
        let candidates = set_int_range(0, 2147483648);
        lemma_int_range(0, 2147483648);
        assert forall|j: int, k: int|
            candidates.contains(j) && candidates.contains(k) && #[trigger] f(j) == #[trigger] f(
                k,
            ) implies j == k by {
            lemma_numbered_is_injective(name, j, k);
        }
        let names = candidates.map(f);
        lemma_map_size(candidates, names, f);
        assert forall|n: Seq<char>| names.contains(n) implies taken.contains(n) by {
            let k = choose|k: int| candidates.contains(k) && n == f(k);
            assert(taken.contains(numbered_name(name, k)));
        }
        lemma_len_subset(names, taken);
    }
}

/// The collision-free name does not exist in the directory it was chosen for.
pub proof fn lemma_free_name_is_free(name: Seq<char>, taken: Set<Seq<char>>)
    ensures
        free_name(name, taken) is Some ==> !taken.contains(free_name(name, taken)->0),
        !taken.contains(name) ==> free_name(name, taken) == Some(name),
{
    lemma_first_free(name, taken, 0);
}

/// A name that is added to a listing is among its names, and so are the
/// names that were there before.
pub proof fn lemma_realised_name_is_listed(taken: Seq<String>, added: String)
    ensures
        names_of(taken.push(added)).contains(added@),
        forall|n: Seq<char>| names_of(taken).contains(n) ==> names_of(taken.push(added)).contains(n),
{
    let later = taken.push(added);
    assert(later[taken.len() as int]@ == added@);
    assert forall|n: Seq<char>| names_of(taken).contains(n) implies names_of(later).contains(
        n,
    ) by {
        let i = choose|i: int| 0 <= i < taken.len() && (#[trigger] taken[i])@ == n;
        assert(later[i]@ == n);
    }
}

/// Once a returned name is realised in the directory, the next call returns
/// another name.
pub proof fn lemma_repeated_names_differ(
    name: Seq<char>,
    taken: Set<Seq<char>>,
    later: Set<Seq<char>>,
)
    requires
        free_name(name, taken) is Some,
        later.contains(free_name(name, taken)->0),
    ensures
        free_name(name, later) is Some ==> free_name(name, later)->0 != free_name(name, taken)->0,
{
    lemma_free_name_is_free(name, later);
}

} // verus!

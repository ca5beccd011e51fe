use vstd::prelude::*;
use crate::paths::{join_path, lies_in, plain_name, verbatim_like};

verus! {

/// The suffix tried after a command name that has no extension.
pub open spec fn exe_suffix() -> Seq<char> {
    seq!['.', 'e', 'x', 'e']
}

/// The names under which `command` is looked for: the name itself and, when it
/// has no extension, the name with the executable suffix.
pub open spec fn candidate_names_of(command: Seq<char>, has_extension: bool) -> Seq<Seq<char>> {
    if has_extension {
        seq![command]
    } else {
        seq![command, command + exe_suffix()]
    }
}

/// A plain name has an extension when a `.` stands in it after its first character.
pub open spec fn plain_name_has_extension(name: Seq<char>) -> bool {
    exists|i: int| 1 <= i < name.len() && name[i] == '.'
}

/// Relies on `std::path::Path::extension`: a path with no `.` in it has no
/// extension; a plain name is its own file name, which has an extension unless
/// it has no `.` or its one `.` leads it.
#[verifier::external_body]
fn path_has_extension(command: &str) -> (r: bool)
    ensures
        !command@.contains('.') ==> !r,
        plain_name(command@) ==> r == plain_name_has_extension(command@),
{
    std::path::Path::new(command).extension().is_some()
}

/// The names under which `command` is looked for, given whether it has an extension.
pub fn candidate_names(command: &str, has_extension: bool) -> (r: Vec<String>)
    ensures
        r@.len() == candidate_names_of(command@, has_extension).len(),
        forall|i: int| 0 <= i < r@.len() ==> #[trigger] r@[i]@ == candidate_names_of(command@, has_extension)[i],
{
    let mut r: Vec<String> = Vec::new();
    r.push(command.to_owned());
    if !has_extension {
        let mut with_suffix = command.to_owned();
        with_suffix.append(".exe");
        proof {
            reveal_strlit(".exe");
        }
        r.push(with_suffix);
    }
    r
}

/// The names under which `command` is looked for on this host.
pub fn executable_candidates(command: &str) -> (r: Vec<String>)
    ensures
        exists|e: bool| #![auto] r@.len() == candidate_names_of(command@, e).len()
            && forall|i: int| 0 <= i < r@.len() ==> #[trigger] r@[i]@ == candidate_names_of(command@, e)[i],
        !command@.contains('.') ==> r@.len() == 2,
        plain_name(command@) ==> r@.len() == candidate_names_of(command@, plain_name_has_extension(command@)).len(),
        plain_name(command@) ==> forall|i: int|
            0 <= i < r@.len() ==> #[trigger] r@[i]@ == candidate_names_of(command@, plain_name_has_extension(command@))[i],
{
    let e = path_has_extension(command);
    candidate_names(command, e)
}

/// The paths probed for an executable, in order: `command` taken as a path,
/// then each candidate name in each search directory, directory by directory.
/// A candidate that is a plain file name lies directly below its directory,
/// where that directory has no verbatim prefix.
pub fn resolution_probes(command: &str, candidates: &Vec<String>, dirs: &Vec<String>) -> (r: Vec<String>)
    requires
        1 + dirs@.len() * candidates@.len() <= usize::MAX,
    ensures
        r@.len() == 1 + dirs@.len() * candidates@.len(),
        r@[0]@ == command@,
        forall|i: int, j: int|
            #![trigger dirs@[i], candidates@[j]]
            0 <= i < dirs@.len() && 0 <= j < candidates@.len() && plain_name(candidates@[j]@) && !verbatim_like(dirs@[i]@) ==> lies_in(
                r@[1 + i * candidates@.len() + j]@,
                dirs@[i]@,
                candidates@[j]@,
            ),
{
    let n = candidates.len();
    let mut r: Vec<String> = Vec::new();
    r.push(command.to_owned());
    let mut i: usize = 0;
    while i < dirs.len()
        invariant
            n == candidates@.len(),
            1 + dirs@.len() * n <= usize::MAX,
            0 <= i <= dirs@.len(),
            r@.len() == 1 + i * n,
            r@[0]@ == command@,
            forall|a: int, b: int|
                #![trigger dirs@[a], candidates@[b]]
                0 <= a < i && 0 <= b < n && plain_name(candidates@[b]@) && !verbatim_like(dirs@[a]@) ==> lies_in(
                    r@[1 + a * n + b]@,
                    dirs@[a]@,
                    candidates@[b]@,
                ),
        decreases dirs@.len() - i,
    {
        assert((i + 1) * n <= dirs@.len() * n) by (nonlinear_arith)
            requires i + 1 <= dirs@.len();
        let mut j: usize = 0;
        while j < n
            invariant
                n == candidates@.len(),
                1 + dirs@.len() * n <= usize::MAX,
                (i + 1) * n <= dirs@.len() * n,
                0 <= i < dirs@.len(),
                0 <= j <= n,
                r@.len() == 1 + i * n + j,
                r@[0]@ == command@,
                forall|a: int, b: int|
                    #![trigger dirs@[a], candidates@[b]]
                    (0 <= a < i && 0 <= b < n || a == i && 0 <= b < j) && plain_name(candidates@[b]@) && !verbatim_like(dirs@[a]@) ==> lies_in(
                        r@[1 + a * n + b]@,
                        dirs@[a]@,
                        candidates@[b]@,
                    ),
            decreases n - j,
        {
            assert(1 + i * n + j < 1 + (i + 1) * n) by (nonlinear_arith)
                requires j < n;
            let p = join_path(dirs[i].as_str(), candidates[j].as_str());
            let ghost before = r@;
            r.push(p);
            assert forall|a: int, b: int|
                #![trigger dirs@[a], candidates@[b]]
                (0 <= a < i && 0 <= b < n || a == i && 0 <= b < j + 1) && plain_name(candidates@[b]@) && !verbatim_like(dirs@[a]@) implies lies_in(
                    r@[1 + a * n + b]@,
                    dirs@[a]@,
                    candidates@[b]@,
                ) by {
                if a < i {
                    assert(a * n + b < i * n) by (nonlinear_arith)
                        requires a < i, b < n, 0 <= a, 0 <= b;
                    assert(r@[1 + a * n + b] == before[1 + a * n + b]);
                } else if b < j {
                    assert(r@[1 + a * n + b] == before[1 + a * n + b]);
                }
            }
            j = j + 1;
        }
        assert(1 + i * n + n == 1 + (i + 1) * n) by (nonlinear_arith);
        i = i + 1;
    }
    r
}

/// The position of the first probe that was found, or `None` where none was.
pub fn first_found(found: &Vec<bool>) -> (r: Option<usize>)
    ensures
        r matches Some(k) ==> k < found@.len() && found@[k as int] && forall|m: int| 0 <= m < k ==> !found@[m],
        r is None <==> forall|m: int| 0 <= m < found@.len() ==> !found@[m],
{
    let mut k: usize = 0;
    while k < found.len()
        invariant
            0 <= k <= found@.len(),
            forall|m: int| 0 <= m < k ==> !found@[m],
        decreases found@.len() - k,
    {
        if found[k] {
            return Some(k);
        }
        k = k + 1;
    }
    None
}

} // verus!

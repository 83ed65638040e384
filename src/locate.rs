use vstd::prelude::*;

verus! {

/// File name of the injection library.
pub open spec fn artifact_name() -> Seq<char> {
    "libspy.so"@
}

/// Where the injection library sits in an installed layout, relative to the
/// launcher's directory.
pub open spec fn installed_rel_path() -> Seq<char> {
    "../lib/libspy.so"@
}

/// `name` appended to the directory `dir`, with one separator between them.
pub open spec fn joined(dir: Seq<char>, name: Seq<char>) -> Seq<char> {
    if dir.len() == 0 {
        name
    } else if dir.last() == '/' {
        dir + name
    } else {
        dir + "/"@ + name
    }
}

/// The places searched for the injection library, in the order they are tried:
/// beside the launcher, then in the `lib` directory next to the launcher's.
pub open spec fn candidate_paths(dir: Seq<char>) -> Seq<Seq<char>> {
    seq![joined(dir, artifact_name()), joined(dir, installed_rel_path())]
}

/// The first entry that is present.
pub open spec fn first_present(s: Seq<Option<String>>) -> Option<String>
    decreases s.len(),
{
    if s.len() == 0 {
        None
    } else if s[0] is Some {
        s[0]
    } else {
        first_present(s.drop_first())
    }
}

/// Appends `name` to the directory `dir` as a path component.
pub fn join_path(dir: &str, name: &str) -> (r: String)
    ensures
        r@ == joined(dir@, name@),
{
    let n = dir.unicode_len();
    if n == 0 {
        return String::from_str(name);
    }
    let last = dir.get_char(n - 1);
    let mut r = String::from_str(dir);
    if last != '/' {
        r.append("/");
    }
    r.append(name);
    r
}

/// The candidate paths of the injection library for a launcher installed in `dir`.
pub fn artifact_candidates(dir: &str) -> (r: Vec<String>)
    ensures
        r.deep_view() == candidate_paths(dir@),
{
    let mut r: Vec<String> = Vec::new();
    r.push(join_path(dir, "libspy.so"));
    r.push(join_path(dir, "../lib/libspy.so"));
    assert(r.deep_view() =~= candidate_paths(dir@));
    r
}

/// Picks the first candidate that was found to exist; `found[i]` holds the
/// resolved path of candidate `i` when it exists.
pub fn first_found(found: &Vec<Option<String>>) -> (r: Option<String>)
    ensures
        r == first_present(found@),
{
    let ghost all = found@;
    let mut i: usize = 0;
    assert(all.subrange(0, all.len() as int) =~= all);
    while i < found.len()
        invariant
            found@ == all,
            i <= all.len(),
            first_present(all) == first_present(all.subrange(i as int, all.len() as int)),
        decreases all.len() - i,
    {
        if let Some(path) = &found[i] {
            let ghost rest = all.subrange(i as int, all.len() as int);
            assert(rest[0] == all[i as int]);
            return Some(path.clone());
        }
        assert(all.subrange(i as int, all.len() as int).drop_first() =~= all.subrange(
            i + 1,
            all.len() as int,
        ));
        i = i + 1;
    }
    None
}

} // verus!

use crate::config::ENGINE_BINARY;
use vstd::prelude::*;
use vstd::string::StringExecFns;

verus! {

/// How many directories, the start included, are searched upwards.
pub const ANCESTOR_DEPTH: usize = 8;

/// The parent of a path, or `None` for a root, a prefix or the empty path.
pub uninterp spec fn parent_path(p: Seq<char>) -> Option<Seq<char>>;

/// The path `p` extended by `child`.
pub uninterp spec fn joined_path(p: Seq<char>, child: Seq<char>) -> Seq<char>;

/// Relies on `std::path::Path::parent`: its result depends on the text of the
/// path alone.
#[verifier::external_body]
fn path_parent(p: &str) -> (r: Option<String>)
    ensures
        r matches Some(q) ==> parent_path(p@) == Some(q@),
        r is None ==> parent_path(p@) is None,
{
    match std::path::Path::new(p).parent() {
        Some(q) => Some(q.to_string_lossy().into_owned()),
        None => None,
    }
}

/// Relies on `std::path::Path::join`: its result depends on the two texts
/// alone.
#[verifier::external_body]
fn path_join(p: &str, child: &str) -> (r: String)
    ensures
        r@ == joined_path(p@, child@),
{
    std::path::Path::new(p).join(child).to_string_lossy().into_owned()
}

/// Where an engine built in the workspace under `dir` lies.
pub open spec fn runtime_candidate(dir: Seq<char>) -> Seq<char> {
    joined_path(joined_path(joined_path(dir, "apps"@), "runtime"@), ENGINE_BINARY@)
}

/// Where a distributed engine under `dir` lies.
pub open spec fn dist_candidate(dir: Seq<char>) -> Seq<char> {
    joined_path(joined_path(dir, "dist"@), ENGINE_BINARY@)
}

/// The places searched for the engine from `dir` and its ancestors, at
/// most `depth` directories, nearest first; in each directory the
/// workspace build before the distributed one.
pub open spec fn candidates_spec(dir: Seq<char>, depth: nat) -> Seq<Seq<char>>
    decreases depth,
{
    if depth == 0 {
        Seq::empty()
    } else {
        seq![runtime_candidate(dir), dist_candidate(dir)] + match parent_path(dir) {
            Some(up) => candidates_spec(up, (depth - 1) as nat),
            None => Seq::empty(),
        }
    }
}

pub open spec fn views(v: Seq<String>) -> Seq<Seq<char>> {
    v.map_values(|s: String| s@)
}

/// The places to look for the engine from `start` upwards, in search order.
pub fn ancestor_candidates(start: &str) -> (r: Vec<String>)
    ensures
        views(r@) == candidates_spec(start@, ANCESTOR_DEPTH as nat),
{
    let mut r: Vec<String> = Vec::new();
    let mut dir = String::from_str(start);
    let mut depth: usize = ANCESTOR_DEPTH;
    loop
        invariant
            depth <= ANCESTOR_DEPTH,
            views(r@) + candidates_spec(dir@, depth as nat) == candidates_spec(start@, ANCESTOR_DEPTH as nat),
        decreases depth,
    {
        if depth == 0 {
            assert(views(r@) =~= views(r@) + candidates_spec(dir@, 0));
            return r;
        }
        let apps = path_join(dir.as_str(), "apps");
        let runtime = path_join(apps.as_str(), "runtime");
        let c1 = path_join(runtime.as_str(), ENGINE_BINARY);
        let dist = path_join(dir.as_str(), "dist");
        let c2 = path_join(dist.as_str(), ENGINE_BINARY);
        let ghost before = r@;
        r.push(c1);
        r.push(c2);
        assert(views(r@) =~= views(before) + seq![runtime_candidate(dir@), dist_candidate(dir@)]);
        match path_parent(dir.as_str()) {
            Some(up) => {
                assert(views(r@) + candidates_spec(up@, (depth - 1) as nat) =~= views(before)
                    + candidates_spec(dir@, depth as nat));
                dir = up;
                depth = depth - 1;
            },
            None => {
                assert(views(r@) =~= views(before) + candidates_spec(dir@, depth as nat));
                return r;
            },
        }
    }
}

/// The first of `candidates` whose entry in `present` holds (`present[i]`
/// says whether `candidates[i]` exists).
pub fn search_ancestors(candidates: &Vec<String>, present: &Vec<bool>) -> (r: Option<String>)
    requires
        candidates@.len() == present@.len(),
    ensures
        r is None <==> forall|i: int| 0 <= i < present@.len() ==> !present@[i],
        r matches Some(c) ==> exists|i: int|
            0 <= i < present@.len() && present@[i] && c@ == candidates@[i]@ && forall|j: int|
                0 <= j < i ==> !present@[j],
{
    let mut i: usize = 0;
    while i < candidates.len()
        invariant
            candidates@.len() == present@.len(),
            i <= candidates@.len(),
            forall|j: int| 0 <= j < i ==> !present@[j],
        decreases candidates@.len() - i,
    {
        if present[i] {
            return Some(candidates[i].clone());
        }
        i = i + 1;
    }
    None
}

/// Where to run the engine from: the override path if it exists, else the
/// engine found above the executable, else the one found above the current
/// directory, else the bare engine name, left to the search path.
pub open spec fn binary_choice(
    override_path: Option<Seq<char>>,
    override_exists: bool,
    near_exe: Option<Seq<char>>,
    near_cwd: Option<Seq<char>>,
) -> Seq<char> {
    if override_path is Some && override_exists {
        override_path->0
    } else if near_exe is Some {
        near_exe->0
    } else if near_cwd is Some {
        near_cwd->0
    } else {
        ENGINE_BINARY@
    }
}

pub open spec fn opt_view(o: Option<String>) -> Option<Seq<char>> {
    match o {
        Some(s) => Some(s@),
        None => None,
    }
}

/// Resolves the engine binary from what was found: the override variable's
/// value and whether that file exists, and the results of the searches above
/// the executable and above the current directory.
pub fn find_pryx_core_binary(
    override_path: Option<String>,
    override_exists: bool,
    near_exe: Option<String>,
    near_cwd: Option<String>,
) -> (r: String)
    ensures
        r@ == binary_choice(
            opt_view(override_path),
            override_exists,
            opt_view(near_exe),
            opt_view(near_cwd),
        ),
{
    if override_exists {
        if let Some(p) = override_path {
            return p;
        }
    }
    if let Some(p) = near_exe {
        return p;
    }
    if let Some(p) = near_cwd {
        return p;
    }
    String::from_str(ENGINE_BINARY)
}

} // verus!

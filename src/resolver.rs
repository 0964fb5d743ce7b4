use vstd::prelude::*;

use vstd::string::StringExecFns;

use crate::lexer::views;
use crate::text::push_char;

verus! {

/// The map that a list of (name, path) entries stands for; a later entry
/// for a name replaces an earlier one.
pub open spec fn cache_map(v: Seq<(String, String)>) -> Map<Seq<char>, Seq<char>>
    decreases v.len(),
{
    if v.len() == 0 {
        Map::empty()
    } else {
        cache_map(v.drop_last()).insert(v.last().0@, v.last().1@)
    }
}

/// The segments of `s` between colons, empty ones included.
pub open spec fn split_colon(s: Seq<char>) -> Seq<Seq<char>>
    decreases s.len(),
{
    if s.len() == 0 {
        seq![Seq::empty()]
    } else {
        let p = split_colon(s.drop_last());
        if s.last() == ':' {
            p.push(Seq::empty())
        } else {
            p.update(p.len() - 1, p.last().push(s.last()))
        }
    }
}

/// The path of `name` inside `dir`.
pub open spec fn joined(dir: Seq<char>, name: Seq<char>) -> Seq<char> {
    dir + seq!['/'] + name
}

/// The paths of `name` in each non-empty directory of `dirs`, in order.
pub open spec fn paths_in(dirs: Seq<Seq<char>>, name: Seq<char>) -> Seq<Seq<char>>
    decreases dirs.len(),
{
    if dirs.len() == 0 {
        Seq::empty()
    } else {
        let rest = paths_in(dirs.drop_last(), name);
        if dirs.last().len() > 0 {
            rest.push(joined(dirs.last(), name))
        } else {
            rest
        }
    }
}

/// The files that are tried for `name`, in the order of the search path.
pub open spec fn candidates(path_var: Seq<char>, name: Seq<char>) -> Seq<Seq<char>> {
    paths_in(split_colon(path_var), name)
}

/// The first candidate whose flag is set.
pub open spec fn first_hit(c: Seq<Seq<char>>, f: Seq<bool>) -> Option<Seq<char>>
    decreases c.len(),
{
    if c.len() == 0 || f.len() == 0 {
        None
    } else if f[0] {
        Some(c[0])
    } else {
        first_hit(c.drop_first(), f.drop_first())
    }
}

/// The cache after a search for `name` found `found`.
pub open spec fn remembered(
    cache: Map<Seq<char>, Seq<char>>,
    name: Seq<char>,
    found: Option<Seq<char>>,
) -> Map<Seq<char>, Seq<char>> {
    match found {
        Some(p) => cache.insert(name, p),
        None => cache,
    }
}

pub open spec fn opt_view(o: Option<String>) -> Option<Seq<char>> {
    match o {
        Some(s) => Some(s@),
        None => None,
    }
}

/// The files to try for `name`: each non-empty segment of the colon-separated
/// `path_var`, followed by `/` and the name. An empty `path_var` gives none.
pub fn search_candidates(path_var: &str, name: &str) -> (r: Vec<String>)
    ensures
        views(r@) == candidates(path_var@, name@),
{
    let n = path_var.unicode_len();
    let mut parts: Vec<String> = Vec::new();
    let mut current = String::new();
    let mut i: usize = 0;
    assert(path_var@.take(0) =~= Seq::<char>::empty());
    assert(views(parts@).push(current@) =~= seq![Seq::<char>::empty()]);
    while i < n
        invariant
            n == path_var@.len(),
            i <= n,
            views(parts@).push(current@) == split_colon(path_var@.take(i as int)),
        decreases n - i,
    {
        let c = path_var.get_char(i);
        let ghost before = views(parts@);
        let ghost cur = current@;
        assert(path_var@.take(i + 1).drop_last() =~= path_var@.take(i as int));
        assert(path_var@.take(i + 1).last() == c);
        if c == ':' {
            parts.push(current);
            current = String::new();
            assert(views(parts@) =~= before.push(cur));
            assert(views(parts@).push(current@) =~= before.push(cur).push(Seq::empty()));
        } else {
            push_char(&mut current, c);
            assert(views(parts@).push(current@) =~= before.push(cur).update(
                before.len() as int,
                cur.push(c),
            ));
        }
        i = i + 1;
    }
    assert(path_var@.take(n as int) =~= path_var@);
    let ghost before = views(parts@);
    parts.push(current);
    assert(views(parts@) =~= before.push(current@));
    let ghost dirs = views(parts@);
    let mut out: Vec<String> = Vec::new();
    let mut j: usize = 0;
    assert(dirs.take(0) =~= Seq::<Seq<char>>::empty());
    assert(views(out@) =~= Seq::<Seq<char>>::empty());
    while j < parts.len()
        invariant
            dirs == views(parts@),
            dirs == split_colon(path_var@),
            j <= parts.len(),
            views(out@) == paths_in(dirs.take(j as int), name@),
        decreases parts.len() - j,
    {
        let d = &parts[j];
        let ghost prev = views(out@);
        assert(dirs.take(j + 1).drop_last() =~= dirs.take(j as int));
        assert(dirs.take(j + 1).last() == d@);
        if d.as_str().unicode_len() > 0 {
            let p = d.clone().concat("/").concat(name);
            proof {
                reveal_strlit("/");
            }
            assert(p@ =~= joined(d@, name@));
            out.push(p);
            assert(views(out@) =~= prev.push(joined(d@, name@)));
        }
        j = j + 1;
    }
    assert(dirs.take(parts.len() as int) =~= dirs);
    out
}

/// The first of `candidates` whose entry in `executable` is set.
pub fn first_executable(candidates: &Vec<String>, executable: &Vec<bool>) -> (r: Option<String>)
    requires
        candidates.len() == executable.len(),
    ensures
        opt_view(r) == first_hit(views(candidates@), executable@),
{
    let ghost c = views(candidates@);
    let mut i: usize = 0;
    assert(c.skip(0) =~= c);
    assert(executable@.skip(0) =~= executable@);
    while i < candidates.len()
        invariant
            c == views(candidates@),
            candidates.len() == executable.len(),
            i <= candidates.len(),
            first_hit(c.skip(i as int), executable@.skip(i as int)) == first_hit(
                c,
                executable@,
            ),
        decreases candidates.len() - i,
    {
        assert(c.skip(i as int).drop_first() =~= c.skip(i + 1));
        assert(executable@.skip(i as int).drop_first() =~= executable@.skip(i + 1));
        if executable[i] {
            return Some(candidates[i].clone());
        }
        i = i + 1;
    }
    None
}

pub(crate) proof fn lemma_cache_suffix(v: Seq<(String, String)>, j: int, name: Seq<char>)
    requires
        0 <= j <= v.len(),
        forall|k: int| j <= k < v.len() ==> v[k].0@ != name,
    ensures
        cache_map(v).contains_key(name) == cache_map(v.take(j)).contains_key(name),
        cache_map(v).contains_key(name) ==> cache_map(v)[name] == cache_map(v.take(j))[name],
    decreases v.len() - j,
{
    if j < v.len() {
        assert(v.drop_last().take(j) =~= v.take(j));
        lemma_cache_suffix(v.drop_last(), j, name);
    } else {
        assert(v.take(j) =~= v);
    }
}

/// What resolving a name asks for.
#[derive(Debug)]
pub enum Resolution {
    /// The name was resolved before: its path.
    Cached(String),
    /// The name is not cached: these files are to be tried, in order.
    Search(Vec<String>),
}

/// Once a search has found a path for a name, the cache gives that same path
/// for the name, so a second resolution needs no search; a name already
/// cached keeps its path.
pub proof fn lemma_resolved_once(
    cache: Map<Seq<char>, Seq<char>>,
    name: Seq<char>,
    path_var: Seq<char>,
    executable: Seq<bool>,
)
    ensures
        ({
            let found = first_hit(candidates(path_var, name), executable);
            let after = remembered(cache, name, found);
            &&& found matches Some(p) ==> after.contains_key(name) && after[name] == p
            &&& found is None ==> after == cache
        }),
{
}

} // verus!

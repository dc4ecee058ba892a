use vstd::prelude::*;

verus! {

/// The parts joined into one sequence, with `sep` between each two of them.
pub open spec fn joined(parts: Seq<Seq<char>>, sep: Seq<char>) -> Seq<char>
    decreases parts.len(),
{
    if parts.len() == 0 {
        seq![]
    } else if parts.len() == 1 {
        parts[0]
    } else {
        joined(parts.drop_last(), sep) + sep + parts.last()
    }
}

/// The search path for model modules: the path already set, if any, followed
/// by a ':', then the given directories separated by ':'.
pub open spec fn model_path_text(existing: Option<Seq<char>>, paths: Seq<Seq<char>>) -> Seq<char> {
    match existing {
        Some(v) => v + seq![':'] + joined(paths, seq![':']),
        None => joined(paths, seq![':']),
    }
}

/// The views of a list of strings.
pub open spec fn string_views(list: Seq<String>) -> Seq<Seq<char>> {
    list.map_values(|s: String| s@)
}

/// Joins strings with a separator.
pub fn join(list: &Vec<String>, sep: &str) -> (res: String)
    ensures
        res@ == joined(string_views(list@), sep@),
{
    let ghost parts = string_views(list@);
    let mut res = String::new();
    let n = list.len();
    let mut i: usize = 0;
    while i < n
        invariant
            i <= n,
            n == list@.len(),
            parts == string_views(list@),
            res@ == joined(parts.take(i as int), sep@),
        decreases n - i,
    {
        proof {
            assert(parts.take(i + 1).drop_last() =~= parts.take(i as int));
            assert(parts.take(i + 1).last() == list@[i as int]@);
        }
        if i != 0 {
            res.append(sep);
        } else {
            assert(parts.take(1) =~= seq![list@[0]@]);
        }
        res.append(list[i].as_str());
        i = i + 1;
    }
    assert(parts.take(n as int) =~= parts);
    res
}

/// The module search path once the model directories are added to it: the
/// existing path (when there is one) and a ':', then the directories
/// separated by ':'.
pub fn model_path(existing: Option<&str>, paths: &Vec<String>) -> (res: String)
    ensures
        res@ == model_path_text(
            match existing {
                Some(v) => Some(v@),
                None => None,
            },
            string_views(paths@),
        ),
{
    proof {
        reveal_strlit(":");
        assert(":"@ =~= seq![':']);
    }
    let tail = join(paths, ":");
    match existing {
        Some(v) => {
            let mut res = String::from_str(v);
            res.append(":");
            res.append(tail.as_str());
            res
        },
        None => tail,
    }
}

} // verus!

//! Pure path arithmetic: joining path components and deriving the staged
//! filename from the path-and-query portion of a URL.

use vstd::prelude::*;

verus! {

/// What joining a directory and a component yields: the two strings glued
/// with a single `/`, which is not doubled when the directory already ends
/// with one.
pub open spec fn join_path_spec(dir: Seq<char>, component: Seq<char>) -> Seq<char> {
    if dir.len() > 0 && dir.last() == '/' {
        dir + component
    } else {
        dir + seq!['/'] + component
    }
}

/// Joins a directory and a path component with a `/` separator.
pub fn join_path(dir: &str, component: &str) -> (r: String)
    ensures
        r@ == join_path_spec(dir@, component@),
{
    let n = dir.unicode_len();
    if n > 0 && dir.get_char(n - 1) == '/' {
        String::from_str(dir).concat(component)
    } else {
        proof {
            reveal_strlit("/");
            assert("/"@ =~= seq!['/']);
        }
        let r = String::from_str(dir).concat("/").concat(component);
        proof {
            assert(r@ =~= join_path_spec(dir@, component@));
        }
        r
    }
}

/// Whether the sequence contains at least one `/`.
pub open spec fn has_slash(pq: Seq<char>) -> bool {
    exists|i: int| 0 <= i < pq.len() && pq[i] == '/'
}

/// The index of the final `/` in the sequence, or `-1` when there is none.
pub open spec fn last_slash_index(pq: Seq<char>) -> int
    decreases pq.len(),
{
    if pq.len() == 0 {
        -1
    } else if pq.last() == '/' {
        pq.len() - 1
    } else {
        last_slash_index(pq.drop_last())
    }
}

/// The filename derived from a path-and-query: everything after the final
/// `/`, or the whole sequence when it contains no `/`.
pub open spec fn filename_of(pq: Seq<char>) -> Seq<char> {
    pq.subrange(last_slash_index(pq) + 1, pq.len() as int)
}

/// The characterizing facts about `last_slash_index`: it is in range, it
/// is nonnegative exactly when a `/` occurs, it points at a `/`, and no
/// `/` occurs after it.
pub proof fn lemma_last_slash_index(pq: Seq<char>)
    ensures
        -1 <= last_slash_index(pq) < pq.len(),
        has_slash(pq) <==> last_slash_index(pq) >= 0,
        last_slash_index(pq) >= 0 ==> pq[last_slash_index(pq)] == '/',
        forall|i: int| last_slash_index(pq) < i < pq.len() ==> pq[i] != '/',
    decreases pq.len(),
{
    if pq.len() == 0 {
        assert(!has_slash(pq));
    } else if pq.last() == '/' {
        assert(pq[pq.len() - 1] == '/');
    } else {
        lemma_last_slash_index(pq.drop_last());
        if has_slash(pq) {
            let i = choose|i: int| 0 <= i < pq.len() && pq[i] == '/';
            assert(i < pq.len() - 1);
            assert(pq.drop_last()[i] == '/');
            assert(has_slash(pq.drop_last()));
        }
        if has_slash(pq.drop_last()) {
            let i = choose|i: int|
                0 <= i < pq.drop_last().len() && pq.drop_last()[i] == '/';
            assert(pq[i] == '/');
            assert(has_slash(pq));
        }
        assert forall|i: int| last_slash_index(pq) < i < pq.len() implies pq[i] != '/' by {
            if i < pq.len() - 1 {
                assert(pq.drop_last()[i] == pq[i]);
            }
        }
    }
}

/// The filename derivation law: when the path-and-query contains at least
/// one `/`, the filename is exactly the substring after the final `/`
/// (the slash at `last_slash_index`, after which no further `/` occurs);
/// when it contains none, the filename is the path-and-query itself.
pub proof fn lemma_filename_derivation(pq: Seq<char>)
    ensures
        has_slash(pq) ==> {
            let j = last_slash_index(pq);
            &&& 0 <= j < pq.len()
            &&& pq[j] == '/'
            &&& (forall|i: int| j < i < pq.len() ==> pq[i] != '/')
            &&& filename_of(pq) == pq.subrange(j + 1, pq.len() as int)
        },
        !has_slash(pq) ==> filename_of(pq) == pq,
{
    lemma_last_slash_index(pq);
    if !has_slash(pq) {
        assert(filename_of(pq) =~= pq);
    }
}

/// Derives the filename from the path-and-query portion of a URL: the
/// substring after the final `/`, or the whole string when it contains no
/// `/`.
pub fn derive_filename(pq: &str) -> (r: String)
    ensures
        r@ == filename_of(pq@),
{
    let n = pq.unicode_len();
    let mut cut: usize = 0;
    let mut i: usize = 0;
    while i < n
        invariant
            i <= n,
            cut <= i,
            n == pq@.len(),
            cut == last_slash_index(pq@.take(i as int)) + 1,
        decreases n - i,
    {
        proof {
            assert(pq@.take(i + 1).drop_last() =~= pq@.take(i as int));
            assert(pq@.take(i + 1).last() == pq@[i as int]);
            lemma_last_slash_index(pq@.take(i + 1));
        }
        if pq.get_char(i) == '/' {
            cut = i + 1;
        }
        i = i + 1;
    }
    proof {
        assert(pq@.take(n as int) =~= pq@);
    }
    let r = pq.substring_char(cut, n).to_owned();
    r
}

/// Resolves the staging directory under the given system temp root:
/// `<temp_root>/archeon`.
pub fn staging_dir(temp_root: &str) -> (r: String)
    ensures
        r@ == join_path_spec(temp_root@, "archeon"@),
{
    join_path(temp_root, "archeon")
}

} // verus!

//! Edit distance between words, and the nearest of a list of words.
use vstd::prelude::*;

verus! {

/// The smallest of three numbers.
pub open spec fn min3(a: nat, b: nat, c: nat) -> nat {
    if a <= b && a <= c {
        a
    } else if b <= c {
        b
    } else {
        c
    }
}

/// The Levenshtein distance: the fewest insertions, deletions and
/// substitutions of single characters that turn `a` into `b`.
pub open spec fn lev(a: Seq<char>, b: Seq<char>) -> nat
    decreases a.len() + b.len(),
{
    if a.len() == 0 {
        b.len()
    } else if b.len() == 0 {
        a.len()
    } else {
        min3(
            lev(a.drop_last(), b) + 1,
            lev(a, b.drop_last()) + 1,
            lev(a.drop_last(), b.drop_last()) + if a.last() == b.last() {
                0nat
            } else {
                1nat
            },
        )
    }
}

/// The distance is at most the longer length.
pub proof fn lemma_lev_bound(a: Seq<char>, b: Seq<char>)
    ensures
        lev(a, b) <= if a.len() >= b.len() {
            a.len()
        } else {
            b.len()
        },
    decreases a.len() + b.len(),
{
    if a.len() > 0 && b.len() > 0 {
        lemma_lev_bound(a.drop_last(), b.drop_last());
    }
}

/// The Levenshtein distance between `left` and `right`, by rows of the
/// usual table.
pub fn edit_distance(left: &str, right: &str) -> (r: usize)
    requires
        right@.len() < usize::MAX,
        left@.len() < usize::MAX,
    ensures
        r == lev(left@, right@),
{
    let a = crate::text::to_chars(left);
    let b = crate::text::to_chars(right);
    let m = b.len();
    let mut previous: Vec<usize> = Vec::new();
    let mut j: usize = 0;
    while j <= m
        invariant
            j <= m + 1,
            m == b@.len(),
            m < usize::MAX,
            previous@.len() == j,
            forall|k: int| 0 <= k < j ==> previous@[k] == lev(a@.take(0), b@.take(k)),
        decreases m + 1 - j,
    {
        proof {
            assert(a@.take(0).len() == 0);
        }
        previous.push(j);
        j = j + 1;
    }
    let mut i: usize = 0;
    while i < a.len()
        invariant
            i <= a@.len(),
            a@ == left@,
            b@ == right@,
            m == b@.len(),
            m < usize::MAX,
            a@.len() < usize::MAX,
            previous@.len() == m + 1,
            forall|k: int| 0 <= k <= m ==> previous@[k] == lev(a@.take(i as int), b@.take(k)),
        decreases a@.len() - i,
    {
        let ai = a[i];
        let mut current: Vec<usize> = Vec::new();
        proof {
            assert(a@.take(i + 1).len() == i + 1);
            assert(b@.take(0).len() == 0);
        }
        current.push(i + 1);
        let mut k: usize = 0;
        while k < m
            invariant
                k <= m,
                i < a@.len(),
                ai == a@[i as int],
                m == b@.len(),
                m < usize::MAX,
                a@.len() < usize::MAX,
                previous@.len() == m + 1,
                forall|x: int| 0 <= x <= m ==> previous@[x] == lev(a@.take(i as int), b@.take(x)),
                current@.len() == k + 1,
                forall|x: int| 0 <= x <= k ==> current@[x] == lev(a@.take(i + 1), b@.take(x)),
            decreases m - k,
        {
            let ghost x = a@.take(i + 1);
            let ghost y = b@.take(k + 1);
            proof {
                assert(x.drop_last() =~= a@.take(i as int));
                assert(y.drop_last() =~= b@.take(k as int));
                assert(x.last() == ai);
                assert(y.last() == b@[k as int]);
                lemma_lev_bound(a@.take(i as int), b@.take(k + 1));
                lemma_lev_bound(x, b@.take(k as int));
                lemma_lev_bound(a@.take(i as int), b@.take(k as int));
            }
            let insertion = current[k] + 1;
            let deletion = previous[k + 1] + 1;
            let substitution = previous[k] + if ai == b[k] {
                0
            } else {
                1
            };
            let best = if deletion <= insertion && deletion <= substitution {
                deletion
            } else if insertion <= substitution {
                insertion
            } else {
                substitution
            };
            assert(best == lev(x, y));
            current.push(best);
            k = k + 1;
        }
        previous = current;
        i = i + 1;
    }
    assert(a@.take(a@.len() as int) =~= a@);
    assert(b@.take(m as int) =~= b@);
    previous[m]
}

} // verus!

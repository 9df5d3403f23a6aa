//! The ordered pairs of a list of arguments.
//!
//! A relation has a direction, so the pair of one argument with another
//! and the pair the other way round are two pairs. An argument is not
//! paired with itself, nor with another entry of the list that has the
//! same identifier.

use vstd::prelude::*;
use crate::models::Argument;

verus! {

/// The identifiers of a list of arguments, in order.
pub open spec fn ids_of(args: Seq<Argument>) -> Seq<Option<u32>> {
    args.map_values(|a: Argument| a.id)
}

/// The pairs of position `i` with the positions before `j` whose
/// identifier is another, in order.
pub open spec fn row_pairs(ids: Seq<Option<u32>>, i: int, j: int) -> Seq<(int, int)>
    decreases j,
{
    if j <= 0 {
        Seq::empty()
    } else if ids[i] != ids[j - 1] {
        row_pairs(ids, i, j - 1).push((i, j - 1))
    } else {
        row_pairs(ids, i, j - 1)
    }
}

/// The pairs of the positions before `i`, each with every position of the
/// list whose identifier is another, in order.
pub open spec fn rows_pairs(ids: Seq<Option<u32>>, i: int) -> Seq<(int, int)>
    decreases i,
{
    if i <= 0 {
        Seq::empty()
    } else {
        rows_pairs(ids, i - 1) + row_pairs(ids, i - 1, ids.len() as int)
    }
}

/// The pairs to visit, in the order of the visit: the list times itself,
/// row by row, without the pairs of equal identifier.
pub open spec fn ordered_pairs(ids: Seq<Option<u32>>) -> Seq<(int, int)> {
    rows_pairs(ids, ids.len() as int)
}

/// No identifier occurs twice.
pub open spec fn distinct(ids: Seq<Option<u32>>) -> bool {
    forall|i: int, j: int| 0 <= i < ids.len() && 0 <= j < ids.len() && i != j ==> ids[i] != ids[j]
}

/// The positions that a list of pairs holds.
pub open spec fn positions(pairs: Seq<(usize, usize)>) -> Seq<(int, int)> {
    pairs.map_values(|p: (usize, usize)| (p.0 as int, p.1 as int))
}

/// What a row holds: the pairs of its position with the positions of
/// another identifier, and nothing else.
pub proof fn lemma_row_pairs(ids: Seq<Option<u32>>, i: int, j: int)
    requires
        0 <= i < ids.len(),
        0 <= j <= ids.len(),
    ensures
        forall|c: int| 0 <= c < j && ids[i] != ids[c] ==> row_pairs(ids, i, j).contains((i, c)),
        forall|p: (int, int)| #[trigger]
            row_pairs(ids, i, j).contains(p) ==> p.0 == i && 0 <= p.1 < j && ids[i] != ids[p.1],
        distinct(ids) ==> row_pairs(ids, i, j).len() == if i < j {
            j - 1
        } else {
            j
        },
        row_pairs(ids, i, j).len() <= j,
    decreases j,
{
    if j > 0 {
        lemma_row_pairs(ids, i, j - 1);
        let before = row_pairs(ids, i, j - 1);
        if ids[i] != ids[j - 1] {
            let now = before.push((i, j - 1));
            assert(now[before.len() as int] == (i, j - 1));
            assert forall|c: int| 0 <= c < j && ids[i] != ids[c] implies now.contains((i, c)) by {
                if c < j - 1 {
                    assert(before.contains((i, c)));
                    let k = choose|k: int| 0 <= k < before.len() && before[k] == (i, c);
                    assert(now[k] == (i, c));
                }
            }
            assert forall|p: (int, int)| #[trigger] now.contains(p) implies p.0 == i && 0 <= p.1
                < j && ids[i] != ids[p.1] by {
                let k = choose|k: int| 0 <= k < now.len() && now[k] == p;
                if k < before.len() {
                    assert(before[k] == p);
                    assert(before.contains(p));
                }
            }
        }
    }
}

/// What the rows before `i` hold.
pub proof fn lemma_rows_pairs(ids: Seq<Option<u32>>, i: int)
    requires
        0 <= i <= ids.len(),
    ensures
        forall|r: int, c: int|
            0 <= r < i && 0 <= c < ids.len() && ids[r] != ids[c] ==> rows_pairs(ids, i).contains(
                (r, c),
            ),
        forall|p: (int, int)| #[trigger]
            rows_pairs(ids, i).contains(p) ==> 0 <= p.0 < i && 0 <= p.1 < ids.len() && ids[p.0]
                != ids[p.1],
        distinct(ids) ==> rows_pairs(ids, i).len() == i * (ids.len() - 1),
        rows_pairs(ids, i).len() <= i * ids.len(),
    decreases i,
{
    let n = ids.len() as int;
    if i > 0 {
        lemma_rows_pairs(ids, i - 1);
        lemma_row_pairs(ids, i - 1, n);
        let before = rows_pairs(ids, i - 1);
        let row = row_pairs(ids, i - 1, n);
        let now = before + row;
        assert forall|r: int, c: int| 0 <= r < i && 0 <= c < n && ids[r] != ids[c] implies now.contains(
            (r, c),
        ) by {
            if r < i - 1 {
                assert(before.contains((r, c)));
                let k = choose|k: int| 0 <= k < before.len() && before[k] == (r, c);
                assert(now[k] == (r, c));
            } else {
                assert(row.contains((r, c)));
                let k = choose|k: int| 0 <= k < row.len() && row[k] == (r, c);
                assert(now[before.len() + k] == (r, c));
            }
        }
        assert forall|p: (int, int)| #[trigger] now.contains(p) implies 0 <= p.0 < i && 0 <= p.1
            < n && ids[p.0] != ids[p.1] by {
            let k = choose|k: int| 0 <= k < now.len() && now[k] == p;
            if k < before.len() {
                assert(before[k] == p);
                assert(before.contains(p));
            } else {
                assert(row[k - before.len()] == p);
                assert(row.contains(p));
            }
        }
        assert(distinct(ids) ==> now.len() == i * (n - 1)) by (nonlinear_arith)
            requires
                now.len() == before.len() + row.len(),
                distinct(ids) ==> before.len() == (i - 1) * (n - 1),
                distinct(ids) ==> row.len() == n - 1,
        ;
        assert(now.len() <= i * n) by (nonlinear_arith)
            requires
                now.len() == before.len() + row.len(),
                before.len() <= (i - 1) * n,
                row.len() <= n,
        ;
    }
}

/// Of a list in which no identifier occurs twice, every entry is paired
/// with every other, in both directions and with none twice over: a list
/// of `n` entries has `n * n - n` pairs.
pub proof fn lemma_pairs_of_distinct(ids: Seq<Option<u32>>)
    requires
        distinct(ids),
    ensures
        ordered_pairs(ids).len() == ids.len() * ids.len() - ids.len(),
        forall|i: int, j: int|
            0 <= i < ids.len() && 0 <= j < ids.len() && i != j ==> ordered_pairs(ids).contains(
                (i, j),
            ) && ordered_pairs(ids).contains((j, i)),
        forall|p: (int, int)| #[trigger] ordered_pairs(ids).contains(p) ==> p.0 != p.1,
{
    let n = ids.len() as int;
    lemma_rows_pairs(ids, n);
    assert(n * (n - 1) == n * n - n) by (nonlinear_arith);
}

/// Whatever the identifiers, a pair is visited exactly when the two
/// positions hold different identifiers.
pub proof fn lemma_pairs_are_the_unequal(ids: Seq<Option<u32>>)
    ensures
        forall|i: int, j: int|
            0 <= i < ids.len() && 0 <= j < ids.len() && ids[i] != ids[j] ==> ordered_pairs(
                ids,
            ).contains((i, j)),
        forall|p: (int, int)| #[trigger]
            ordered_pairs(ids).contains(p) ==> 0 <= p.0 < ids.len() && 0 <= p.1 < ids.len()
                && ids[p.0] != ids[p.1],
        ordered_pairs(ids).len() <= ids.len() * ids.len(),
{
    lemma_rows_pairs(ids, ids.len() as int);
}

/// Lists the pairs to visit among `args`, in the order of the visit.
pub fn enumerate_pairs(args: &Vec<Argument>) -> (r: Vec<(usize, usize)>)
    ensures
        positions(r@) == ordered_pairs(ids_of(args@)),
{
    let ghost ids = ids_of(args@);
    let n = args.len();
    let mut out: Vec<(usize, usize)> = Vec::new();
    let mut i: usize = 0;
    proof {
        assert(positions(out@) =~= rows_pairs(ids, 0));
    }
    while i < n
        invariant
            n == args.len(),
            ids == ids_of(args@),
            ids.len() == n,
            i <= n,
            positions(out@) == rows_pairs(ids, i as int),
        decreases n - i,
    {
        let mut j: usize = 0;
        proof {
            assert(positions(out@) =~= rows_pairs(ids, i as int) + row_pairs(ids, i as int, 0));
        }
        while j < n
            invariant
                n == args.len(),
                ids == ids_of(args@),
                ids.len() == n,
                i < n,
                j <= n,
                positions(out@) == rows_pairs(ids, i as int) + row_pairs(ids, i as int, j as int),
            decreases n - j,
        {
            let ghost before = out@;
            if !same_id(&args[i], &args[j]) {
                out.push((i, j));
                proof {
                    assert(positions(out@) =~= positions(before).push((i as int, j as int)));
                    assert(positions(out@) =~= rows_pairs(ids, i as int) + row_pairs(
                        ids,
                        i as int,
                        j + 1,
                    ));
                }
            }
            j += 1;
        }
        i += 1;
    }
    out
}

/// Tells whether two arguments have the same identifier, or both none.
pub fn same_id(a: &Argument, b: &Argument) -> (r: bool)
    ensures
        r == (a.id == b.id),
{
    match (a.id, b.id) {
        (Some(x), Some(y)) => x == y,
        (None, None) => true,
        _ => false,
    }
}

} // verus!

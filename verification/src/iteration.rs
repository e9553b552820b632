use vstd::prelude::*;
use crate::poll_info::{PollInfo, wrapping_dec, wrapping_inc};

verus! {

/// The readers, in their order, whose end-of-stream flag is not set.
pub open spec fn unfinished<T>(readers: Seq<T>, at_eof: Seq<bool>) -> Seq<T>
    decreases readers.len(),
{
    if readers.len() == 0 {
        Seq::empty()
    } else {
        let rest = unfinished(readers.drop_last(), at_eof.take(readers.len() - 1));
        if at_eof[readers.len() - 1] {
            rest
        } else {
            rest.push(readers.last())
        }
    }
}

/// How many end-of-stream flags are set.
pub open spec fn finished_count(at_eof: Seq<bool>) -> nat
    decreases at_eof.len(),
{
    if at_eof.len() == 0 {
        0
    } else {
        finished_count(at_eof.drop_last()) + if at_eof.last() {
            1nat
        } else {
            0nat
        }
    }
}

/// `count - k` for a counter that wraps around below zero.
pub open spec fn wrapping_sub_count(count: usize, k: nat) -> usize {
    ((count - k) % (usize::MAX + 1)) as usize
}

proof fn lemma_wrapping_sub_step(count: usize, k: nat)
    ensures
        wrapping_dec(wrapping_sub_count(count, k)) == wrapping_sub_count(count, k + 1),
{
    let m: int = usize::MAX + 1;
    let x: int = count - k;
    let r: int = x % m;
    let q: int = x / m;
    vstd::arithmetic::div_mod::lemma_fundamental_div_mod(x, m);
    assert(0 <= r < m);
    if r == 0 {
        assert(x - 1 == (q - 1) * m + (m - 1)) by (nonlinear_arith)
            requires
                x == m * q + r,
                r == 0,
        ;
        vstd::arithmetic::div_mod::lemma_fundamental_div_mod_converse(x - 1, m, q - 1, m - 1);
    } else {
        assert(x - 1 == q * m + (r - 1)) by (nonlinear_arith)
            requires
                x == m * q + r,
        ;
        vstd::arithmetic::div_mod::lemma_fundamental_div_mod_converse(x - 1, m, q, r - 1);
    }
}

proof fn lemma_wrapping_sub_zero(count: usize)
    ensures
        wrapping_sub_count(count, 0) == count,
{
    vstd::arithmetic::div_mod::lemma_small_mod(count as nat, (usize::MAX + 1) as nat);
}

/// The two parts of a reader list: the unfinished ones and the count of
/// finished ones add up to the whole.
pub proof fn lemma_unfinished_len<T>(readers: Seq<T>, at_eof: Seq<bool>)
    requires
        readers.len() == at_eof.len(),
    ensures
        unfinished(readers, at_eof).len() + finished_count(at_eof) == readers.len(),
    decreases readers.len(),
{
    if readers.len() > 0 {
        let n = readers.len() - 1;
        assert(at_eof.take(n as int) =~= at_eof.drop_last());
        lemma_unfinished_len(readers.drop_last(), at_eof.take(n as int));
    }
}

/// Ends one summing iteration: each reader whose end-of-stream flag is set is
/// counted as done in `info` and dropped, the others are kept in their order,
/// and the iteration is counted.
pub fn end_iteration<T>(info: &mut PollInfo, readers: Vec<T>, at_eof: &Vec<bool>) -> (kept: Vec<T>)
    requires
        readers.len() == at_eof.len(),
    ensures
        kept@ == unfinished(readers@, at_eof@),
        final(info).left() == wrapping_sub_count(old(info).left(), finished_count(at_eof@)),
        final(info).iterations() == wrapping_inc(old(info).iterations()),
        final(info).finished() == old(info).finished(),
        old(info).left() == readers.len() ==> final(info).left() == kept.len(),
{
    let ghost all = readers@;
    let ghost start = *info;
    let n = readers.len();
    let mut kept: Vec<T> = Vec::new();
    let mut i: usize = 0;
    proof {
        lemma_wrapping_sub_zero(start.left());
        assert(all.take(0) =~= Seq::<T>::empty());
        assert(at_eof@.take(0) =~= Seq::<bool>::empty());
    }
    for reader in it: readers.into_iter()
        invariant
            i == it.index(),
            it.seq() == all,
            n == all.len(),
            n == at_eof.len(),
            kept@ == unfinished(all.take(i as int), at_eof@.take(i as int)),
            info.left() == wrapping_sub_count(start.left(), finished_count(at_eof@.take(i as int))),
            info.iterations() == start.iterations(),
            info.finished() == start.finished(),
    {
        let ghost prefix = all.take(i as int);
        let ghost flags = at_eof@.take(i as int);
        assert(all.take(i + 1).drop_last() =~= prefix);
        assert(at_eof@.take(i + 1).take(i as int) =~= flags);
        assert(at_eof@.take(i + 1).drop_last() =~= flags);
        if at_eof[i] {
            proof {
                lemma_wrapping_sub_step(start.left(), finished_count(flags));
            }
            info.reader_done();
        } else {
            kept.push(reader);
        }
        i = i + 1;
    }
    proof {
        assert(all.take(n as int) =~= all);
        assert(at_eof@.take(n as int) =~= at_eof@);
        lemma_unfinished_len(all, at_eof@);
        if start.left() == n {
            assert(wrapping_sub_count(start.left(), finished_count(at_eof@)) == kept.len()) by {
                vstd::arithmetic::div_mod::lemma_small_mod(
                    (n - finished_count(at_eof@)) as nat,
                    (usize::MAX + 1) as nat,
                );
            }
        }
    }
    info.iteration_done();
    kept
}

} // verus!

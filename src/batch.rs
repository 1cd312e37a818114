//! Splitting a list of lookups into bounded waves.
use vstd::prelude::*;

verus! {

/// The most lookups that one wave may have outstanding at once.
pub const RATE_LIMIT: usize = 60;

/// `s` cut into consecutive pieces of `bound` elements, the last one shorter.
pub open spec fn chunks_of<T>(s: Seq<T>, bound: nat) -> Seq<Seq<T>>
    decreases s.len(),
{
    if s.len() == 0 || bound == 0 {
        Seq::empty()
    } else if s.len() <= bound {
        seq![s]
    } else {
        seq![s.take(bound as int)] + chunks_of(s.skip(bound as int), bound)
    }
}

/// The number of waves that `len` lookups take: `len / bound` rounded up.
pub open spec fn wave_count(len: nat, bound: nat) -> nat {
    if bound == 0 {
        0
    } else {
        ((len + bound - 1) / bound as int) as nat
    }
}

/// Cutting into waves gives `ceil(len / bound)` pieces, each non-empty and at
/// most `bound` long, which joined back give the list, each key once and in order.
pub proof fn lemma_chunks_cover<T>(s: Seq<T>, bound: nat)
    requires
        bound > 0,
    ensures
        chunks_of(s, bound).len() == wave_count(s.len(), bound),
        forall|i: int|
            0 <= i < chunks_of(s, bound).len() ==> 0 < #[trigger] chunks_of(s, bound)[i].len()
                <= bound,
        chunks_of(s, bound).flatten() == s,
    decreases s.len(),
{
    let c = chunks_of(s, bound);
    if s.len() == 0 {
        assert(c.flatten() =~= s);
        assert(wave_count(0, bound) == 0) by (nonlinear_arith)
            requires
                bound > 0,
                wave_count(0, bound) == ((bound - 1) / bound as int) as nat,
        ;
    } else if s.len() <= bound {
        assert(wave_count(s.len(), bound) == 1) by (nonlinear_arith)
            requires
                0 < s.len() <= bound,
        ;
        assert(c =~= seq![s]);
        assert(c.drop_first() =~= Seq::<Seq<T>>::empty());
        assert(c.drop_first().flatten() =~= Seq::<T>::empty());
        assert(c.flatten() == c.first() + c.drop_first().flatten());
        assert(c.flatten() =~= s);
    } else {
        let rest = s.skip(bound as int);
        lemma_chunks_cover(rest, bound);
        assert(wave_count(s.len(), bound) == wave_count(rest.len(), bound) + 1) by (
        nonlinear_arith)
            requires
                rest.len() == s.len() - bound,
                bound > 0,
                wave_count(s.len(), bound) == ((s.len() + bound - 1) / bound as int) as nat,
                wave_count(rest.len(), bound) == ((rest.len() + bound - 1) / bound as int) as nat,
        ;
        assert(c.drop_first() =~= chunks_of(rest, bound));
        assert(c.flatten() == c[0] + c.drop_first().flatten());
        assert(s =~= s.take(bound as int) + rest);
    }
}

/// The lookups of `keys` cut into waves of at most `bound` each, in order.
pub fn split_into_chunks<T: Copy>(keys: &Vec<T>, bound: usize) -> (r: Vec<Vec<T>>)
    requires
        bound > 0,
    ensures
        r@.map_values(|v: Vec<T>| v@) == chunks_of(keys@, bound as nat),
{
    let mut r: Vec<Vec<T>> = Vec::new();
    let mut start: usize = 0;
    let len = keys.len();
    proof {
        assert(keys@.skip(0) =~= keys@);
        assert(r@.map_values(|v: Vec<T>| v@) =~= Seq::<Seq<T>>::empty());
    }
    while start < len
        invariant
            len == keys@.len(),
            bound > 0,
            start <= len,
            chunks_of(keys@, bound as nat) =~= r@.map_values(|v: Vec<T>| v@) + chunks_of(
                keys@.skip(start as int),
                bound as nat,
            ),
        decreases len - start,
    {
        let end: usize = if len - start <= bound {
            len
        } else {
            start + bound
        };
        let mut chunk: Vec<T> = Vec::new();
        let mut i: usize = start;
        while i < end
            invariant
                start <= i <= end <= len,
                len == keys@.len(),
                chunk@ =~= keys@.subrange(start as int, i as int),
            decreases end - i,
        {
            chunk.push(keys[i]);
            i = i + 1;
        }
        proof {
            let rest = keys@.skip(start as int);
            if len - start <= bound {
                assert(chunks_of(rest, bound as nat) =~= seq![rest]);
                assert(keys@.skip(end as int) =~= Seq::<T>::empty());
            } else {
                assert(rest.take(bound as int) =~= chunk@);
                assert(rest.skip(bound as int) =~= keys@.skip(end as int));
            }
            assert(chunk@ =~= rest.take((end - start) as int));
        }
        let ghost before = r@;
        r.push(chunk);
        proof {
            assert(r@.map_values(|v: Vec<T>| v@) =~= before.map_values(|v: Vec<T>| v@).push(
                chunk@,
            ));
        }
        start = end;
    }
    proof {
        assert(keys@.skip(len as int) =~= Seq::<T>::empty());
    }
    r
}

} // verus!

use vstd::prelude::*;

use crate::model::{DeriveError, Rejection};

verus! {

/// Runs through outcomes in order: the concatenation of all the successful
/// values, or the first rejection.
pub open spec fn collect_all<A>(rs: Seq<Result<Seq<A>, Rejection>>) -> Result<Seq<A>, Rejection>
    decreases rs.len(),
{
    if rs.len() == 0 {
        Ok(seq![])
    } else {
        match collect_all(rs.drop_last()) {
            Err(e) => Err(e),
            Ok(a) => match rs.last() {
                Err(e) => Err(e),
                Ok(b) => Ok(a + b),
            },
        }
    }
}

/// All the elements but the first (none of an empty sequence), as
/// `iter().skip(1)` walks them.
pub open spec fn after_first<A>(s: Seq<A>) -> Seq<A> {
    if s.len() == 0 {
        s
    } else {
        s.subrange(1, s.len() as int)
    }
}

/// The value of an executable outcome.
pub open spec fn seq_result<T>(r: Result<Vec<T>, DeriveError>) -> Result<Seq<T>, Rejection> {
    match r {
        Ok(v) => Ok(v@),
        Err(e) => Err(e@),
    }
}

/// One more outcome: the collection of a prefix one longer, and, where the
/// new outcome is a rejection, the collection of the whole.
pub proof fn lemma_collect_step<A>(rs: Seq<Result<Seq<A>, Rejection>>, i: int, acc: Seq<A>)
    requires
        0 <= i < rs.len(),
        collect_all(rs.take(i)) == Ok::<Seq<A>, Rejection>(acc),
    ensures
        collect_all(rs.take(i + 1)) == match rs[i] {
            Err(e) => Err(e),
            Ok(b) => Ok::<Seq<A>, Rejection>(acc + b),
        },
        rs[i] is Err ==> collect_all(rs) == collect_all(rs.take(i + 1)),
{
    assert(rs.take(i + 1).drop_last() =~= rs.take(i));
    if rs[i] is Err {
        lemma_collect_err_prefix(rs, i + 1);
    }
}

/// A rejection in a prefix is the rejection of the whole.
pub proof fn lemma_collect_err_prefix<A>(rs: Seq<Result<Seq<A>, Rejection>>, n: int)
    requires
        0 <= n <= rs.len(),
        collect_all(rs.take(n)) is Err,
    ensures
        collect_all(rs) == collect_all(rs.take(n)),
    decreases rs.len() - n,
{
    if n == rs.len() {
        assert(rs.take(n) =~= rs);
    } else {
        let d = rs.drop_last();
        assert(d.take(n) =~= rs.take(n));
        lemma_collect_err_prefix(d, n);
    }
}

/// A successful collection has a successful outcome at every position.
pub proof fn lemma_collect_ok_each<A>(rs: Seq<Result<Seq<A>, Rejection>>)
    requires
        collect_all(rs) is Ok,
    ensures
        forall|i: int| 0 <= i < rs.len() ==> #[trigger] rs[i] is Ok,
    decreases rs.len(),
{
    if rs.len() > 0 {
        let d = rs.drop_last();
        lemma_collect_ok_each(d);
        assert forall|i: int| 0 <= i < rs.len() implies #[trigger] rs[i] is Ok by {
            if i < rs.len() - 1 {
                assert(d[i] == rs[i]);
            }
        }
    }
}

/// Where every outcome holds exactly one value, a successful collection holds
/// those values, one per position.
pub proof fn lemma_collect_singles<A>(rs: Seq<Result<Seq<A>, Rejection>>)
    requires
        collect_all(rs) is Ok,
        forall|i: int| 0 <= i < rs.len() ==> (#[trigger] rs[i] matches Ok(v) ==> v.len() == 1),
    ensures
        collect_all(rs)->Ok_0.len() == rs.len(),
        forall|i: int| 0 <= i < rs.len() ==> collect_all(rs)->Ok_0[i] == (#[trigger] rs[i])->Ok_0[0],
    decreases rs.len(),
{
    if rs.len() > 0 {
        let d = rs.drop_last();
        assert forall|i: int| 0 <= i < d.len() implies (#[trigger] d[i] matches Ok(v) ==> v.len() == 1) by {
            assert(d[i] == rs[i]);
        }
        lemma_collect_singles(d);
        let v = collect_all(rs)->Ok_0;
        let a = collect_all(d)->Ok_0;
        let last = rs.last();
        assert(last is Ok);
        assert(rs[rs.len() - 1] == last);
        assert(v == a + last->Ok_0);
        assert forall|i: int| 0 <= i < rs.len() implies v[i] == (#[trigger] rs[i])->Ok_0[0] by {
            if i < rs.len() - 1 {
                assert(d[i] == rs[i]);
            }
        }
    }
}

/// Collecting an outcome followed by others: the first outcome, then the
/// collection of the others.
pub proof fn lemma_collect_prepend<A>(r: Result<Seq<A>, Rejection>, rest: Seq<Result<Seq<A>, Rejection>>)
    ensures
        collect_all(seq![r] + rest) == match r {
            Err(e) => Err(e),
            Ok(a) => match collect_all(rest) {
                Err(e) => Err(e),
                Ok(b) => Ok::<Seq<A>, Rejection>(a + b),
            },
        },
    decreases rest.len(),
{
    let s = seq![r] + rest;
    if rest.len() == 0 {
        assert(s.drop_last() =~= Seq::<Result<Seq<A>, Rejection>>::empty());
        match r {
            Ok(a) => {
                assert(a =~= Seq::<A>::empty() + a);
                assert(a + Seq::<A>::empty() =~= a);
            },
            Err(_) => {},
        }
    } else {
        assert(s.drop_last() =~= seq![r] + rest.drop_last());
        lemma_collect_prepend(r, rest.drop_last());
        match r {
            Ok(a) => {
                match collect_all(rest.drop_last()) {
                    Ok(b) => {
                        match rest.last() {
                            Ok(c) => {
                                assert(a + b + c =~= a + (b + c));
                            },
                            Err(_) => {},
                        }
                    },
                    Err(_) => {},
                }
            },
            Err(_) => {},
        }
    }
}

/// The whole as the prefix of full length.
pub proof fn lemma_take_full<A>(s: Seq<A>)
    ensures
        s.take(s.len() as int) == s,
{
    assert(s.take(s.len() as int) =~= s);
}

} // verus!

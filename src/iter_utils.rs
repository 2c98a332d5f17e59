//! Splitting a list of triples into three lists.

use vstd::prelude::*;

verus! {

/// A list of triples that can be split into the list of first, second and
/// third components.
pub trait Unzip3<A, B, C>: Sized {
    /// The triples, in order.
    spec fn triples(&self) -> Seq<(A, B, C)>;

    fn unzip_3(self) -> (r: (Vec<A>, Vec<B>, Vec<C>))
        ensures
            r.0@.len() == self.triples().len(),
            r.1@.len() == self.triples().len(),
            r.2@.len() == self.triples().len(),
            forall|i: int|
                0 <= i < self.triples().len() ==> r.0@[i] == (#[trigger] self.triples()[i]).0 && r.1@[i]
                    == self.triples()[i].1 && r.2@[i] == self.triples()[i].2,
    ;
}

impl<A, B, C> Unzip3<A, B, C> for Vec<(A, B, C)> {
    open spec fn triples(&self) -> Seq<(A, B, C)> {
        self@
    }

    fn unzip_3(self) -> (r: (Vec<A>, Vec<B>, Vec<C>)) {
        let ghost all = self@;
        let mut rest = self;
        let mut ts: Vec<A> = Vec::new();
        let mut us: Vec<B> = Vec::new();
        let mut vs: Vec<C> = Vec::new();
        while rest.len() > 0
            invariant
                ts@.len() == us@.len() == vs@.len(),
                ts@.len() + rest@.len() == all.len(),
                rest@ == all.skip(ts@.len() as int),
                forall|k: int|
                    0 <= k < ts@.len() ==> ts@[k] == (#[trigger] all[k]).0 && us@[k] == all[k].1 && vs@[k]
                        == all[k].2,
            decreases rest@.len(),
        {
            let (t, u, v) = rest.remove(0);
            ts.push(t);
            us.push(u);
            vs.push(v);
        }
        (ts, us, vs)
    }
}

} // verus!

//! Small helpers on std's collections.
use vstd::prelude::*;

verus! {

/// Some useful vector extensions.
pub trait VecExt<T>: Sized {
    /// The items, in order.
    spec fn items(&self) -> Seq<T>;

    /// Take ownership of an item. If the index is out of range, this returns
    /// [`None`](None) and leaves the items as they were.
    fn take(&mut self, index: usize) -> (r: Option<T>)
        ensures
            index < old(self).items().len() ==> r == Some(old(self).items()[index as int])
                && final(self).items() == old(self).items().remove(index as int),
            index >= old(self).items().len() ==> r is None && final(self).items() == old(
                self,
            ).items(),
    ;

    /// Take ownership of the first item in a [`Vec`](Vec). If the vector is empty, this
    /// returns [`None`](None).
    fn take_first(&mut self) -> (r: Option<T>)
        ensures
            old(self).items().len() > 0 ==> r == Some(old(self).items()[0]) && final(self).items()
                == old(self).items().subrange(1, old(self).items().len() as int),
            old(self).items().len() == 0 ==> r is None && final(self).items() == old(
                self,
            ).items(),
    ;
}

impl<T> VecExt<T> for Vec<T> {
    open spec fn items(&self) -> Seq<T> {
        self@
    }

    fn take(&mut self, index: usize) -> (r: Option<T>) {
        if index < self.len() {
            Some(self.remove(index))
        } else {
            None
        }
    }

    fn take_first(&mut self) -> (r: Option<T>) {
        let r = self.take(0);
        assert(old(self)@.len() > 0 ==> old(self)@.remove(0) =~= old(self)@.subrange(
            1,
            old(self)@.len() as int,
        ));
        r
    }
}

} // verus!

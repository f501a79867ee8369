use vstd::prelude::*;

verus! {

/// An ordered collection of scene objects. The intersection query over the
/// collection is supplied by the object type's own `hit`; this type keeps the
/// objects and their order of insertion.
pub struct HittableList<H> {
    pub objects: Vec<H>,
}

impl<H> HittableList<H> {
    /// An empty collection.
    pub fn new() -> (r: Self)
        ensures
            r.objects@ == Seq::<H>::empty(),
    {
        Self { objects: Vec::new() }
    }

    /// Adds `obj` after the objects already held; returns the collection so
    /// that calls can be chained.
    pub fn push(&mut self, obj: H) -> (r: &mut Self)
        ensures
            r.objects@ == old(self).objects@.push(obj),
            *final(self) == *final(r),
    {
        self.objects.push(obj);
        self
    }

    /// Removes and returns the object added last, or `None` when the
    /// collection is empty.
    pub fn pop(&mut self) -> (r: Option<H>)
        ensures
            old(self).objects@.len() == 0 ==> r is None && final(self).objects@ == old(
                self,
            ).objects@,
            old(self).objects@.len() > 0 ==> r == Some(old(self).objects@.last())
                && final(self).objects@ == old(self).objects@.drop_last(),
    {
        self.objects.pop()
    }

    /// Removes every object; returns the collection so that calls can be
    /// chained.
    pub fn clear(&mut self) -> (r: &mut Self)
        ensures
            r.objects@ == Seq::<H>::empty(),
            *final(self) == *final(r),
    {
        self.objects.clear();
        self
    }
}

} // verus!

//! Cloning that is known to keep what a value stands for.
use vstd::prelude::*;

verus! {

/// A clone whose deep view is that of the value it was made from.
pub trait DeepClone: DeepView + Sized {
    fn deep_clone(&self) -> (copy: Self)
        ensures
            copy.deep_view() == self.deep_view(),
    ;
}

impl DeepClone for String {
    fn deep_clone(&self) -> (copy: Self) {
        self.clone()
    }
}

impl<A: DeepClone, B: DeepClone> DeepClone for (A, B) {
    fn deep_clone(&self) -> (copy: Self) {
        (self.0.deep_clone(), self.1.deep_clone())
    }
}

impl<T: DeepClone> DeepClone for Option<T> {
    fn deep_clone(&self) -> (copy: Self) {
        match self {
            Some(value) => Some(value.deep_clone()),
            None => None,
        }
    }
}

impl<T: DeepClone> DeepClone for Vec<T> {
    fn deep_clone(&self) -> (copy: Self) {
        let mut copy: Vec<T> = Vec::new();
        for i in 0..self.len()
            invariant
                copy.len() == i,
                forall|j: int| 0 <= j < i ==> #[trigger] copy[j].deep_view() == self[j].deep_view(),
        {
            copy.push(self[i].deep_clone());
        }
        assert(copy.deep_view() =~= self.deep_view());
        copy
    }
}

} // verus!

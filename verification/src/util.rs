//! Small verified helpers over strings.

use vstd::prelude::*;

verus! {

/// A value shared between a handle holder and observing tasks.
pub type Shared<T> = std::sync::Arc<std::sync::Mutex<T>>;

pub trait SharedExt<T> {
    fn make_shared(value: T) -> Shared<T>;
}

impl<T> SharedExt<T> for Shared<T> {
    /// Wraps a value for concurrent sharing.
    fn make_shared(value: T) -> Shared<T> {
        std::sync::Arc::new(crate::hw::mutex_new(value))
    }
}

/// Character-by-character string equality, proved equivalent to equality of
/// the views.
pub fn str_eq(a: &str, b: &str) -> (r: bool)
    ensures
        r == (a@ == b@),
{
    let a_len = a.unicode_len();
    let b_len = b.unicode_len();
    if a_len != b_len {
        return false;
    }
    let mut i: usize = 0;
    while i < a_len
        invariant
            a_len == a@.len(),
            b_len == b@.len(),
            a_len == b_len,
            i <= a_len,
            forall|j: int| 0 <= j < i ==> a@[j] == b@[j],
        decreases a_len - i,
    {
        if a.get_char(i) != b.get_char(i) {
            return false;
        }
        i += 1;
    }
    proof {
        assert(a@ =~= b@);
    }
    true
}

} // verus!

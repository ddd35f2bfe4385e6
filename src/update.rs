use vstd::prelude::*;
use crate::smoother::Smoother;

verus! {

/// The pose that an entity renders in this tick: the result of one step of
/// its smoother where it has one, else its look transform unchanged.
pub fn effective_look_transform<T: Copy, W: Copy, F: Fn(W, T, T) -> T>(
    look: &T,
    smoother: Option<&mut Smoother<T, W>>,
    blend: F,
) -> (r: T)
    requires
        match smoother {
            Some(s) => s.accepts(*look, blend),
            None => true,
        },
    ensures
        match smoother {
            Some(s) => {
                &&& s.step_result(*look, blend, r)
                &&& final(s).last_smoothed() == Some(r)
                &&& final(s).spec_lag_weight() == s.spec_lag_weight()
            },
            None => r == *look,
        },
{
    match smoother {
        Some(s) => s.smooth_transform(look, blend),
        None => *look,
    }
}

} // verus!

use vstd::prelude::*;

verus! {

/// A one-pole exponential-lag filter over samples of type `T`.
///
/// Each update blends the previous smoothed sample with the new one, keeping
/// the fraction `lag_weight` of the previous value. The first update has no
/// previous value and returns its input unsmoothed.
pub struct Smoother<T, W> {
    lag_weight: W,
    lerp_tfm: Option<T>,
}

impl<T: Copy, W: Copy> Smoother<T, W> {
    /// The weight given to the previous smoothed sample.
    pub closed spec fn spec_lag_weight(&self) -> W {
        self.lag_weight
    }

    /// The result of the last update; `None` before the first one.
    pub closed spec fn last_smoothed(&self) -> Option<T> {
        self.lerp_tfm
    }

    /// `blend` may be called as the next update on `new_tfm` would call it.
    pub open spec fn accepts<F: Fn(W, T, T) -> T>(&self, new_tfm: T, blend: F) -> bool {
        match self.last_smoothed() {
            Some(p) => blend.requires((self.spec_lag_weight(), p, new_tfm)),
            None => true,
        }
    }

    /// `r` is a result of the next update on `new_tfm`: the input itself on
    /// the first update, else a result of `blend(lag_weight, previous, new_tfm)`.
    pub open spec fn step_result<F: Fn(W, T, T) -> T>(&self, new_tfm: T, blend: F, r: T) -> bool {
        match self.last_smoothed() {
            Some(p) => blend.ensures((self.spec_lag_weight(), p, new_tfm), r),
            None => r == new_tfm,
        }
    }

    /// A filter with the given lag weight that has seen no sample yet.
    pub fn new(lag_weight: W) -> (r: Self)
        ensures
            r.spec_lag_weight() == lag_weight,
            r.last_smoothed() is None,
    {
        Smoother { lag_weight, lerp_tfm: None }
    }

    pub fn lag_weight(&self) -> (r: W)
        ensures
            r == self.spec_lag_weight(),
    {
        self.lag_weight
    }

    /// Changes the lag weight; the last smoothed sample is kept.
    pub fn set_lag_weight(&mut self, lag_weight: W)
        ensures
            final(self).spec_lag_weight() == lag_weight,
            final(self).last_smoothed() == old(self).last_smoothed(),
    {
        self.lag_weight = lag_weight;
    }

    /// One filter step. `blend(w, prev, new)` computes `prev * w + new * (1 - w)`;
    /// it is called with the previous smoothed sample, except on the first
    /// update, which returns `new_tfm` as it is. The result is recorded as the
    /// new previous sample.
    pub fn smooth_transform<F: Fn(W, T, T) -> T>(&mut self, new_tfm: &T, blend: F) -> (r: T)
        requires
            old(self).accepts(*new_tfm, blend),
        ensures
            old(self).step_result(*new_tfm, blend, r),
            old(self).last_smoothed() is None ==> r == *new_tfm,
            final(self).last_smoothed() == Some(r),
            final(self).spec_lag_weight() == old(self).spec_lag_weight(),
    {
        let lerp_tfm = match self.lerp_tfm {
            Some(prev) => blend(self.lag_weight, prev, *new_tfm),
            None => *new_tfm,
        };
        self.lerp_tfm = Some(lerp_tfm);
        lerp_tfm
    }
}

/// With a blend that yields the new sample at the filter's lag weight (no
/// lag), every update returns its input unchanged, in either state of the
/// filter.
pub proof fn no_lag_returns_input<T: Copy, W: Copy, F: Fn(W, T, T) -> T>(
    s: Smoother<T, W>,
    new_tfm: T,
    blend: F,
    r: T,
)
    requires
        s.step_result(new_tfm, blend, r),
        forall|p: T, z: T| #[trigger] blend.ensures((s.spec_lag_weight(), p, new_tfm), z) ==> z == new_tfm,
    ensures
        r == new_tfm,
{
}

} // verus!

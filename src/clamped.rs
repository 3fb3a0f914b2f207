use vstd::prelude::*;
use vstd::std_specs::cmp::PartialOrdSpec;

verus! {

/// Where a value sits relative to the bounds that produced it: at the floor,
/// at the ceiling, or strictly between them.
#[derive(Debug, Clone, Copy)]
pub enum ClampedValue<T> {
    Min(T),
    Max(T),
    Intermediate(T),
}

/// `a >= b` under the ordering that `T` states for its comparisons.
pub open spec fn spec_ge<T: PartialOrd>(a: T, b: T) -> bool {
    a.partial_cmp_spec(&b) matches Some(core::cmp::Ordering::Greater | core::cmp::Ordering::Equal)
}

/// `a <= b` under the ordering that `T` states for its comparisons.
pub open spec fn spec_le<T: PartialOrd>(a: T, b: T) -> bool {
    a.partial_cmp_spec(&b) matches Some(core::cmp::Ordering::Less | core::cmp::Ordering::Equal)
}

/// The judgment for `v` against `floor` and `ceiling`: the ceiling wins when
/// `v` reaches it, then the floor, else `v` lies strictly between them.
pub open spec fn clamp_spec<T: PartialOrd>(v: T, floor: T, ceiling: T) -> ClampedValue<T> {
    if spec_ge(v, ceiling) {
        ClampedValue::Max(ceiling)
    } else if spec_le(v, floor) {
        ClampedValue::Min(floor)
    } else {
        ClampedValue::Intermediate(v)
    }
}

impl<T> ClampedValue<T> {
    /// The payload, whatever the variant.
    pub open spec fn payload(self) -> T {
        match self {
            ClampedValue::Min(v) => v,
            ClampedValue::Max(v) => v,
            ClampedValue::Intermediate(v) => v,
        }
    }

    /// The same variant as `self`, carrying `v`.
    pub open spec fn with_payload<A>(self, v: A) -> ClampedValue<A> {
        match self {
            ClampedValue::Min(_) => ClampedValue::Min(v),
            ClampedValue::Max(_) => ClampedValue::Max(v),
            ClampedValue::Intermediate(_) => ClampedValue::Intermediate(v),
        }
    }

    pub fn is_max(&self) -> (r: bool)
        ensures
            r == (*self is Max),
    {
        matches!(self, ClampedValue::Max(_))
    }

    pub fn is_min(&self) -> (r: bool)
        ensures
            r == (*self is Min),
    {
        matches!(self, ClampedValue::Min(_))
    }

    pub fn is_intermediate(&self) -> (r: bool)
        ensures
            r == (*self is Intermediate),
    {
        matches!(self, ClampedValue::Intermediate(_))
    }

    /// Transforms the payload and keeps the variant, without clamping again.
    pub fn map<F, A>(self, f: F) -> (r: ClampedValue<A>)
        where
            F: FnOnce(T) -> A,
        requires
            f.requires((self.payload(),)),
        ensures
            f.ensures((self.payload(),), r.payload()),
            r == self.with_payload(r.payload()),
    {
        match self {
            ClampedValue::Min(x) => ClampedValue::Min(f(x)),
            ClampedValue::Max(x) => ClampedValue::Max(f(x)),
            ClampedValue::Intermediate(x) => ClampedValue::Intermediate(f(x)),
        }
    }
}

impl<T: PartialOrd> ClampedValue<T> {
    /// Judges `v` against `floor` and `ceiling`: `Max(ceiling)` when
    /// `v >= ceiling`, else `Min(floor)` when `v <= floor`, else
    /// `Intermediate(v)`.
    pub fn new(v: T, floor: T, ceiling: T) -> (r: Self)
        ensures
            T::obeys_partial_cmp_spec() ==> r == clamp_spec(v, floor, ceiling),
    {
        if v >= ceiling {
            return ClampedValue::Max(ceiling);
        }
        if v <= floor {
            return ClampedValue::Min(floor);
        }
        ClampedValue::Intermediate(v)
    }
}

impl<T: Copy> ClampedValue<T> {
    /// The payload, whatever the variant.
    pub fn value(&self) -> (r: T)
        ensures
            r == self.payload(),
    {
        match *self {
            ClampedValue::Min(v) => v,
            ClampedValue::Max(v) => v,
            ClampedValue::Intermediate(v) => v,
        }
    }

    /// Swaps in a new payload and keeps the variant.
    pub fn replace(&mut self, value: T)
        ensures
            *final(self) == old(self).with_payload(value),
    {
        *self = match *self {
            ClampedValue::Min(_) => ClampedValue::Min(value),
            ClampedValue::Max(_) => ClampedValue::Max(value),
            ClampedValue::Intermediate(_) => ClampedValue::Intermediate(value),
        };
    }

    /// Swaps in a new payload, keeps the variant, and returns the old value.
    pub fn swap(&mut self, value: T) -> (r: Self)
        ensures
            r == *old(self),
            *final(self) == old(self).with_payload(value),
    {
        let r = *self;
        self.replace(value);
        r
    }
}

/// For `floor <= v <= ceiling` with `floor < ceiling`, the judgment is
/// `Intermediate` exactly when `v` lies strictly between the bounds, `Min`
/// exactly when `v <= floor`, `Max` exactly when `v >= ceiling`; the payload
/// is `v` when `Intermediate`, else the bound that was reached.
pub proof fn law_clamp_judgment(v: usize, floor: usize, ceiling: usize)
    requires
        floor <= v <= ceiling,
        floor < ceiling,
    ensures
        clamp_spec(v, floor, ceiling) is Intermediate <==> floor < v < ceiling,
        clamp_spec(v, floor, ceiling) is Min <==> v <= floor,
        clamp_spec(v, floor, ceiling) is Max <==> v >= ceiling,
        clamp_spec(v, floor, ceiling) is Intermediate ==> clamp_spec(v, floor, ceiling).payload() == v,
        clamp_spec(v, floor, ceiling) is Min ==> clamp_spec(v, floor, ceiling).payload() == floor,
        clamp_spec(v, floor, ceiling) is Max ==> clamp_spec(v, floor, ceiling).payload() == ceiling,
{
}

} // verus!

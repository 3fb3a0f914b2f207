use vstd::prelude::*;

use crate::clamped::{clamp_spec, ClampedValue};
use crate::error::Error;

verus! {

/// Number of steps that span the reference range.
pub const STEPS_IN_REFERENCE_RANGE: usize = 9;

/// Level a scale starts at.
pub const DEFAULT_LEVEL: i8 = 4;

/// Number of levels an `i8` can hold: the length of an exponential curve.
pub const LEVEL_COUNT: usize = 256;

/// How a level maps to a device reading.
#[derive(Debug)]
pub enum ScaleKind {
    /// Each step moves the reading by a fixed amount.
    Linear,
    /// Each step moves the reading by a fixed number of stops. The curve
    /// `ref_max / gamma^(level * stops_per_step)` is evaluated by the caller,
    /// and the vector holds its unclamped reading for each level, level -128
    /// at index 0 up to level 127 at index 255.
    Exp2(Vec<usize>),
}

impl ScaleKind {
    pub open spec fn wf(&self) -> bool {
        match self {
            ScaleKind::Linear => true,
            ScaleKind::Exp2(curve) => curve@.len() == LEVEL_COUNT,
        }
    }
}

/// Per-step change of a linear scale: the reference range over the number of
/// steps, with the quotient truncated toward zero.
pub open spec fn linear_factor(ref_max: usize, ref_min: usize) -> int {
    let d = ref_max - ref_min;
    let s = STEPS_IN_REFERENCE_RANGE as int;
    if d >= 0 {
        d / s
    } else {
        -((-d) / s)
    }
}

proof fn lemma_linear_factor_bounds(ref_max: usize, ref_min: usize)
    ensures
        -(usize::MAX as int) <= linear_factor(ref_max, ref_min) <= usize::MAX,
{
    let d = ref_max - ref_min;
    let s = STEPS_IN_REFERENCE_RANGE as int;
    if d >= 0 {
        assert(0 <= d / s <= d) by (nonlinear_arith)
            requires
                d >= 0,
                s == 9,
        ;
    } else {
        assert(0 <= (-d) / s <= -d) by (nonlinear_arith)
            requires
                -d > 0,
                s == 9,
        ;
    }
}

/// An integer brought into the range of `usize`.
pub open spec fn saturate(x: int) -> usize {
    if x <= 0 {
        0
    } else if x >= usize::MAX {
        usize::MAX
    } else {
        x as usize
    }
}

/// Index of a level in an exponential curve.
pub open spec fn curve_index(f: i8) -> int {
    f + 128
}

/// The level after one step up: brightness rises as the level falls.
pub open spec fn level_up(l: i8) -> i8 {
    if l > i8::MIN {
        (l - 1) as i8
    } else {
        l
    }
}

/// The level after one step down.
pub open spec fn level_down(l: i8) -> i8 {
    if l < i8::MAX {
        (l + 1) as i8
    } else {
        l
    }
}

/// Collects the settings of a scale and checks them in `make`.
#[derive(Debug, Default)]
pub struct ScaleBuilder {
    kind: Option<ScaleKind>,
    max_value: Option<usize>,
    min_value: Option<usize>,
    ref_max: Option<usize>,
    ref_min: Option<usize>,
}

/// Maps a signed level to a clamped device reading.
#[derive(Debug)]
pub struct BrightnessScale {
    kind: ScaleKind,
    /// Per-step change of a linear scale; zero for an exponential one, whose
    /// steps are in its curve.
    idx_factor: i128,
    max_value: usize,
    min_value: usize,
    ref_max: usize,
    ref_min: usize,
    /// Current level; 0 to 9 is the reference range.
    level: i8,
}

impl ScaleBuilder {
    pub closed spec fn spec_kind(&self) -> Option<ScaleKind> {
        self.kind
    }

    pub closed spec fn spec_max_value(&self) -> Option<usize> {
        self.max_value
    }

    pub closed spec fn spec_min_value(&self) -> Option<usize> {
        self.min_value
    }

    pub closed spec fn spec_ref_max(&self) -> Option<usize> {
        self.ref_max
    }

    pub closed spec fn spec_ref_min(&self) -> Option<usize> {
        self.ref_min
    }

    /// The floor that `make` uses: the one set, else 0.
    pub open spec fn floor_or_default(&self) -> usize {
        match self.spec_min_value() {
            Some(v) => v,
            None => 0,
        }
    }

    pub fn new() -> (r: Self)
        ensures
            r.spec_kind() is None,
            r.spec_max_value() is None,
            r.spec_min_value() is None,
            r.spec_ref_max() is None,
            r.spec_ref_min() is None,
    {
        ScaleBuilder { kind: None, max_value: None, min_value: None, ref_max: None, ref_min: None }
    }

    pub fn kind(&mut self, v: ScaleKind)
        requires
            v.wf(),
        ensures
            final(self).spec_kind() == Some(v),
            final(self).spec_max_value() == old(self).spec_max_value(),
            final(self).spec_min_value() == old(self).spec_min_value(),
            final(self).spec_ref_max() == old(self).spec_ref_max(),
            final(self).spec_ref_min() == old(self).spec_ref_min(),
    {
        self.kind = Some(v);
    }

    pub fn max_value(&mut self, v: usize)
        ensures
            final(self).spec_kind() == old(self).spec_kind(),
            final(self).spec_max_value() == Some(v),
            final(self).spec_min_value() == old(self).spec_min_value(),
            final(self).spec_ref_max() == old(self).spec_ref_max(),
            final(self).spec_ref_min() == old(self).spec_ref_min(),
    {
        self.max_value = Some(v);
    }

    pub fn min_value(&mut self, v: usize)
        ensures
            final(self).spec_kind() == old(self).spec_kind(),
            final(self).spec_max_value() == old(self).spec_max_value(),
            final(self).spec_min_value() == Some(v),
            final(self).spec_ref_max() == old(self).spec_ref_max(),
            final(self).spec_ref_min() == old(self).spec_ref_min(),
    {
        self.min_value = Some(v);
    }

    pub fn ref_max_value(&mut self, v: usize)
        ensures
            final(self).spec_kind() == old(self).spec_kind(),
            final(self).spec_max_value() == old(self).spec_max_value(),
            final(self).spec_min_value() == old(self).spec_min_value(),
            final(self).spec_ref_max() == Some(v),
            final(self).spec_ref_min() == old(self).spec_ref_min(),
    {
        self.ref_max = Some(v);
    }

    pub fn ref_min_value(&mut self, v: usize)
        ensures
            final(self).spec_kind() == old(self).spec_kind(),
            final(self).spec_max_value() == old(self).spec_max_value(),
            final(self).spec_min_value() == old(self).spec_min_value(),
            final(self).spec_ref_max() == old(self).spec_ref_max(),
            final(self).spec_ref_min() == Some(v),
    {
        self.ref_min = Some(v);
    }
}


impl ScaleBuilder {
    /// An exponential kind carries a curve with one reading per level.
    pub open spec fn wf(&self) -> bool {
        self.spec_kind() matches Some(k) ==> k.wf()
    }

    /// The reference bounds that `make` uses, `(ref_max, ref_min)`: those set,
    /// else the device bounds; `None` without a ceiling.
    pub open spec fn spec_reference_bounds(&self) -> Option<(usize, usize)> {
        match self.spec_max_value() {
            None => None,
            Some(max) => Some(
                (
                    match self.spec_ref_max() {
                        Some(v) => v,
                        None => max,
                    },
                    match self.spec_ref_min() {
                        Some(v) => v,
                        None => self.floor_or_default(),
                    },
                ),
            ),
        }
    }

    /// The reference bounds `(ref_max, ref_min)` that `make` will use, so
    /// that a caller can evaluate an exponential curve over them first.
    pub fn reference_bounds(&self) -> (r: Option<(usize, usize)>)
        ensures
            r == self.spec_reference_bounds(),
    {
        match self.max_value {
            None => None,
            Some(max) => {
                let min = match self.min_value {
                    Some(v) => v,
                    None => 0,
                };
                let ref_max = match self.ref_max {
                    Some(v) => v,
                    None => max,
                };
                let ref_min = match self.ref_min {
                    Some(v) => v,
                    None => min,
                };
                Some((ref_max, ref_min))
            },
        }
    }

    /// Builds the scale at the default level. The ceiling is required; the
    /// floor defaults to 0, the reference bounds to the device bounds, and
    /// the kind to linear.
    pub fn make(self) -> (r: Result<BrightnessScale, Error>)
        requires
            self.wf(),
        ensures
            self.spec_max_value() is Some <==> r is Ok,
            self.spec_max_value() is None ==> r == Err::<BrightnessScale, Error>(
                Error::MaxBrightnessRequired,
            ),
            r matches Ok(s) ==> {
                &&& Some(s.spec_max_value()) == self.spec_max_value()
                &&& s.spec_min_value() == self.floor_or_default()
                &&& self.spec_reference_bounds() == Some((s.spec_ref_max(), s.spec_ref_min()))
                &&& s.spec_level() == DEFAULT_LEVEL
                &&& s.spec_idx_factor() == factor_for(s.spec_kind(), s.spec_ref_max(), s.spec_ref_min())
                &&& match self.spec_kind() {
                    None => s.spec_kind() is Linear,
                    Some(k) => s.spec_kind() == k,
                }
            },
    {
        let bounds = self.reference_bounds();
        let max_value = match self.max_value {
            Some(v) => v,
            None => return Err(Error::MaxBrightnessRequired),
        };
        let min_value = match self.min_value {
            Some(v) => v,
            None => 0,
        };
        let (ref_max, ref_min) = match bounds {
            Some(b) => b,
            None => (max_value, min_value),
        };
        let kind = match self.kind {
            Some(k) => k,
            None => ScaleKind::Linear,
        };
        let idx_factor = Self::idx_factor(&kind, ref_max, ref_min);
        Ok(
            BrightnessScale {
                kind,
                idx_factor,
                max_value,
                min_value,
                ref_max,
                ref_min,
                level: DEFAULT_LEVEL,
            },
        )
    }

    fn idx_factor(kind: &ScaleKind, ref_max: usize, ref_min: usize) -> (r: i128)
        ensures
            r == factor_for(*kind, ref_max, ref_min),
    {
        match kind {
            ScaleKind::Linear => Self::linear_factor(ref_max, ref_min),
            ScaleKind::Exp2(_) => 0,
        }
    }

    fn linear_factor(ref_max: usize, ref_min: usize) -> (r: i128)
        ensures
            r == linear_factor(ref_max, ref_min),
    {
        let steps = STEPS_IN_REFERENCE_RANGE as i128;
        if ref_max >= ref_min {
            ((ref_max - ref_min) as i128) / steps
        } else {
            -(((ref_min - ref_max) as i128) / steps)
        }
    }
}

/// The per-step factor that a scale of this kind keeps.
pub open spec fn factor_for(kind: ScaleKind, ref_max: usize, ref_min: usize) -> int {
    match kind {
        ScaleKind::Linear => linear_factor(ref_max, ref_min),
        ScaleKind::Exp2(_) => 0,
    }
}

impl BrightnessScale {
    pub closed spec fn spec_kind(&self) -> ScaleKind {
        self.kind
    }

    pub closed spec fn spec_idx_factor(&self) -> int {
        self.idx_factor as int
    }

    pub closed spec fn spec_max_value(&self) -> usize {
        self.max_value
    }

    pub closed spec fn spec_min_value(&self) -> usize {
        self.min_value
    }

    pub closed spec fn spec_ref_max(&self) -> usize {
        self.ref_max
    }

    pub closed spec fn spec_ref_min(&self) -> usize {
        self.ref_min
    }

    pub closed spec fn spec_level(&self) -> i8 {
        self.level
    }

    /// The factor agrees with the kind and the reference bounds, and an
    /// exponential curve has a reading for every level.
    #[verifier::type_invariant]
    pub closed spec fn wf(&self) -> bool {
        &&& self.kind.wf()
        &&& self.idx_factor as int == factor_for(self.kind, self.ref_max, self.ref_min)
    }

    /// The same scale at level `l`.
    pub closed spec fn with_level(self, l: i8) -> BrightnessScale {
        BrightnessScale { level: l, ..self }
    }

    /// The unclamped reading at level `f`: `ref_max - f * idx_factor` on a
    /// linear scale, brought into `usize`; the curve's entry on an
    /// exponential one.
    pub open spec fn reading(&self, f: i8) -> usize {
        match self.spec_kind() {
            ScaleKind::Linear => saturate(self.spec_ref_max() - f * self.spec_idx_factor()),
            ScaleKind::Exp2(curve) => curve@[curve_index(f)],
        }
    }

    /// The clamped device value at level `f`; device bounds are the clamp.
    pub open spec fn spec_value_for(&self, f: i8) -> ClampedValue<usize> {
        clamp_spec(self.reading(f), self.spec_min_value(), self.spec_max_value())
    }

    /// The clamped device value at the current level.
    pub open spec fn spec_brightness(&self) -> ClampedValue<usize> {
        self.spec_value_for(self.spec_level())
    }

    pub fn value_for(&self, f: i8) -> (r: ClampedValue<usize>)
        ensures
            r == self.spec_value_for(f),
    {
        proof {
            use_type_invariant(self);
        }
        let x: usize = match &self.kind {
            ScaleKind::Linear => {
                proof {
                    let fac = self.idx_factor as int;
                    assert(-(usize::MAX as int) <= fac <= usize::MAX) by {
                        lemma_linear_factor_bounds(self.ref_max, self.ref_min);
                    }
                    assert(-128 * (usize::MAX as int) <= f * fac <= 128 * (usize::MAX as int))
                        by (nonlinear_arith)
                        requires
                            -(usize::MAX as int) <= fac <= usize::MAX,
                            -128 <= f <= 127,
                    ;
                }
                let v: i128 = self.ref_max as i128 - (f as i128) * self.idx_factor;
                if v <= 0 {
                    0
                } else if v >= usize::MAX as i128 {
                    usize::MAX
                } else {
                    v as usize
                }
            },
            ScaleKind::Exp2(curve) => curve[(f as i16 + 128) as usize],
        };
        ClampedValue::new(x, self.min_value, self.max_value)
    }

    pub fn get_brightness(&self) -> (r: ClampedValue<usize>)
        ensures
            r == self.spec_brightness(),
    {
        self.value_for(self.level)
    }

    /// One step brighter: the level falls by one, and stays at the lowest
    /// level once there.
    pub fn up(&mut self) -> (r: ClampedValue<usize>)
        ensures
            *final(self) == old(self).with_level(level_up(old(self).spec_level())),
            r == final(self).spec_brightness(),
    {
        proof {
            use_type_invariant(&*self);
        }
        if self.level > i8::MIN {
            self.level = self.level - 1;
        }
        self.value_for(self.level)
    }

    /// One step dimmer: the level rises by one, and stays at the highest
    /// level once there.
    pub fn down(&mut self) -> (r: ClampedValue<usize>)
        ensures
            *final(self) == old(self).with_level(level_down(old(self).spec_level())),
            r == final(self).spec_brightness(),
    {
        proof {
            use_type_invariant(&*self);
        }
        if self.level < i8::MAX {
            self.level = self.level + 1;
        }
        self.value_for(self.level)
    }

    pub fn set_level(&mut self, value: i8) -> (r: ClampedValue<usize>)
        ensures
            *final(self) == old(self).with_level(value),
            r == final(self).spec_brightness(),
    {
        proof {
            use_type_invariant(&*self);
        }
        self.level = value;
        self.value_for(self.level)
    }

    pub fn set_to_default(&mut self) -> (r: ClampedValue<usize>)
        ensures
            *final(self) == old(self).with_level(DEFAULT_LEVEL),
            r == final(self).spec_brightness(),
    {
        self.set_level(DEFAULT_LEVEL)
    }
}

/// The scale after `n` steps down.
pub open spec fn downs(s: BrightnessScale, n: nat) -> BrightnessScale
    decreases n,
{
    if n == 0 {
        s
    } else {
        downs(s, (n - 1) as nat).with_level(level_down(downs(s, (n - 1) as nat).spec_level()))
    }
}

/// The scale after `n` steps up.
pub open spec fn ups(s: BrightnessScale, n: nat) -> BrightnessScale
    decreases n,
{
    if n == 0 {
        s
    } else {
        ups(s, (n - 1) as nat).with_level(level_up(ups(s, (n - 1) as nat).spec_level()))
    }
}

/// Moving a scale to another level changes the level and nothing else.
pub proof fn lemma_with_level(s: BrightnessScale, a: i8, b: i8)
    ensures
        s.with_level(a).spec_level() == a,
        s.with_level(a).spec_kind() == s.spec_kind(),
        s.with_level(a).spec_idx_factor() == s.spec_idx_factor(),
        s.with_level(a).spec_max_value() == s.spec_max_value(),
        s.with_level(a).spec_min_value() == s.spec_min_value(),
        s.with_level(a).spec_ref_max() == s.spec_ref_max(),
        s.with_level(a).spec_ref_min() == s.spec_ref_min(),
        s.with_level(a).with_level(b) == s.with_level(b),
        s.with_level(s.spec_level()) == s,
{
}

proof fn lemma_downs(s: BrightnessScale, n: nat)
    requires
        s.spec_level() + n <= i8::MAX,
    ensures
        downs(s, n) == s.with_level((s.spec_level() + n) as i8),
    decreases n,
{
    lemma_with_level(s, s.spec_level(), s.spec_level());
    if n > 0 {
        lemma_downs(s, (n - 1) as nat);
        lemma_with_level(s, (s.spec_level() + n - 1) as i8, (s.spec_level() + n) as i8);
    }
}

proof fn lemma_ups(s: BrightnessScale, n: nat)
    requires
        s.spec_level() - n >= i8::MIN,
    ensures
        ups(s, n) == s.with_level((s.spec_level() - n) as i8),
    decreases n,
{
    lemma_with_level(s, s.spec_level(), s.spec_level());
    if n > 0 {
        lemma_ups(s, (n - 1) as nat);
        lemma_with_level(s, (s.spec_level() - n + 1) as i8, (s.spec_level() - n) as i8);
    }
}

/// Stepping down `n` times and then up `n` times gives back the same scale,
/// and so the same clamped value, as long as the steps down do not run past
/// the highest level.
pub proof fn law_down_then_up_restores(s: BrightnessScale, n: nat)
    requires
        s.spec_level() + n <= i8::MAX,
    ensures
        ups(downs(s, n), n) == s,
        ups(downs(s, n), n).spec_brightness() == s.spec_brightness(),
{
    lemma_downs(s, n);
    let d = downs(s, n);
    lemma_with_level(s, (s.spec_level() + n) as i8, s.spec_level());
    lemma_ups(d, n);
    lemma_with_level(s, (s.spec_level() + n) as i8, s.spec_level());
}

/// A builder with a ceiling alone yields floor 0 and reference bounds equal
/// to the device bounds.
pub proof fn law_builder_defaults(b: ScaleBuilder, ceiling: usize)
    requires
        b.spec_max_value() == Some(ceiling),
        b.spec_min_value() is None,
        b.spec_ref_max() is None,
        b.spec_ref_min() is None,
    ensures
        b.floor_or_default() == 0,
        b.spec_reference_bounds() == Some((ceiling, 0usize)),
{
}

} // verus!

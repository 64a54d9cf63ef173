use vstd::prelude::*;

verus! {

/// Why a sampling density was refused.
#[derive(Debug, Clone, Copy, PartialEq, Eq, Structural)]
pub enum SamplingError {
    /// Fewer than two samples: the resolution lies outside `(0, 1]`.
    ResolutionOutOfRange,
}

/// What a curve is, as far as its contracts are concerned.
pub struct CurveModel<P, F> {
    /// The four control points `P0, P1, P2, P3`.
    pub ctrl: [P; 4],
    /// The sampling step in curve-parameter units, as the bit pattern of an
    /// IEEE 754 single: two steps are the same step when their bits are.
    pub resolution: u32,
    /// How many points a sampling of the curve holds.
    pub sample_count: nat,
    /// Evaluates the cubic of given control points and step at an interior
    /// parameter step.
    pub eval: F,
    /// `None` while the curve is stale, the sampled polyline while it is fresh.
    pub cache: Option<Seq<P>>,
}

/// `c` has both ends pinned to the first and the last control point.
pub open spec fn pinned<P>(c: Seq<P>, ctrl: Seq<P>) -> bool {
    &&& c.len() >= 2
    &&& ctrl.len() == 4
    &&& c[0] == ctrl[0]
    &&& c[c.len() - 1] == ctrl[3]
}

/// `eval` may be called on any control points, step and parameter step.
pub open spec fn total<P, F: Fn([P; 4], u32, usize) -> P>(eval: F) -> bool {
    forall|ctrl: [P; 4], resolution: u32, k: usize| call_requires(eval, (ctrl, resolution, k))
}

/// `c` is a sampling of `n` points of the curve with control points `ctrl`
/// and step `resolution`: the ends are copies of `P0` and `P3`, and the
/// interior point at index `i` is an outcome of `eval` at parameter step `i - 1`.
pub open spec fn is_sampling<P, F: Fn([P; 4], u32, usize) -> P>(
    c: Seq<P>,
    ctrl: [P; 4],
    resolution: u32,
    n: nat,
    eval: F,
) -> bool {
    &&& c.len() == n
    &&& pinned(c, ctrl@)
    &&& forall|i: int| 1 <= i < n - 1 ==> call_ensures(eval, (ctrl, resolution, (i - 1) as usize), #[trigger] c[i])
}

/// A cubic Bezier segment whose polyline approximation is computed lazily.
///
/// The point type `P` and the evaluation `eval` of the cubic at an interior
/// parameter step are the caller's: this type owns the control points, the
/// sampling density and the stale/fresh state of the cached polyline.
#[derive(Debug)]
#[verifier::reject_recursive_types(P)]
pub struct CubicCurve<P, F: Fn([P; 4], u32, usize) -> P> {
    ctrl_point: [P; 4],
    resolution: u32,
    sample_count: usize,
    eval: F,
    modified: bool,
    curve: Option<Vec<P>>,
}

impl<P, F: Fn([P; 4], u32, usize) -> P> View for CubicCurve<P, F> {
    type V = CurveModel<P, F>;

    closed spec fn view(&self) -> CurveModel<P, F> {
        CurveModel {
            ctrl: self.ctrl_point,
            resolution: self.resolution,
            sample_count: self.sample_count as nat,
            eval: self.eval,
            cache: if self.modified {
                None
            } else {
                match self.curve {
                    Some(c) => Some(c@),
                    None => None,
                }
            },
        }
    }
}

impl<P, F: Fn([P; 4], u32, usize) -> P> CurveModel<P, F> {
    /// The invariant of every curve: at least two samples, an evaluator that
    /// accepts every input, and a fresh polyline that is a sampling of the
    /// current control points at the current step.
    pub open spec fn valid(self) -> bool {
        &&& self.sample_count >= 2
        &&& total(self.eval)
        &&& match self.cache {
            Some(c) => is_sampling(c, self.ctrl, self.resolution, self.sample_count, self.eval),
            None => true,
        }
    }

    /// The polyline must be sampled again before it can be read.
    pub open spec fn is_stale(self) -> bool {
        self.cache is None
    }

    /// The same curve in every respect but the state of its polyline.
    pub open spec fn same_curve(self, other: Self) -> bool {
        &&& self.ctrl == other.ctrl
        &&& self.resolution == other.resolution
        &&& self.sample_count == other.sample_count
        &&& self.eval == other.eval
    }
}

/// `after` is `before` with every control point replaced by an outcome of
/// `f` on it: the step, the sample count and the evaluator are kept and the
/// polyline is stale.
pub open spec fn transformed<P, F, G: Fn(P) -> P>(before: CurveModel<P, F>, after: CurveModel<P, F>, f: G) -> bool {
    &&& forall|i: int| 0 <= i < 4 ==> call_ensures(f, (before.ctrl@[i],), #[trigger] after.ctrl@[i])
    &&& after.resolution == before.resolution
    &&& after.sample_count == before.sample_count
    &&& after.eval == before.eval
    &&& after.cache is None
}

/// The curve `m` once its step is set to `resolution` with `sample_count`
/// samples: unchanged for the same step or for fewer than two samples,
/// else stale with the new step and count.
pub open spec fn with_resolution<P, F>(m: CurveModel<P, F>, resolution: u32, sample_count: nat) -> CurveModel<P, F> {
    if m.resolution == resolution || sample_count < 2 {
        m
    } else {
        CurveModel {
            ctrl: m.ctrl,
            resolution,
            sample_count,
            eval: m.eval,
            cache: None,
        }
    }
}

impl<P, F: Fn([P; 4], u32, usize) -> P> CubicCurve<P, F> {
    #[verifier::type_invariant]
    spec fn inv(self) -> bool {
        &&& self.sample_count >= 2
        &&& total(self.eval)
        &&& !self.modified ==> match self.curve {
            Some(c) => is_sampling(c@, self.ctrl_point, self.resolution, self.sample_count as nat, self.eval),
            None => false,
        }
    }

    /// A stale curve with the given control points, to be sampled with
    /// `eval` at steps of `resolution` into `sample_count` points.
    pub fn new(ctrl_point: [P; 4], resolution: u32, sample_count: usize, eval: F) -> (r: Result<Self, SamplingError>)
        requires
            total(eval),
        ensures
            sample_count < 2 <==> r is Err,
            r matches Ok(c) ==> {
                &&& c@.ctrl == ctrl_point
                &&& c@.resolution == resolution
                &&& c@.sample_count == sample_count
                &&& c@.eval == eval
                &&& c@.is_stale()
                &&& c@.valid()
            },
    {
        if sample_count < 2 {
            return Err(SamplingError::ResolutionOutOfRange);
        }
        Ok(CubicCurve { ctrl_point, resolution, sample_count, eval, modified: true, curve: None })
    }

    /// A curve with the given control points, sampled at once with `eval`
    /// into `sample_count` points.
    pub fn new_with_ctrl_point(ctrl_point: [P; 4], resolution: u32, sample_count: usize, eval: F) -> (r: Result<Self, SamplingError>)
        where P: Copy,
        requires
            total(eval),
        ensures
            sample_count < 2 <==> r is Err,
            r matches Ok(c) ==> {
                &&& c@.ctrl == ctrl_point
                &&& c@.resolution == resolution
                &&& c@.sample_count == sample_count
                &&& c@.eval == eval
                &&& c@.valid()
                &&& c@.cache matches Some(s) && is_sampling(s, ctrl_point, resolution, c@.sample_count, eval)
            },
    {
        match Self::new(ctrl_point, resolution, sample_count, eval) {
            Ok(mut c) => {
                c.calc_curve();
                Ok(c)
            },
            Err(e) => Err(e),
        }
    }

    /// The four control points.
    pub fn ctrl_points(&self) -> (r: &[P; 4])
        ensures
            *r == self@.ctrl,
    {
        &self.ctrl_point
    }

    /// How many points a sampling of this curve holds.
    pub fn sample_count(&self) -> (r: usize)
        ensures
            r == self@.sample_count,
            r >= 2,
    {
        proof { use_type_invariant(self); }
        self.sample_count
    }

    /// Whether the cached polyline must be computed again before it is read.
    pub fn is_modified(&self) -> (r: bool)
        ensures
            r == self@.is_stale(),
    {
        proof { use_type_invariant(self); }
        self.modified
    }

    /// The sampling step, as its bit pattern.
    pub fn resolution(&self) -> (r: u32)
        ensures
            r == self@.resolution,
    {
        self.resolution
    }

    /// Sets the sampling step, and the sample count that goes with it.
    ///
    /// The step equal to the current one changes nothing and gives
    /// `Ok(false)`: a fresh polyline stays fresh. Any other step makes the
    /// curve stale and gives `Ok(true)`, unless it comes with fewer than two
    /// samples: that is refused, and the curve is left as it was.
    pub fn set_resolution(&mut self, resolution: u32, sample_count: usize) -> (r: Result<bool, SamplingError>)
        ensures
            final(self)@ == with_resolution(old(self)@, resolution, sample_count as nat),
            old(self)@.resolution == resolution ==> (r matches Ok(false)),
            old(self)@.resolution != resolution && sample_count < 2 ==> r == Err::<bool, SamplingError>(
                SamplingError::ResolutionOutOfRange,
            ),
            old(self)@.resolution != resolution && sample_count >= 2 ==> (r matches Ok(true)),
            final(self)@.valid(),
    {
        proof { use_type_invariant(&*self); }
        if self.resolution == resolution {
            return Ok(false);
        }
        if sample_count < 2 {
            return Err(SamplingError::ResolutionOutOfRange);
        }
        self.modified = true;
        self.resolution = resolution;
        self.sample_count = sample_count;
        Ok(true)
    }

    /// Replaces every control point by `f` of it and makes the curve stale.
    pub fn transform_ctrl_points<G: Fn(P) -> P>(&mut self, f: G)
        where P: Copy,
        requires
            forall|p: P| call_requires(f, (p,)),
        ensures
            transformed(old(self)@, final(self)@, f),
            final(self)@.valid(),
    {
        proof { use_type_invariant(&*self); }
        let a = self.ctrl_point[0];
        let b = self.ctrl_point[1];
        let c = self.ctrl_point[2];
        let d = self.ctrl_point[3];
        let moved = [f(a), f(b), f(c), f(d)];
        self.modified = true;
        self.ctrl_point = moved;
    }

    /// The sampled polyline of the current control points and step,
    /// computed first if the curve is stale.
    pub fn curve(&mut self) -> (r: &Vec<P>)
        where P: Copy,
        ensures
            final(self)@.same_curve(old(self)@),
            final(self)@.cache == Some(r@),
            old(self)@.cache matches Some(c) ==> r@ == c,
            is_sampling(r@, final(self)@.ctrl, final(self)@.resolution, final(self)@.sample_count, final(self)@.eval),
            final(self)@.valid(),
    {
        proof { use_type_invariant(&*self); }
        if self.modified {
            self.calc_curve();
        }
        proof { use_type_invariant(&*self); }
        self.curve.as_ref().unwrap()
    }

    /// Samples the curve again from the current control points, whatever its
    /// state: `P0`, then `eval` at steps `0 ..= n - 3`, then `P3`.
    pub fn calc_curve(&mut self)
        where P: Copy,
        ensures
            final(self)@.same_curve(old(self)@),
            final(self)@.valid(),
            final(self)@.cache matches Some(c) && is_sampling(
                c,
                final(self)@.ctrl,
                final(self)@.resolution,
                final(self)@.sample_count,
                final(self)@.eval,
            ),
    {
        proof { use_type_invariant(&*self); }
        let size = self.sample_count;
        let mut curve: Vec<P> = Vec::new();
        curve.push(self.ctrl_point[0]);
        let mut i: usize = 1;
        while i < size - 1
            invariant
                size == self.sample_count,
                size >= 2,
                1 <= i <= size - 1,
                curve.len() == i,
                curve@[0] == self.ctrl_point@[0],
                total(self.eval),
                forall|j: int| 1 <= j < i ==> call_ensures(
                    self.eval,
                    (self.ctrl_point, self.resolution, (j - 1) as usize),
                    #[trigger] curve@[j],
                ),
            decreases size - i,
        {
            let p = (self.eval)(self.ctrl_point, self.resolution, i - 1);
            curve.push(p);
            i += 1;
        }
        curve.push(self.ctrl_point[3]);
        self.curve = Some(curve);
        self.modified = false;
    }
}

impl<P: Copy, F: Fn([P; 4], u32, usize) -> P + Copy> Clone for CubicCurve<P, F> {
    /// A curve with the same model, its polyline copied point by point.
    fn clone(&self) -> (r: Self)
        ensures
            r@ == self@,
    {
        proof { use_type_invariant(self); }
        let curve = match &self.curve {
            Some(c) => {
                let mut copy: Vec<P> = Vec::new();
                let mut i: usize = 0;
                while i < c.len()
                    invariant
                        i <= c.len(),
                        copy@ == c@.subrange(0, i as int),
                    decreases c.len() - i,
                {
                    copy.push(c[i]);
                    i += 1;
                    proof { assert(copy@ =~= c@.subrange(0, i as int)); }
                }
                proof { assert(copy@ =~= c@); }
                Some(copy)
            },
            None => None,
        };
        CubicCurve {
            ctrl_point: self.ctrl_point,
            resolution: self.resolution,
            sample_count: self.sample_count,
            eval: self.eval,
            modified: self.modified,
            curve,
        }
    }
}

/// Moving the control points makes a curve stale, and the read that follows
/// samples it again from the moved points: the polyline starts at the moved
/// `P0` and ends at the moved `P3`, and its interior is evaluated on the
/// moved control points.
pub proof fn law_moved_curve_is_sampled_again<P, F: Fn([P; 4], u32, usize) -> P, G: Fn(P) -> P>(
    start: CurveModel<P, F>,
    moved: CurveModel<P, F>,
    read: CurveModel<P, F>,
    f: G,
)
    requires
        start.valid(),
        transformed(start, moved, f),
        read.same_curve(moved),
        read.valid(),
        !read.is_stale(),
    ensures
        moved.is_stale(),
        is_sampling(read.cache->0, moved.ctrl, start.resolution, start.sample_count, start.eval),
        call_ensures(f, (start.ctrl@[0],), read.cache->0[0]),
        call_ensures(f, (start.ctrl@[3],), read.cache->0[read.sample_count - 1]),
{
    assert(call_ensures(f, (start.ctrl@[0],), moved.ctrl@[0]));
    assert(call_ensures(f, (start.ctrl@[3],), moved.ctrl@[3]));
}

/// Setting the step `resolution` with `sample_count` samples a second time
/// has no effect beyond that of the first call.
pub proof fn law_resolution_twice_is_once<P, F: Fn([P; 4], u32, usize) -> P>(
    start: CurveModel<P, F>,
    resolution: u32,
    sample_count: nat,
)
    requires
        start.valid(),
    ensures
        with_resolution(with_resolution(start, resolution, sample_count), resolution, sample_count)
            == with_resolution(start, resolution, sample_count),
{
}

} // verus!

use vstd::prelude::*;

verus! {

/// The candidate steps a trust-region Newton iteration chooses among.
/// One iteration computes the line-search point, the (region-retracted)
/// global minimizer of the regularized quadratic model, the Cauchy
/// point and the dog-leg point, and moves to whichever of them lowers
/// the objective the most — or stays put when none of them does.
#[derive(Debug, Clone, Copy, PartialEq, Eq)]
pub enum StepCandidate {
    /// No candidate improved on the current iterate.
    NoMove,
    /// Golden-section minimizer along the ray toward the global
    /// minimizer.
    LineSearchPoint,
    /// Solution of the regularized Newton equation, retracted into the
    /// domain.
    GlobalMinimizer,
    /// Steepest-descent step capped by the trust radius or curvature.
    CauchyPoint,
    /// Point at trust-radius distance on the segment from the Cauchy
    /// point toward the global minimizer.
    DogLegPoint,
}

impl StepCandidate {
    /// The label under which the candidate is reported.
    pub open spec fn spec_label(self) -> Seq<char> {
        match self {
            StepCandidate::NoMove => "no move"@,
            StepCandidate::LineSearchPoint => "line search point"@,
            StepCandidate::GlobalMinimizer => "global minimizer"@,
            StepCandidate::CauchyPoint => "Cauchy point"@,
            StepCandidate::DogLegPoint => "dog leg point"@,
        }
    }

    pub fn label(&self) -> (r: &'static str)
        ensures
            r@ == self.spec_label(),
    {
        match self {
            StepCandidate::NoMove => "no move",
            StepCandidate::LineSearchPoint => "line search point",
            StepCandidate::GlobalMinimizer => "global minimizer",
            StepCandidate::CauchyPoint => "Cauchy point",
            StepCandidate::DogLegPoint => "dog leg point",
        }
    }
}

/// The selection rule of one Newton step, over order keys of the
/// objective values: `fx` at the current iterate and `f_ls`, `f_glm`,
/// `f_cp`, `f_dlp` at the four candidates.  The step is rejected when
/// no candidate value lies below `fx`; otherwise ties among the
/// candidates break in the fixed order line-search point, global
/// minimizer, Cauchy point, dog-leg point.
pub open spec fn step_choice(fx: u64, f_ls: u64, f_glm: u64, f_cp: u64, f_dlp: u64) -> StepCandidate {
    if fx <= f_ls && fx <= f_glm && fx <= f_cp && fx <= f_dlp {
        StepCandidate::NoMove
    } else if f_ls <= f_glm && f_ls <= f_cp && f_ls <= f_dlp {
        StepCandidate::LineSearchPoint
    } else if f_glm <= f_ls && f_glm <= f_cp && f_glm <= f_dlp {
        StepCandidate::GlobalMinimizer
    } else if f_cp <= f_ls && f_cp <= f_glm && f_cp <= f_dlp {
        StepCandidate::CauchyPoint
    } else {
        StepCandidate::DogLegPoint
    }
}

/// The objective-value key at a chosen candidate (`fx` for a rejected
/// step, since the iterate does not move).
pub open spec fn candidate_value(
    c: StepCandidate,
    fx: u64,
    f_ls: u64,
    f_glm: u64,
    f_cp: u64,
    f_dlp: u64,
) -> u64 {
    match c {
        StepCandidate::NoMove => fx,
        StepCandidate::LineSearchPoint => f_ls,
        StepCandidate::GlobalMinimizer => f_glm,
        StepCandidate::CauchyPoint => f_cp,
        StepCandidate::DogLegPoint => f_dlp,
    }
}

/// Chooses the next iterate of a Newton step from the order keys of
/// the objective values at the current iterate and at the four
/// candidate points.  The chosen candidate is one of lowest value, it
/// strictly improves on the current iterate whenever any candidate
/// does, and ties break in the documented order.
pub fn select_next_point(fx: u64, f_ls: u64, f_glm: u64, f_cp: u64, f_dlp: u64) -> (r:
    StepCandidate)
    ensures
        r == step_choice(fx, f_ls, f_glm, f_cp, f_dlp),
        r is NoMove <==> (fx <= f_ls && fx <= f_glm && fx <= f_cp && fx <= f_dlp),
        !(r is NoMove) ==> candidate_value(r, fx, f_ls, f_glm, f_cp, f_dlp) < fx,
        !(r is NoMove) ==> candidate_value(r, fx, f_ls, f_glm, f_cp, f_dlp) <= f_ls
            && candidate_value(r, fx, f_ls, f_glm, f_cp, f_dlp) <= f_glm && candidate_value(
            r,
            fx,
            f_ls,
            f_glm,
            f_cp,
            f_dlp,
        ) <= f_cp && candidate_value(r, fx, f_ls, f_glm, f_cp, f_dlp) <= f_dlp,
{
    if fx <= f_ls && fx <= f_glm && fx <= f_cp && fx <= f_dlp {
        StepCandidate::NoMove
    } else if f_ls <= f_glm && f_ls <= f_cp && f_ls <= f_dlp {
        StepCandidate::LineSearchPoint
    } else if f_glm <= f_ls && f_glm <= f_cp && f_glm <= f_dlp {
        StepCandidate::GlobalMinimizer
    } else if f_cp <= f_ls && f_cp <= f_glm && f_cp <= f_dlp {
        StepCandidate::CauchyPoint
    } else {
        StepCandidate::DogLegPoint
    }
}

/// Whether the regularization parameter of the Newton equation is too
/// large, judged from order keys of step distances and objective
/// values: the regularized global minimizer stayed at most as far from
/// the iterate as the Cauchy point and still decreased the objective
/// less.  A steepest-descent step beating the Newton step from inside
/// its radius means the regularization flattened the model; the caller
/// then retries once with the parameter backed off.
pub fn lambda_too_large(r_glm: u64, r_cp: u64, f_glm: u64, f_cp: u64) -> (r: bool)
    ensures
        r <==> (r_glm <= r_cp && f_glm > f_cp),
{
    r_glm <= r_cp && f_glm > f_cp
}

/// How the trust radius changes after a step.
#[derive(Debug, Clone, Copy, PartialEq, Eq)]
pub enum RadiusAction {
    /// The quadratic model predicted the decrease well: widen.
    Grow,
    /// The prediction was fair: keep the radius.
    Keep,
    /// The prediction was poor: narrow.
    Shrink,
}

/// The trust-radius policy over order keys: the quality ratio `q`
/// (actual decrease over model decrease) against the two fixed
/// thresholds.  Above the grow threshold the radius widens, above the
/// shrink threshold it is kept, otherwise it narrows.
pub open spec fn radius_action(q: u64, shrink_threshold: u64, grow_threshold: u64) -> RadiusAction {
    if q > grow_threshold {
        RadiusAction::Grow
    } else if q > shrink_threshold {
        RadiusAction::Keep
    } else {
        RadiusAction::Shrink
    }
}

/// Decides how the trust radius changes, from the order keys of the
/// quality ratio and of the two thresholds.
pub fn trust_radius_action(q: u64, shrink_threshold: u64, grow_threshold: u64) -> (r: RadiusAction)
    requires
        shrink_threshold <= grow_threshold,
    ensures
        r == radius_action(q, shrink_threshold, grow_threshold),
        r is Grow <==> grow_threshold < q,
        r is Shrink <==> q <= shrink_threshold,
        r is Keep <==> (shrink_threshold < q && q <= grow_threshold),
{
    if q > grow_threshold {
        RadiusAction::Grow
    } else if q > shrink_threshold {
        RadiusAction::Keep
    } else {
        RadiusAction::Shrink
    }
}

/// The least objective value among the candidates of a step, capped by
/// `ceiling` (a key far above any value that occurs).  The trust-radius
/// update measures every candidate's decrease against this best
/// decrease.
pub fn least_value(values: &Vec<u64>, ceiling: u64) -> (r: u64)
    ensures
        r <= ceiling,
        forall|i: int| 0 <= i < values@.len() ==> r <= values@[i],
        r == ceiling || exists|i: int| 0 <= i < values@.len() && values@[i] == r,
{
    let mut least: u64 = ceiling;
    let mut idx: usize = 0;
    while idx < values.len()
        invariant
            idx <= values@.len(),
            least <= ceiling,
            forall|i: int| 0 <= i < idx ==> least <= values@[i],
            least == ceiling || exists|i: int| 0 <= i < idx && values@[i] == least,
        decreases values@.len() - idx,
    {
        if values[idx] < least {
            least = values[idx];
        }
        idx += 1;
    }
    least
}

/// The farthest step distance among the candidates that achieved an
/// acceptable share of the best decrease, floored at `floor` (the key
/// of a zero distance).  The trust radius never shrinks below this
/// distance: a far point that still decreased the objective keeps the
/// region wide.
pub fn farthest_qualifying(radii: &Vec<u64>, qualifies: &Vec<bool>, floor: u64) -> (r: u64)
    requires
        radii@.len() == qualifies@.len(),
    ensures
        floor <= r,
        forall|i: int| 0 <= i < radii@.len() && qualifies@[i] ==> radii@[i] <= r,
        r == floor || exists|i: int| 0 <= i < radii@.len() && qualifies@[i] && radii@[i] == r,
{
    let mut best: u64 = floor;
    let mut idx: usize = 0;
    while idx < radii.len()
        invariant
            radii@.len() == qualifies@.len(),
            idx <= radii@.len(),
            floor <= best,
            forall|i: int| 0 <= i < idx && qualifies@[i] ==> radii@[i] <= best,
            best == floor || exists|i: int| 0 <= i < idx && qualifies@[i] && radii@[i] == best,
        decreases radii@.len() - idx,
    {
        if qualifies[idx] && radii[idx] > best {
            best = radii[idx];
        }
        idx += 1;
    }
    best
}

} // verus!

use vstd::prelude::*;

verus! {

/// Bounce bookkeeping of one radiance estimate: bounces still allowed, and
/// how many times the light has been halved by diffuse surfaces so far.
#[derive(Debug, Clone, Copy, PartialEq, Eq, Structural)]
pub struct BounceState {
    pub remaining: usize,
    pub halvings: usize,
}

/// What the estimator does next from a given state.
#[derive(Debug, Clone, Copy, PartialEq, Eq, Structural)]
pub enum Step {
    /// The bounce budget is spent: the estimate is black.
    Black,
    /// Intersect the current ray with the scene.
    Intersect,
}

/// Where an intersection query leads.
#[derive(Debug, Clone, Copy, PartialEq, Eq, Structural)]
pub enum Transition {
    /// A surface was hit: bounce off it and go on from this state.
    Bounce(BounceState),
    /// The ray escaped: the estimate is the sky gradient scaled by
    /// `2^-halvings`.
    Sky { halvings: usize },
}

impl BounceState {
    /// The halving count can grow by every remaining bounce.
    pub open spec fn wf(&self) -> bool {
        self.remaining + self.halvings <= usize::MAX
    }

    /// The state after one more diffuse bounce.
    pub open spec fn bounced(self) -> BounceState {
        BounceState { remaining: (self.remaining - 1) as usize, halvings: (self.halvings + 1) as usize }
    }

    /// The state of a fresh estimate with a budget of `max_bounces`.
    pub fn start(max_bounces: usize) -> (r: BounceState)
        ensures
            r.wf(),
            r.remaining == max_bounces,
            r.halvings == 0,
    {
        BounceState { remaining: max_bounces, halvings: 0 }
    }

    /// Black once the budget is spent, whatever the scene holds; otherwise
    /// query the scene.
    pub fn next_step(&self) -> (r: Step)
        ensures
            r == Step::Black <==> self.remaining == 0,
            r == Step::Intersect <==> self.remaining > 0,
    {
        if self.remaining == 0 {
            Step::Black
        } else {
            Step::Intersect
        }
    }

    /// A hit spends one bounce and halves the light; a miss ends the
    /// estimate on the sky.
    pub fn on_intersection(&self, hit: bool) -> (r: Transition)
        requires
            self.wf(),
            self.remaining > 0,
        ensures
            hit ==> r == Transition::Bounce(self.bounced()),
            !hit ==> r == (Transition::Sky { halvings: self.halvings }),
            r matches Transition::Bounce(s) ==> s.wf(),
    {
        if hit {
            Transition::Bounce(BounceState { remaining: self.remaining - 1, halvings: self.halvings + 1 })
        } else {
            Transition::Sky { halvings: self.halvings }
        }
    }
}

/// The estimate as a recursion on the bounce budget, with `hits[i]` telling
/// whether the ray of bounce `i` hit a surface (rays past the end escape).
/// `None` is black; `Some(h)` is the sky gradient scaled by `2^-h`.
pub open spec fn recursive_radiance(remaining: nat, hits: Seq<bool>) -> Option<nat>
    decreases remaining,
{
    if remaining == 0 {
        None
    } else if hits.len() == 0 || !hits[0] {
        Some(0)
    } else {
        match recursive_radiance((remaining - 1) as nat, hits.drop_first()) {
            None => None,
            Some(h) => Some((h + 1) as nat),
        }
    }
}

/// The estimate as the loop that drives `BounceState` with the same answers.
pub open spec fn iterative_radiance(s: BounceState, hits: Seq<bool>) -> Option<nat>
    decreases s.remaining,
{
    if s.remaining == 0 {
        None
    } else if hits.len() == 0 || !hits[0] {
        Some(s.halvings as nat)
    } else {
        iterative_radiance(s.bounced(), hits.drop_first())
    }
}

/// From any state, the loop yields what the recursion yields on the
/// remaining budget, with the halvings done so far added.
pub proof fn lemma_iterative_matches_recursive(s: BounceState, hits: Seq<bool>)
    requires
        s.wf(),
    ensures
        iterative_radiance(s, hits) == (match recursive_radiance(s.remaining as nat, hits) {
            None => None,
            Some(h) => Some((h + s.halvings) as nat),
        }),
    decreases s.remaining,
{
    if s.remaining > 0 && hits.len() > 0 && hits[0] {
        lemma_iterative_matches_recursive(s.bounced(), hits.drop_first());
    }
}

/// The loop form and the recursive form of the estimator agree for every
/// bounce budget and every sequence of hit answers.
pub proof fn lemma_loop_equals_recursion(max_bounces: usize, hits: Seq<bool>)
    ensures
        iterative_radiance(BounceState { remaining: max_bounces, halvings: 0 }, hits)
            == recursive_radiance(max_bounces as nat, hits),
{
    lemma_iterative_matches_recursive(BounceState { remaining: max_bounces, halvings: 0 }, hits);
}

/// With no bounce budget left the estimate is black, whatever the scene.
pub proof fn lemma_exhausted_is_black(s: BounceState, hits: Seq<bool>)
    requires
        s.remaining == 0,
    ensures
        iterative_radiance(s, hits) is None,
        recursive_radiance(s.remaining as nat, hits) is None,
{
}

} // verus!

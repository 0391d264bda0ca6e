//! Which queue families of an adapter serve graphics and presentation, and
//! which adapters qualify at all.
//!
//! An adapter qualifies only with a family that supports graphics and a
//! family whose support for presenting to the surface was confirmed; the
//! graphics queue never stands in for a missing present queue.

use vstd::prelude::*;

verus! {

/// One queue family of an adapter, as the platform reports it.
#[derive(Clone, Copy, Debug, PartialEq, Eq, Structural)]
pub struct QueueFamilyInfo {
    pub id: u32,
    pub supports_graphics: bool,
    /// The answer to "can this family present to the target surface?";
    /// `None` where the query itself failed.
    pub present_support: Option<bool>,
}

impl QueueFamilyInfo {
    /// Presentation counts as supported only where the query confirmed it.
    pub open spec fn presents(&self) -> bool {
        self.present_support == Some(true)
    }
}

/// Index of the first family at or after `i` that supports graphics.
pub open spec fn first_graphics_from(s: Seq<QueueFamilyInfo>, i: int) -> Option<int>
    decreases s.len() - i,
{
    if i < 0 || i >= s.len() {
        None
    } else if s[i].supports_graphics {
        Some(i)
    } else {
        first_graphics_from(s, i + 1)
    }
}

/// Index of the first family at or after `i` that can present.
pub open spec fn first_present_from(s: Seq<QueueFamilyInfo>, i: int) -> Option<int>
    decreases s.len() - i,
{
    if i < 0 || i >= s.len() {
        None
    } else if s[i].presents() {
        Some(i)
    } else {
        first_present_from(s, i + 1)
    }
}

/// The graphics family and the present family picked for one adapter.
#[derive(Clone, Copy, Debug, PartialEq, Eq, Structural)]
pub struct QueuePlan {
    pub graphics_family: u32,
    pub present_family: u32,
}

/// The first graphics family and the first present family of an adapter, where
/// it has both.
pub open spec fn plan_spec(s: Seq<QueueFamilyInfo>) -> Option<QueuePlan> {
    match (first_graphics_from(s, 0), first_present_from(s, 0)) {
        (Some(g), Some(p)) => Some(
            QueuePlan { graphics_family: s[g].id, present_family: s[p].id },
        ),
        _ => None,
    }
}

/// The families to create queues on: one queue per distinct family.
pub open spec fn distinct_families_spec(plan: QueuePlan) -> Seq<u32> {
    if plan.graphics_family == plan.present_family {
        seq![plan.graphics_family]
    } else {
        seq![plan.graphics_family, plan.present_family]
    }
}

proof fn lemma_first_graphics_skip(s: Seq<QueueFamilyInfo>, i: int)
    requires
        0 <= i,
        forall|j: int| 0 <= j < i && j < s.len() ==> !(#[trigger] s[j]).supports_graphics,
    ensures
        first_graphics_from(s, 0) == first_graphics_from(s, i),
    decreases i,
{
    if i > 0 {
        lemma_first_graphics_skip(s, i - 1);
        if i - 1 < s.len() {
            assert(!s[i - 1].supports_graphics);
        }
    }
}

proof fn lemma_first_present_skip(s: Seq<QueueFamilyInfo>, i: int)
    requires
        0 <= i,
        forall|j: int| 0 <= j < i && j < s.len() ==> !(#[trigger] s[j]).presents(),
    ensures
        first_present_from(s, 0) == first_present_from(s, i),
    decreases i,
{
    if i > 0 {
        lemma_first_present_skip(s, i - 1);
        if i - 1 < s.len() {
            assert(!s[i - 1].presents());
        }
    }
}

/// Position of the first family that supports graphics.
pub fn find_graphics_family(families: &Vec<QueueFamilyInfo>) -> (r: Option<usize>)
    ensures
        r matches Some(i) ==> first_graphics_from(families@, 0) == Some(i as int),
        r is None ==> first_graphics_from(families@, 0) is None,
        r matches Some(i) ==> i < families@.len() && families@[i as int].supports_graphics,
        r is None <==> forall|j: int| 0 <= j < families@.len() ==> !(#[trigger] families@[j]).supports_graphics,
{
    let mut i: usize = 0;
    while i < families.len()
        invariant
            i <= families@.len(),
            forall|j: int| 0 <= j < i ==> !(#[trigger] families@[j]).supports_graphics,
        decreases families@.len() - i,
    {
        if families[i].supports_graphics {
            proof {
                lemma_first_graphics_skip(families@, i as int);
            }
            return Some(i);
        }
        i = i + 1;
    }
    proof {
        lemma_first_graphics_skip(families@, i as int);
    }
    None
}

/// Position of the first family whose present support was confirmed.
pub fn find_present_family(families: &Vec<QueueFamilyInfo>) -> (r: Option<usize>)
    ensures
        r matches Some(i) ==> first_present_from(families@, 0) == Some(i as int),
        r is None ==> first_present_from(families@, 0) is None,
        r matches Some(i) ==> i < families@.len() && families@[i as int].presents(),
        r is None <==> forall|j: int| 0 <= j < families@.len() ==> !(#[trigger] families@[j]).presents(),
{
    let mut i: usize = 0;
    while i < families.len()
        invariant
            i <= families@.len(),
            forall|j: int| 0 <= j < i ==> !(#[trigger] families@[j]).presents(),
        decreases families@.len() - i,
    {
        if families[i].present_support == Some(true) {
            proof {
                lemma_first_present_skip(families@, i as int);
            }
            return Some(i);
        }
        i = i + 1;
    }
    proof {
        lemma_first_present_skip(families@, i as int);
    }
    None
}

/// The queue families that one adapter would be used with, or `None` where it
/// lacks a graphics family or a family that can present to the surface.
pub fn plan_queues(families: &Vec<QueueFamilyInfo>) -> (r: Option<QueuePlan>)
    ensures
        r == plan_spec(families@),
        r is Some <==> (exists|g: int| 0 <= g < families@.len() && (#[trigger] families@[g]).supports_graphics)
            && (exists|p: int| 0 <= p < families@.len() && (#[trigger] families@[p]).presents()),
{
    match (find_graphics_family(families), find_present_family(families)) {
        (Some(g), Some(p)) => Some(
            QueuePlan { graphics_family: families[g].id, present_family: families[p].id },
        ),
        _ => None,
    }
}

impl QueuePlan {
    /// The families to request queues on, each once: the graphics family, then
    /// the present family where it is another one.
    pub fn distinct_families(&self) -> (r: Vec<u32>)
        ensures
            r@ == distinct_families_spec(*self),
    {
        let mut r: Vec<u32> = Vec::new();
        r.push(self.graphics_family);
        if self.present_family != self.graphics_family {
            r.push(self.present_family);
        }
        proof {
            assert(r@ =~= distinct_families_spec(*self));
        }
        r
    }
}

/// An adapter that qualifies, with the families it would be used with.
#[derive(Clone, Copy, Debug, PartialEq, Eq, Structural)]
pub struct Candidate {
    /// Position of the adapter in the platform's enumeration order.
    pub adapter: usize,
    pub plan: QueuePlan,
}

/// The qualifying adapters among the first `n`, in enumeration order.
pub open spec fn candidates_spec(adapters: Seq<Vec<QueueFamilyInfo>>, n: int) -> Seq<Candidate>
    decreases n,
{
    if n <= 0 || n > adapters.len() {
        seq![]
    } else {
        let prev = candidates_spec(adapters, n - 1);
        match plan_spec(adapters[n - 1]@) {
            Some(plan) => prev.push(Candidate { adapter: (n - 1) as usize, plan }),
            None => prev,
        }
    }
}

/// The adapters that have a graphics family and a present family, in the
/// order the platform enumerated them; the caller creates a logical device on
/// each in turn and keeps the first that succeeds.
pub fn candidate_devices(adapters: &Vec<Vec<QueueFamilyInfo>>) -> (r: Vec<Candidate>)
    ensures
        r@ == candidates_spec(adapters@, adapters@.len() as int),
        forall|k: int|
            0 <= k < r@.len() ==> {
                &&& (#[trigger] r@[k]).adapter < adapters@.len()
                &&& plan_spec(adapters@[r@[k].adapter as int]@) == Some(r@[k].plan)
            },
{
    let mut r: Vec<Candidate> = Vec::new();
    let mut i: usize = 0;
    while i < adapters.len()
        invariant
            i <= adapters@.len(),
            r@ == candidates_spec(adapters@, i as int),
            forall|k: int|
                0 <= k < r@.len() ==> {
                    &&& (#[trigger] r@[k]).adapter < i
                    &&& plan_spec(adapters@[r@[k].adapter as int]@) == Some(r@[k].plan)
                },
        decreases adapters@.len() - i,
    {
        match plan_queues(&adapters[i]) {
            Some(plan) => {
                r.push(Candidate { adapter: i, plan });
            },
            None => {},
        }
        i = i + 1;
    }
    r
}

} // verus!

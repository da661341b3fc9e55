use vstd::prelude::*;

verus! {

/// Queue capability bit that marks a family able to run compute work.
pub const QUEUE_COMPUTE_BIT: u32 = 0x2;

/// Memory property bit: the host can map the memory.
pub const MEMORY_HOST_VISIBLE_BIT: u32 = 0x2;

/// Memory property bit: host writes are visible to the device without flushes.
pub const MEMORY_HOST_COHERENT_BIT: u32 = 0x4;

/// The class an accelerator reports for itself.
#[derive(Clone, Copy, Debug, PartialEq, Eq, Structural)]
pub enum AcceleratorClass {
    Other,
    Integrated,
    Discrete,
    Virtual,
    Cpu,
}

impl AcceleratorClass {
    /// Reads the numeric device-type code reported by the driver; unknown
    /// codes are treated as `Other`.
    pub fn from_raw(code: i32) -> (r: AcceleratorClass)
        ensures
            r == class_of_code(code),
    {
        match code {
            1 => AcceleratorClass::Integrated,
            2 => AcceleratorClass::Discrete,
            3 => AcceleratorClass::Virtual,
            4 => AcceleratorClass::Cpu,
            _ => AcceleratorClass::Other,
        }
    }
}

pub open spec fn class_of_code(code: i32) -> AcceleratorClass {
    if code == 1 {
        AcceleratorClass::Integrated
    } else if code == 2 {
        AcceleratorClass::Discrete
    } else if code == 3 {
        AcceleratorClass::Virtual
    } else if code == 4 {
        AcceleratorClass::Cpu
    } else {
        AcceleratorClass::Other
    }
}

/// What selection reads of one physical accelerator.
#[derive(Clone, Copy, Debug, PartialEq, Eq, Structural)]
pub struct Accelerator {
    pub class: AcceleratorClass,
    pub max_memory_allocation_count: u32,
    pub max_compute_shared_memory_size: u32,
}

/// Rank of each class: discrete, then virtual, then integrated, then
/// everything else.
pub open spec fn class_rank(c: AcceleratorClass) -> int {
    match c {
        AcceleratorClass::Discrete => 3,
        AcceleratorClass::Virtual => 2,
        AcceleratorClass::Integrated => 1,
        AcceleratorClass::Cpu | AcceleratorClass::Other => 0,
    }
}

/// Gap between the weights of two neighbouring classes; it exceeds the
/// largest weight the memory limits can add, so the class always decides first.
pub const CLASS_STEP: u64 = 10_000_000;

/// Secondary weight from the accelerator's memory limits: more allocations
/// and more compute shared memory weigh more.
pub open spec fn limits_weight(a: Accelerator) -> int {
    a.max_memory_allocation_count as int / 100_000 + a.max_compute_shared_memory_size as int / 1_000
}

pub open spec fn score_of(a: Accelerator) -> int {
    class_rank(a.class) * CLASS_STEP + limits_weight(a)
}

/// `i` is the first entry of `s` whose score no entry exceeds.
pub open spec fn is_first_best(s: Seq<Accelerator>, i: int) -> bool {
    &&& 0 <= i < s.len()
    &&& forall|j: int| 0 <= j < s.len() ==> score_of(#[trigger] s[j]) <= score_of(s[i])
    &&& forall|j: int| 0 <= j < i ==> score_of(#[trigger] s[j]) < score_of(s[i])
}

pub open spec fn has_compute(flags: u32) -> bool {
    flags & QUEUE_COMPUTE_BIT == QUEUE_COMPUTE_BIT
}

pub open spec fn is_host_coherent(flags: u32) -> bool {
    &&& flags & MEMORY_HOST_VISIBLE_BIT == MEMORY_HOST_VISIBLE_BIT
    &&& flags & MEMORY_HOST_COHERENT_BIT == MEMORY_HOST_COHERENT_BIT
}

/// `i` is the first queue family of `s` able to run compute work.
pub open spec fn is_first_compute(s: Seq<u32>, i: int) -> bool {
    &&& 0 <= i < s.len()
    &&& has_compute(s[i])
    &&& forall|j: int| 0 <= j < i ==> !has_compute(#[trigger] s[j])
}

/// `i` is the first memory type of `s` that is host-visible and host-coherent.
pub open spec fn is_first_host_coherent(s: Seq<u32>, i: int) -> bool {
    &&& 0 <= i < s.len()
    &&& is_host_coherent(s[i])
    &&& forall|j: int| 0 <= j < i ==> !is_host_coherent(#[trigger] s[j])
}

/// The index that selection settles on in a non-empty list.
pub open spec fn first_best(s: Seq<Accelerator>) -> int {
    choose|i: int| is_first_best(s, i)
}

pub open spec fn first_compute(s: Seq<u32>) -> int {
    choose|i: int| is_first_compute(s, i)
}

pub open spec fn first_host_coherent(s: Seq<u32>) -> int {
    choose|i: int| is_first_host_coherent(s, i)
}

/// The weighted heuristic used to rank accelerators.
pub fn score(a: &Accelerator) -> (r: u64)
    ensures
        r == score_of(*a),
{
    let rank: u64 = match a.class {
        AcceleratorClass::Discrete => 3,
        AcceleratorClass::Virtual => 2,
        AcceleratorClass::Integrated => 1,
        AcceleratorClass::Cpu | AcceleratorClass::Other => 0,
    };
    rank * CLASS_STEP + (a.max_memory_allocation_count / 100_000) as u64
        + (a.max_compute_shared_memory_size / 1_000) as u64
}

/// Index of the chosen accelerator: the best class present, within it the
/// highest limits weight, and among equals the first one listed. `None`
/// exactly when the list is empty.
pub fn select_accelerator(accelerators: &Vec<Accelerator>) -> (r: Option<usize>)
    ensures
        r is None <==> accelerators@.len() == 0,
        r matches Some(i) ==> {
            &&& is_first_best(accelerators@, i as int)
            &&& i == first_best(accelerators@)
            &&& forall|j: int|
                0 <= j < accelerators@.len() ==> class_rank((#[trigger] accelerators@[j]).class)
                    <= class_rank(accelerators@[i as int].class)
            &&& forall|j: int|
                0 <= j < accelerators@.len() && (#[trigger] accelerators@[j]).class
                    == accelerators@[i as int].class ==> limits_weight(accelerators@[j])
                    <= limits_weight(accelerators@[i as int])
            &&& forall|j: int|
                0 <= j < i && (#[trigger] accelerators@[j]).class == accelerators@[i as int].class
                    ==> limits_weight(accelerators@[j]) < limits_weight(accelerators@[i as int])
        },
{
    if accelerators.len() == 0 {
        return None;
    }
    let mut best: usize = 0;
    let mut best_score: u64 = score(&accelerators[0]);
    let mut i: usize = 1;
    while i < accelerators.len()
        invariant
            1 <= i <= accelerators@.len(),
            best < i,
            best_score == score_of(accelerators@[best as int]),
            forall|j: int| 0 <= j < i ==> score_of(#[trigger] accelerators@[j]) <= best_score,
            forall|j: int| 0 <= j < best ==> score_of(#[trigger] accelerators@[j]) < best_score,
        decreases accelerators@.len() - i,
    {
        let s = score(&accelerators[i]);
        if s > best_score {
            best = i;
            best_score = s;
        }
        i = i + 1;
    }
    proof {
        assert(is_first_best(accelerators@, best as int));
        lemma_first_best_unique(accelerators@, best as int, first_best(accelerators@));
        lemma_first_best_by_class(accelerators@, best as int);
    }
    Some(best)
}

/// Index of the first queue family able to run compute work.
pub fn find_compute_family(families: &Vec<u32>) -> (r: Option<u32>)
    requires
        families@.len() <= u32::MAX,
    ensures
        r is None <==> forall|j: int| 0 <= j < families@.len() ==> !has_compute(#[trigger] families@[j]),
        r matches Some(i) ==> is_first_compute(families@, i as int) && i == first_compute(families@),
{
    let mut i: usize = 0;
    while i < families.len()
        invariant
            i <= families@.len() <= u32::MAX,
            forall|j: int| 0 <= j < i ==> !has_compute(#[trigger] families@[j]),
        decreases families@.len() - i,
    {
        if families[i] & QUEUE_COMPUTE_BIT == QUEUE_COMPUTE_BIT {
            proof {
                let k = first_compute(families@);
                assert(is_first_compute(families@, i as int));
                if k < i {
                    assert(!has_compute(families@[k]));
                } else if i < k {
                    assert(!has_compute(families@[i as int]));
                }
            }
            return Some(i as u32);
        }
        i = i + 1;
    }
    None
}

/// Index of the first memory type that is both host-visible and host-coherent.
pub fn find_host_coherent_memory_type(types: &Vec<u32>) -> (r: Option<u32>)
    requires
        types@.len() <= u32::MAX,
    ensures
        r is None <==> forall|j: int| 0 <= j < types@.len() ==> !is_host_coherent(#[trigger] types@[j]),
        r matches Some(i) ==> is_first_host_coherent(types@, i as int) && i == first_host_coherent(types@),
{
    let mut i: usize = 0;
    while i < types.len()
        invariant
            i <= types@.len() <= u32::MAX,
            forall|j: int| 0 <= j < i ==> !is_host_coherent(#[trigger] types@[j]),
        decreases types@.len() - i,
    {
        let flags = types[i];
        if flags & MEMORY_HOST_VISIBLE_BIT == MEMORY_HOST_VISIBLE_BIT
            && flags & MEMORY_HOST_COHERENT_BIT == MEMORY_HOST_COHERENT_BIT {
            proof {
                let k = first_host_coherent(types@);
                assert(is_first_host_coherent(types@, i as int));
                if k < i {
                    assert(!is_host_coherent(types@[k]));
                } else if i < k {
                    assert(!is_host_coherent(types@[i as int]));
                }
            }
            return Some(i as u32);
        }
        i = i + 1;
    }
    None
}

/// Selection is deterministic: a list has only one first highest-scoring
/// entry, so the same list in the same order always yields the same choice.
pub proof fn lemma_first_best_unique(s: Seq<Accelerator>, i: int, k: int)
    requires
        is_first_best(s, i),
        is_first_best(s, k),
    ensures
        i == k,
{
    if i < k {
        assert(score_of(s[k]) <= score_of(s[i]));
    } else if k < i {
        assert(score_of(s[i]) <= score_of(s[k]));
    }
}

/// The limits never weigh as much as one class step.
pub proof fn lemma_limits_below_class_step(a: Accelerator)
    ensures
        0 <= limits_weight(a) < CLASS_STEP,
{
    assert(a.max_memory_allocation_count as int / 100_000 <= 42_949);
    assert(a.max_compute_shared_memory_size as int / 1_000 <= 4_294_967);
}

/// Scores order accelerators by class first and by limits weight within a class.
pub proof fn lemma_score_orders_by_class(a: Accelerator, b: Accelerator)
    ensures
        class_rank(a.class) < class_rank(b.class) ==> score_of(a) < score_of(b),
        a.class == b.class ==> (score_of(a) < score_of(b) <==> limits_weight(a) < limits_weight(b)),
        a.class == b.class ==> (score_of(a) <= score_of(b) <==> limits_weight(a) <= limits_weight(
            b,
        )),
{
    lemma_limits_below_class_step(a);
    lemma_limits_below_class_step(b);
    if class_rank(a.class) < class_rank(b.class) {
        assert(class_rank(a.class) * CLASS_STEP + CLASS_STEP <= class_rank(b.class) * CLASS_STEP)
            by (nonlinear_arith)
            requires
                class_rank(a.class) < class_rank(b.class),
        ;
    }
}

/// The entry selection settles on has the best class of the list, and within
/// that class the highest limits weight, first among equals.
pub proof fn lemma_first_best_by_class(s: Seq<Accelerator>, i: int)
    requires
        is_first_best(s, i),
    ensures
        forall|j: int| 0 <= j < s.len() ==> class_rank((#[trigger] s[j]).class) <= class_rank(
            s[i].class,
        ),
        forall|j: int|
            0 <= j < s.len() && (#[trigger] s[j]).class == s[i].class ==> limits_weight(s[j])
                <= limits_weight(s[i]),
        forall|j: int|
            0 <= j < i && (#[trigger] s[j]).class == s[i].class ==> limits_weight(s[j])
                < limits_weight(s[i]),
{
    assert forall|j: int| 0 <= j < s.len() implies class_rank((#[trigger] s[j]).class)
        <= class_rank(s[i].class) && (s[j].class == s[i].class ==> limits_weight(s[j])
        <= limits_weight(s[i])) && (j < i && s[j].class == s[i].class ==> limits_weight(s[j])
        < limits_weight(s[i])) by {
        lemma_score_orders_by_class(s[i], s[j]);
        lemma_score_orders_by_class(s[j], s[i]);
    }
}

/// Any list holding a discrete accelerator selects a discrete one, whatever
/// limits the entries report.
pub proof fn lemma_discrete_selected(s: Seq<Accelerator>, i: int, d: int)
    requires
        is_first_best(s, i),
        0 <= d < s.len(),
        s[d].class == AcceleratorClass::Discrete,
    ensures
        s[i].class == AcceleratorClass::Discrete,
{
    lemma_first_best_by_class(s, i);
    assert(class_rank(s[d].class) <= class_rank(s[i].class));
}

/// A list with a compute-capable family has a first one.
pub proof fn lemma_first_compute_exists(s: Seq<u32>, k: int)
    requires
        0 <= k < s.len(),
        has_compute(s[k]),
    ensures
        is_first_compute(s, first_compute(s)),
    decreases k,
{
    if exists|j: int| 0 <= j < k && has_compute(#[trigger] s[j]) {
        let j = choose|j: int| 0 <= j < k && has_compute(#[trigger] s[j]);
        lemma_first_compute_exists(s, j);
    } else {
        assert(is_first_compute(s, k));
    }
}

/// A list with a host-visible, host-coherent memory type has a first one.
pub proof fn lemma_first_host_coherent_exists(s: Seq<u32>, k: int)
    requires
        0 <= k < s.len(),
        is_host_coherent(s[k]),
    ensures
        is_first_host_coherent(s, first_host_coherent(s)),
    decreases k,
{
    if exists|j: int| 0 <= j < k && is_host_coherent(#[trigger] s[j]) {
        let j = choose|j: int| 0 <= j < k && is_host_coherent(#[trigger] s[j]);
        lemma_first_host_coherent_exists(s, j);
    } else {
        assert(is_first_host_coherent(s, k));
    }
}

} // verus!

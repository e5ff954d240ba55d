//! Model of the device-side reduction kernel's data movement.
//!
//! One group per output sample, one thread per channel. Each thread loads
//! its channel's sample into a group-shared scratch slot; a full group
//! barrier follows; then thread 0 alone reads the scratch, slot 0 upward,
//! and writes the scaled sum to the group's output slot. The scalar
//! arithmetic is the device's; what is modelled and proved here is which
//! word reaches which scratch slot — for every order in which the threads
//! may run — and that unfilled trailing slots read as zero, the documented
//! choice for inputs that are not a whole number of groups.

use vstd::prelude::*;

verus! {

use crate::NUM_CHANNELS;

/// The flat input index thread `t` of group `g` loads.
pub open spec fn flat_index(g: int, t: int) -> int {
    g * (NUM_CHANNELS as int) + t
}

/// The word scratch slot `t` of group `g` holds after the barrier: the
/// thread's sample when its flat index is in bounds, zero otherwise.
pub open spec fn shared_slot(input: Seq<u32>, g: int, t: int) -> u32 {
    if flat_index(g, t) < input.len() {
        input[flat_index(g, t)]
    } else {
        0u32
    }
}

/// The whole scratch area of group `g` after the barrier.
pub open spec fn group_shared(input: Seq<u32>, g: int) -> Seq<u32> {
    Seq::new(NUM_CHANNELS as nat, |t: int| shared_slot(input, g, t))
}

/// One thread's load step: thread `t` writes its sample into slot `t` of
/// the scratch when its flat index is in bounds, and touches nothing
/// otherwise.
pub open spec fn apply_load(shared: Seq<u32>, input: Seq<u32>, g: int, t: int) -> Seq<u32> {
    if 0 <= t < shared.len() && flat_index(g, t) < input.len() {
        shared.update(t, input[flat_index(g, t)])
    } else {
        shared
    }
}

/// The scratch after the threads named by `order` have run their load
/// steps, first element first.
pub open spec fn apply_loads(shared: Seq<u32>, input: Seq<u32>, g: int, order: Seq<int>) -> Seq<
    u32,
>
    decreases order.len(),
{
    if order.len() == 0 {
        shared
    } else {
        apply_loads(apply_load(shared, input, g, order[0]), input, g, order.drop_first())
    }
}

/// What one scratch slot holds after any run order: its thread's sample if
/// that thread ran and its index was in bounds, else whatever the scratch
/// held before. Each thread writes only its own slot, so no order of the
/// threads disturbs another slot.
pub proof fn lemma_apply_loads_slot(
    shared: Seq<u32>,
    input: Seq<u32>,
    g: int,
    order: Seq<int>,
    t: int,
)
    requires
        shared.len() == NUM_CHANNELS,
        0 <= t < NUM_CHANNELS,
    ensures
        apply_loads(shared, input, g, order).len() == NUM_CHANNELS,
        apply_loads(shared, input, g, order)[t] == if order.contains(t) && flat_index(g, t)
            < input.len() {
            input[flat_index(g, t)]
        } else {
            shared[t]
        },
    decreases order.len(),
{
    if order.len() == 0 {
        assert(!order.contains(t));
    } else {
        let h = order[0];
        let s1 = apply_load(shared, input, g, h);
        assert(s1.len() == NUM_CHANNELS);
        lemma_apply_loads_slot(s1, input, g, order.drop_first(), t);
        if order.drop_first().contains(t) {
            assert(order.contains(t)) by {
                let k = choose|k: int|
                    0 <= k < order.drop_first().len() && order.drop_first()[k] == t;
                assert(order[k + 1] == t);
            }
        } else {
            if h == t {
                if flat_index(g, t) < input.len() {
                    assert(s1[t] == input[flat_index(g, t)]);
                } else {
                    assert(s1[t] == shared[t]);
                }
                assert(order.contains(t));
            } else {
                assert(s1[t] == shared[t]);
                if order.contains(t) {
                    let k = choose|k: int| 0 <= k < order.len() && order[k] == t;
                    assert(k != 0);
                    assert(order.drop_first()[k - 1] == t);
                    assert(false);
                }
            }
        }
    }
}

/// The barrier guarantee: when the scratch starts cleared and every thread
/// of the group runs its load step — in any order, with repeats allowed —
/// the scratch after the barrier is exactly [`group_shared`]. The reduction
/// that follows therefore reads the same operands whatever schedule the
/// device chose.
pub proof fn lemma_barrier_schedule_independent(
    shared0: Seq<u32>,
    input: Seq<u32>,
    g: int,
    order: Seq<int>,
)
    requires
        shared0.len() == NUM_CHANNELS,
        0 <= g,
        forall|t: int|
            0 <= t < NUM_CHANNELS && flat_index(g, t) >= input.len() ==> shared0[t] == 0,
        forall|t: int| 0 <= t < NUM_CHANNELS ==> order.contains(t),
    ensures
        apply_loads(shared0, input, g, order) == group_shared(input, g),
{
    let result = apply_loads(shared0, input, g, order);
    assert forall|t: int| 0 <= t < NUM_CHANNELS implies result[t] == shared_slot(input, g, t) by {
        lemma_apply_loads_slot(shared0, input, g, order, t);
    }
    lemma_apply_loads_slot(shared0, input, g, order, 0);
    assert(result =~= group_shared(input, g));
}

/// For a whole group — every flat index in bounds — the scratch after the
/// barrier is exactly the group's window of the input, in channel order.
pub proof fn lemma_full_group_window(input: Seq<u32>, g: int)
    requires
        0 <= g,
        (g + 1) * (NUM_CHANNELS as int) <= input.len(),
    ensures
        group_shared(input, g) == input.subrange(
            g * (NUM_CHANNELS as int),
            (g + 1) * (NUM_CHANNELS as int),
        ),
{
    assert(group_shared(input, g) =~= input.subrange(
        g * (NUM_CHANNELS as int),
        (g + 1) * (NUM_CHANNELS as int),
    ));
}

/// For an input that is a whole number of groups, every group's reduction
/// reads exactly its own window of the input, slot 0 holding the window's
/// first sample and so on upward: the operand order of the single-thread
/// sum is the ascending channel order of the window.
pub proof fn lemma_whole_input_windows(input: Seq<u32>)
    requires
        (input.len() as int) % (NUM_CHANNELS as int) == 0,
    ensures
        forall|g: int|
            0 <= g < (input.len() as int) / (NUM_CHANNELS as int) ==> group_shared(input, g)
                == input.subrange(g * (NUM_CHANNELS as int), (g + 1) * (NUM_CHANNELS as int)),
{
    assert forall|g: int| 0 <= g < (input.len() as int) / (NUM_CHANNELS as int) implies group_shared(
        input,
        g,
    ) == input.subrange(g * (NUM_CHANNELS as int), (g + 1) * (NUM_CHANNELS as int)) by {
        assert((g + 1) * 64 <= ((input.len() as int) / 64) * 64) by (nonlinear_arith)
            requires g + 1 <= (input.len() as int) / 64;
        assert(((input.len() as int) / 64) * 64 == input.len());
        lemma_full_group_window(input, g);
    }
}

/// For a trailing partial group, every slot whose flat index is out of
/// bounds reads as zero: defined, not residue.
pub proof fn lemma_trailing_zero_fill(input: Seq<u32>, g: int, t: int)
    requires
        0 <= g,
        0 <= t < NUM_CHANNELS,
        flat_index(g, t) >= input.len(),
    ensures
        group_shared(input, g)[t] == 0,
{
}

/// Builds the scratch of group `g` after the barrier, zero-filling slots
/// whose flat index is out of bounds.
pub fn load_group_shared(input: &Vec<u32>, g: usize) -> (r: Vec<u32>)
    requires
        g <= usize::MAX / NUM_CHANNELS,
    ensures
        r@ == group_shared(input@, g as int),
        r@.len() == NUM_CHANNELS,
{
    proof {
        assert(g * (NUM_CHANNELS as int) <= usize::MAX) by (nonlinear_arith)
            requires g <= usize::MAX / NUM_CHANNELS;
    }
    let base: usize = g * NUM_CHANNELS;
    let mut shared: Vec<u32> = Vec::new();
    let mut t: usize = 0;
    while t < NUM_CHANNELS
        invariant
            t <= NUM_CHANNELS,
            base == g * (NUM_CHANNELS as int),
            shared@.len() == t,
            forall|j: int| 0 <= j < t ==> shared@[j] == shared_slot(input@, g as int, j),
        decreases NUM_CHANNELS - t,
    {
        if base < input.len() && t < input.len() - base {
            shared.push(input[base + t]);
        } else {
            shared.push(0);
        }
        t += 1;
    }
    proof {
        assert(shared@ =~= group_shared(input@, g as int));
    }
    shared
}

/// Builds every group's post-barrier scratch for a dispatch of
/// `groups` groups.
pub fn gather_groups(input: &Vec<u32>, groups: usize) -> (r: Vec<Vec<u32>>)
    requires
        groups <= usize::MAX / NUM_CHANNELS,
    ensures
        r@.len() == groups,
        forall|g: int| 0 <= g < groups ==> r@[g]@ == group_shared(input@, g),
{
    let mut out: Vec<Vec<u32>> = Vec::new();
    let mut g: usize = 0;
    while g < groups
        invariant
            g <= groups,
            groups <= usize::MAX / NUM_CHANNELS,
            out@.len() == g,
            forall|j: int| 0 <= j < g ==> out@[j]@ == group_shared(input@, j),
        decreases groups - g,
    {
        out.push(load_group_shared(input, g));
        g += 1;
    }
    out
}

} // verus!

//! Rules that the render systems share: where push constants start and how
//! point lights are numbered.

use vstd::prelude::*;

verus! {

/// How many point lights the uniform block of a frame has room for.
pub const MAX_LIGHT: usize = 10;

/// The alignment of a push constant that holds a vector.
pub const PUSH_CONSTANT_ALIGNMENT: u32 = 16;

/// The least multiple of 16 that is not below `offset`.
pub open spec fn aligned(offset: u32) -> int {
    if offset % 16 == 0 {
        offset as int
    } else {
        (offset / 16 + 1) * 16
    }
}

/// How many of the first `n` objects carry a point light.
pub open spec fn lights_before(has_light: Seq<bool>, n: int) -> nat
    decreases n,
{
    if n <= 0 {
        0
    } else {
        lights_before(has_light, n - 1) + if has_light[n - 1] {
            1nat
        } else {
            0nat
        }
    }
}

/// The aligned offset is a multiple of 16, is not below the offset, and
/// exceeds it by less than 16.
pub proof fn lemma_aligned_rounds_up(offset: u32)
    ensures
        aligned(offset) % 16 == 0,
        offset <= aligned(offset) < offset + 16,
{
}

/// The number of lights among the first `n` objects does not shrink as `n`
/// grows, and is at most `n`.
pub proof fn lemma_lights_before_monotonic(has_light: Seq<bool>, n: int, m: int)
    requires
        0 <= n <= m,
    ensures
        lights_before(has_light, n) <= lights_before(has_light, m),
        lights_before(has_light, n) <= n,
    decreases m,
{
    if n < m {
        lemma_lights_before_monotonic(has_light, n, m - 1);
    } else if n > 0 {
        lemma_lights_before_monotonic(has_light, n - 1, n - 1);
    }
}

/// Where a push constant that is laid out at `offset` in the host's struct
/// starts in the push constant block.
pub fn aligned_offset(offset: u32) -> (start: u32)
    requires
        aligned(offset) <= u32::MAX,
    ensures
        start == aligned(offset),
{
    if offset % PUSH_CONSTANT_ALIGNMENT == 0 {
        offset
    } else {
        (offset / PUSH_CONSTANT_ALIGNMENT + 1) * PUSH_CONSTANT_ALIGNMENT
    }
}

/// Numbers the point lights among the objects of a frame, given for each
/// object in turn whether it carries one: each light gets the slot after the
/// one before it, from 0. The answer also says how many lights there are.
/// The uniform block has room for `MAX_LIGHT` lights and no more.
pub fn light_slots(has_light: &Vec<bool>) -> (numbered: (Vec<Option<usize>>, usize))
    requires
        lights_before(has_light@, has_light.len() as int) <= MAX_LIGHT,
    ensures
        numbered.0.len() == has_light.len(),
        numbered.1 == lights_before(has_light@, has_light.len() as int),
        forall|i: int|
            0 <= i < has_light.len() ==> #[trigger] numbered.0[i] == if has_light[i] {
                Some(lights_before(has_light@, i) as usize)
            } else {
                None
            },
        forall|i: int|
            0 <= i < has_light.len() ==> (#[trigger] numbered.0[i] matches Some(slot) ==> slot
                < MAX_LIGHT),
{
    let mut slots: Vec<Option<usize>> = Vec::new();
    let mut light_index: usize = 0;
    let mut index: usize = 0;
    while index < has_light.len()
        invariant
            index <= has_light.len(),
            slots.len() == index,
            light_index == lights_before(has_light@, index as int),
            lights_before(has_light@, has_light.len() as int) <= MAX_LIGHT,
            forall|i: int|
                0 <= i < index ==> #[trigger] slots[i] == if has_light[i] {
                    Some(lights_before(has_light@, i) as usize)
                } else {
                    None
                },
            forall|i: int|
                0 <= i < index ==> (#[trigger] slots[i] matches Some(slot) ==> slot < MAX_LIGHT),
        decreases has_light.len() - index,
    {
        proof {
            lemma_lights_before_monotonic(has_light@, index + 1, has_light.len() as int);
        }
        if has_light[index] {
            slots.push(Some(light_index));
            light_index += 1;
        } else {
            slots.push(None);
        }
        index += 1;
    }
    (slots, light_index)
}

} // verus!

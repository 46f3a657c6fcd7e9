//! Part planning for chunked uploads.
//!
//! A file of `size` bytes is split into fixed-size parts of `PART_SIZE`
//! bytes; only the last part may be shorter.  Parts are numbered densely from
//! 1 in upload order, so part `k` carries the bytes starting at
//! `(k - 1) * PART_SIZE`.

use vstd::arithmetic::div_mod::{lemma_basic_div, lemma_div_plus_one};
use vstd::arithmetic::mul::{lemma_mul_inequality, lemma_mul_is_distributive_sub_other_way};
use vstd::prelude::*;

verus! {

/// Fixed part size for chunked uploads: 5 MiB.
pub const PART_SIZE: u64 = 5 * 1024 * 1024;

/// The sizes of the parts a `size`-byte file is split into, in upload order.
pub open spec fn part_plan(size: nat, part: nat) -> Seq<nat>
    recommends
        part > 0,
    decreases size,
    when part > 0
{
    if size == 0 {
        Seq::<nat>::empty()
    } else if size <= part {
        seq![size]
    } else {
        seq![part] + part_plan((size - part) as nat, part)
    }
}

/// The total number of bytes over a sequence of part sizes.
pub open spec fn seq_sum(s: Seq<nat>) -> nat
    decreases s.len(),
{
    if s.len() == 0 {
        0
    } else {
        s[0] + seq_sum(s.drop_first())
    }
}

/// A `size`-byte file yields exactly `ceil(size / part)` parts.
pub proof fn lemma_part_plan_count(size: nat, part: nat)
    requires
        part > 0,
    ensures
        part_plan(size, part).len() == (size + part - 1) / (part as int),
    decreases size,
{
    if size == 0 {
        lemma_basic_div((part - 1) as int, part as int);
    } else if size <= part {
        lemma_div_plus_one((size - 1) as int, part as int);
        lemma_basic_div((size - 1) as int, part as int);
    } else {
        lemma_part_plan_count((size - part) as nat, part);
        lemma_div_plus_one((size - 1) as int, part as int);
    }
}

/// The part sizes add up to the file size: every byte is transferred once.
pub proof fn lemma_part_plan_sum(size: nat, part: nat)
    requires
        part > 0,
    ensures
        seq_sum(part_plan(size, part)) == size,
    decreases size,
{
    if size == 0 {
    } else if size <= part {
        let p = part_plan(size, part);
        assert(p[0] == size);
        assert(p.drop_first() =~= Seq::<nat>::empty());
        assert(seq_sum(p) == p[0] + seq_sum(p.drop_first()));
    } else {
        let p = part_plan(size, part);
        lemma_part_plan_sum((size - part) as nat, part);
        assert(p[0] == part);
        assert(p.drop_first() =~= part_plan((size - part) as nat, part));
        assert(seq_sum(p) == p[0] + seq_sum(p.drop_first()));
    }
}

/// Every part except possibly the last is exactly `part` bytes, every part is
/// non-empty, and part `i + 1` starts at offset `i * part`, inside the file.
pub proof fn lemma_part_plan_index(size: nat, part: nat, i: int)
    requires
        part > 0,
        0 <= i < part_plan(size, part).len(),
    ensures
        i * part < size,
        part_plan(size, part)[i] == if size - i * part <= part {
            (size - i * part) as nat
        } else {
            part
        },
        0 < part_plan(size, part)[i] <= part,
        i < part_plan(size, part).len() - 1 ==> part_plan(size, part)[i] == part,
    decreases i,
{
    if i == 0 {
    } else {
        lemma_part_plan_index((size - part) as nat, part, i - 1);
        lemma_mul_is_distributive_sub_other_way(part as int, i, 1);
    }
}

/// A reader that always delivers `min(part, size - consumed)` bytes — a
/// file whose length matches the planned size — walks the plan exactly:
/// after the first `k` planned parts are consumed, the next read delivers
/// precisely part `k + 1` of the plan, and the zero-byte read signalling
/// end of file comes exactly after the last planned part.
pub proof fn lemma_plan_next_chunk(size: nat, part: nat, k: int)
    requires
        part > 0,
        0 <= k <= part_plan(size, part).len(),
    ensures
        seq_sum(part_plan(size, part).take(k)) <= size,
        k < part_plan(size, part).len() ==> vstd::math::min(
            part as int,
            size - seq_sum(part_plan(size, part).take(k)),
        ) == part_plan(size, part)[k],
        k == part_plan(size, part).len() ==> seq_sum(part_plan(size, part).take(k)) == size,
    decreases k,
{
    let plan = part_plan(size, part);
    if k == 0 {
        assert(plan.take(0) =~= Seq::<nat>::empty());
        lemma_part_plan_sum(size, part);
    } else {
        if size <= part {
            assert(plan =~= seq![size]);
            assert(plan.take(1) =~= plan);
            lemma_part_plan_sum(size, part);
        } else {
            let rest = part_plan((size - part) as nat, part);
            lemma_plan_next_chunk((size - part) as nat, part, k - 1);
            assert(plan =~= seq![part] + rest);
            assert(plan.take(k) =~= seq![part] + rest.take(k - 1));
            assert(plan.take(k)[0] == part);
            assert(plan.take(k).drop_first() =~= rest.take(k - 1));
            assert(seq_sum(plan.take(k)) == part + seq_sum(rest.take(k - 1)));
            if k < plan.len() {
                assert(plan[k] == rest[k - 1]);
            }
        }
    }
}

/// `ceil(size / PART_SIZE)`, the number of parts a chunked upload sends.
pub fn plan_part_count(size: u64, part: u64) -> (n: u64)
    requires
        part > 0,
    ensures
        n == part_plan(size as nat, part as nat).len(),
{
    proof {
        lemma_part_plan_count(size as nat, part as nat);
    }
    if size == 0 {
        0
    } else {
        proof {
            lemma_div_plus_one((size - 1) as int, part as int);
        }
        (size - 1) / part + 1
    }
}

/// The byte length of the part at `index` (0-based) in a `size`-byte upload.
pub fn plan_part_len(size: u64, part: u64, index: u64) -> (l: u64)
    requires
        part > 0,
        index < part_plan(size as nat, part as nat).len(),
    ensures
        l == part_plan(size as nat, part as nat)[index as int],
{
    proof {
        lemma_part_plan_index(size as nat, part as nat, index as int);
        lemma_mul_inequality(0, index as int, part as int);
    }
    let offset = index * part;
    let remaining = size - offset;
    if remaining >= part {
        part
    } else {
        remaining
    }
}

} // verus!

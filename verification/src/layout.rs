use vstd::prelude::*;

verus! {

/// The layout description of one field: the byte size and the alignment of
/// its declared type. Field offsets are derived from such descriptions by a
/// checked cumulative computation instead of inspecting a live instance.
#[derive(Clone, Copy, PartialEq, Eq, Structural, Debug)]
pub struct FieldLayout {
    pub size: usize,
    pub align: usize,
}

/// The smallest multiple of `a` that is at least `off`.
pub open spec fn align_up_spec(off: int, a: int) -> int {
    ((off + a - 1) / a) * a
}

/// Every alignment of the description is at least one.
pub open spec fn aligns_valid(ls: Seq<FieldLayout>) -> bool {
    forall|k: int| 0 <= k < ls.len() ==> #[trigger] ls[k].align >= 1
}

/// The cumulative end of the fields' storage: each field starts at the
/// previous end rounded up to its own alignment and extends by its size.
pub open spec fn layout_end(ls: Seq<FieldLayout>) -> int
    decreases ls.len(),
{
    if ls.len() == 0 {
        0
    } else {
        align_up_spec(layout_end(ls.drop_last()), ls.last().align as int) + ls.last().size as int
    }
}

/// The byte offset of field `i` under the cumulative layout.
pub open spec fn field_offset(ls: Seq<FieldLayout>, i: int) -> int {
    align_up_spec(layout_end(ls.take(i)), ls[i].align as int)
}

/// The largest alignment of the description, and at least one.
pub open spec fn max_align(ls: Seq<FieldLayout>) -> int
    decreases ls.len(),
{
    if ls.len() == 0 {
        1
    } else if ls.last().align as int > max_align(ls.drop_last()) {
        ls.last().align as int
    } else {
        max_align(ls.drop_last())
    }
}

/// The total size of the laid-out type: the cumulative end rounded up to the
/// largest alignment.
pub open spec fn total_size_spec(ls: Seq<FieldLayout>) -> int {
    align_up_spec(layout_end(ls), max_align(ls))
}

/// An overflow budget for the description: the sum of all sizes and
/// alignments. Every intermediate value of the computation stays within it.
pub open spec fn layout_weight(ls: Seq<FieldLayout>) -> int
    decreases ls.len(),
{
    if ls.len() == 0 {
        0
    } else {
        layout_weight(ls.drop_last()) + ls.last().size as int + ls.last().align as int
    }
}

proof fn lemma_align_up_bounds(off: int, a: int)
    requires
        off >= 0,
        a >= 1,
    ensures
        off <= align_up_spec(off, a) <= off + a - 1,
        align_up_spec(off, a) % a == 0,
{
    assert(off <= ((off + a - 1) / a) * a <= off + a - 1 && (((off + a - 1) / a) * a) % a == 0)
        by (nonlinear_arith)
        requires
            off >= 0,
            a >= 1,
    ;
}

proof fn lemma_take_succ<T>(s: Seq<T>, i: int)
    requires
        0 <= i < s.len(),
    ensures
        s.take(i + 1).drop_last() =~= s.take(i),
        s.take(i + 1).last() == s[i],
{
}

proof fn lemma_end_succ(ls: Seq<FieldLayout>, i: int)
    requires
        0 <= i < ls.len(),
    ensures
        layout_end(ls.take(i + 1)) == field_offset(ls, i) + ls[i].size,
{
    lemma_take_succ(ls, i);
}

proof fn lemma_weight_succ(ls: Seq<FieldLayout>, i: int)
    requires
        0 <= i < ls.len(),
    ensures
        layout_weight(ls.take(i + 1)) == layout_weight(ls.take(i)) + ls[i].size + ls[i].align,
{
    lemma_take_succ(ls, i);
}

proof fn lemma_max_align_succ(ls: Seq<FieldLayout>, i: int)
    requires
        0 <= i < ls.len(),
    ensures
        max_align(ls.take(i + 1)) == if ls[i].align as int > max_align(ls.take(i)) {
            ls[i].align as int
        } else {
            max_align(ls.take(i))
        },
{
    lemma_take_succ(ls, i);
}

/// The cumulative end up to `i` is non-negative and within the weight budget.
proof fn lemma_end_props(ls: Seq<FieldLayout>, i: int)
    requires
        aligns_valid(ls),
        0 <= i <= ls.len(),
    ensures
        0 <= layout_end(ls.take(i)) <= layout_weight(ls.take(i)),
        1 <= max_align(ls.take(i)),
    decreases i,
{
    if i == 0 {
        assert(ls.take(0) =~= Seq::<FieldLayout>::empty());
    } else {
        lemma_end_props(ls, i - 1);
        lemma_end_succ(ls, i - 1);
        lemma_weight_succ(ls, i - 1);
        lemma_max_align_succ(ls, i - 1);
        lemma_align_up_bounds(layout_end(ls.take(i - 1)), ls[i - 1].align as int);
    }
}

proof fn lemma_end_mono(ls: Seq<FieldLayout>, i: int, j: int)
    requires
        aligns_valid(ls),
        0 <= i <= j <= ls.len(),
    ensures
        layout_end(ls.take(i)) <= layout_end(ls.take(j)),
        layout_weight(ls.take(i)) <= layout_weight(ls.take(j)),
        max_align(ls.take(i)) <= max_align(ls.take(j)),
    decreases j - i,
{
    if i < j {
        lemma_end_mono(ls, i, j - 1);
        lemma_end_props(ls, j - 1);
        lemma_end_succ(ls, j - 1);
        lemma_weight_succ(ls, j - 1);
        lemma_max_align_succ(ls, j - 1);
        lemma_align_up_bounds(layout_end(ls.take(j - 1)), ls[j - 1].align as int);
    }
}

/// Rounds `off` up to the next multiple of `a`.
pub fn align_up(off: usize, a: usize) -> (r: usize)
    requires
        a >= 1,
        off + a - 1 <= usize::MAX,
    ensures
        r == align_up_spec(off as int, a as int),
{
    proof {
        lemma_align_up_bounds(off as int, a as int);
    }
    (off + (a - 1)) / a * a
}

/// Computes each field's byte offset and the total size of the type under the
/// cumulative layout: each field is placed at the previous end rounded up to
/// its alignment, and the total rounds the final end up to the largest
/// alignment.
pub fn compute_offsets(ls: &Vec<FieldLayout>) -> (r: (Vec<usize>, usize))
    requires
        aligns_valid(ls@),
        layout_weight(ls@) + max_align(ls@) <= usize::MAX,
    ensures
        r.0@.len() == ls@.len(),
        forall|k: int| 0 <= k < ls@.len() ==> r.0@[k] == field_offset(ls@, k),
        r.1 == total_size_spec(ls@),
{
    let ghost all = ls@;
    proof {
        assert(all.take(all.len() as int) =~= all);
    }
    let mut offs: Vec<usize> = Vec::new();
    let mut end: usize = 0;
    let mut maxa: usize = 1;
    let mut i: usize = 0;
    while i < ls.len()
        invariant
            0 <= i <= all.len(),
            all == ls@,
            aligns_valid(all),
            layout_weight(all) + max_align(all) <= usize::MAX,
            offs@.len() == i,
            forall|k: int| 0 <= k < i ==> offs@[k] == field_offset(all, k),
            end as int == layout_end(all.take(i as int)),
            maxa as int == max_align(all.take(i as int)),
        decreases all.len() - i,
    {
        let a = ls[i].align;
        let size = ls[i].size;
        proof {
            assert(all.take(all.len() as int) =~= all);
            lemma_end_props(all, i as int);
            lemma_weight_succ(all, i as int);
            lemma_end_mono(all, i + 1, all.len() as int);
            lemma_end_props(all, all.len() as int);
            assert(end + a - 1 <= usize::MAX);
        }
        let off = align_up(end, a);
        offs.push(off);
        proof {
            lemma_end_succ(all, i as int);
            lemma_max_align_succ(all, i as int);
            lemma_align_up_bounds(layout_end(all.take(i as int)), a as int);
        }
        end = off + size;
        if a > maxa {
            maxa = a;
        }
        i += 1;
    }
    proof {
        assert(all.take(all.len() as int) =~= all);
        lemma_end_props(all, all.len() as int);
        assert(end + maxa - 1 <= usize::MAX);
    }
    let total = align_up(end, maxa);
    (offs, total)
}

/// Law: under the cumulative layout, offsets are non-decreasing in field
/// index; each field's storage ends within the total size, and strictly below
/// it where the field's size is positive; and each offset is a multiple of
/// its field's alignment.
pub proof fn lemma_offsets_ordered(ls: Seq<FieldLayout>)
    requires
        aligns_valid(ls),
    ensures
        forall|i: int|
            0 <= i && i + 1 < ls.len() ==> #[trigger] field_offset(ls, i) <= field_offset(
                ls,
                i + 1,
            ),
        forall|i: int|
            0 <= i < ls.len() ==> #[trigger] field_offset(ls, i) + ls[i].size <= total_size_spec(
                ls,
            ),
        forall|i: int|
            0 <= i < ls.len() && ls[i].size >= 1 ==> #[trigger] field_offset(ls, i)
                < total_size_spec(ls),
        forall|i: int|
            0 <= i < ls.len() ==> #[trigger] field_offset(ls, i) % (ls[i].align as int) == 0,
{
    assert(ls.take(ls.len() as int) =~= ls);
    assert forall|i: int| 0 <= i < ls.len() implies {
        &&& field_offset(ls, i) + ls[i].size <= total_size_spec(ls)
        &&& (ls[i].size >= 1 ==> field_offset(ls, i) < total_size_spec(ls))
        &&& field_offset(ls, i) % (ls[i].align as int) == 0
        &&& (i + 1 < ls.len() ==> field_offset(ls, i) <= field_offset(ls, i + 1))
    } by {
        lemma_end_props(ls, i);
        lemma_align_up_bounds(layout_end(ls.take(i)), ls[i].align as int);
        lemma_end_succ(ls, i);
        lemma_end_mono(ls, i + 1, ls.len() as int);
        lemma_end_props(ls, ls.len() as int);
        lemma_align_up_bounds(layout_end(ls), max_align(ls));
        if i + 1 < ls.len() {
            lemma_end_props(ls, i + 1);
            lemma_align_up_bounds(layout_end(ls.take(i + 1)), ls[i + 1].align as int);
        }
    }
}

} // verus!

//! The layout computation: sizes, alignments and cumulative offsets.
//!
//! A record with a fixed, sequential layout places its fields in declaration
//! order; before each field the cursor is padded up to the next multiple of
//! the field's alignment, and after it the cursor advances by the field's
//! size.  `table_end` and `field_offset` state that walk as spec functions,
//! and `try_compute_layout` / `compute_layout` carry it out.

use vstd::arithmetic::div_mod::{
    lemma_fundamental_div_mod, lemma_mod_bound, lemma_mod_multiples_vanish, lemma_mod_self_0,
    lemma_small_mod,
};
use vstd::prelude::*;

verus! {

/// Size and alignment of one field's type, together with the field's
/// declared type name exactly as written in source.
#[derive(Debug, Clone, Copy)]
pub struct FieldSpec {
    /// Size of the field's type in bytes.
    pub size: usize,
    /// Alignment requirement of the field's type in bytes; at least 1 for
    /// every compiled type.
    pub align: usize,
    /// The field's declared type, as written in source.
    pub ty_name: &'static str,
}

/// Layout of one field within its record.  Two values are equal exactly when
/// all three attributes are equal.
#[derive(Debug, Clone, Copy, PartialEq, Eq)]
pub struct Alignment {
    /// Size of the field's type in bytes.
    pub size: usize,
    /// Starting byte offset of the field within the record.
    pub offset: usize,
    /// Name of the field's type, as written in source.
    pub ty_name: &'static str,
}

/// The smallest value no less than `offset` that is a multiple of `align`.
pub open spec fn align_up(offset: int, align: int) -> int
    recommends
        offset >= 0,
        align >= 1,
{
    if offset % align == 0 {
        offset
    } else {
        offset + align - offset % align
    }
}

/// Every field's alignment is at least 1, as it is for every compiled type.
pub open spec fn fields_valid(fields: Seq<FieldSpec>) -> bool {
    forall|i: int| 0 <= i < fields.len() ==> (#[trigger] fields[i]).align >= 1
}

/// Byte offset one past the last field when the fields are placed in
/// declaration order with standard padding.
pub open spec fn table_end(fields: Seq<FieldSpec>) -> int
    decreases fields.len(),
{
    if fields.len() == 0 {
        0
    } else {
        align_up(table_end(fields.drop_last()), fields.last().align as int) + fields.last().size
    }
}

/// Byte offset of field `i`: the end of the fields before it, padded up to
/// the field's own alignment.
pub open spec fn field_offset(fields: Seq<FieldSpec>, i: int) -> int
    recommends
        0 <= i < fields.len(),
{
    align_up(table_end(fields.take(i)), fields[i].align as int)
}

/// `table` is the layout table of `fields`: one entry per field, in
/// declaration order, carrying the field's size, its offset and its type
/// name.
pub open spec fn layout_matches(fields: Seq<FieldSpec>, table: Seq<Alignment>) -> bool {
    &&& table.len() == fields.len()
    &&& forall|i: int|
        0 <= i < fields.len() ==> {
            &&& (#[trigger] table[i]).size == fields[i].size
            &&& table[i].offset == field_offset(fields, i)
            &&& table[i].ty_name@ == fields[i].ty_name@
        }
}

/// `align_up` rounds up to the nearest multiple of `align`: the result is
/// aligned, moves the offset forward by less than `align`, and leaves the
/// offset in place exactly when it is already aligned.
pub proof fn lemma_align_up(offset: int, align: int)
    requires
        offset >= 0,
        align >= 1,
    ensures
        offset <= align_up(offset, align) < offset + align,
        align_up(offset, align) % align == 0,
        align_up(offset, align) == offset <==> offset % align == 0,
{
    lemma_mod_bound(offset, align);
    if offset % align != 0 {
        lemma_fundamental_div_mod(offset, align);
        lemma_mod_multiples_vanish(offset / align, align, align);
        lemma_mod_self_0(align);
        assert(align_up(offset, align) == align * (offset / align) + align);
    } else {
        lemma_small_mod(0, align as nat);
    }
}

/// Validity of a field list carries over to any prefix of it.
pub proof fn lemma_fields_valid_take(fields: Seq<FieldSpec>, j: int)
    requires
        fields_valid(fields),
        0 <= j <= fields.len(),
    ensures
        fields_valid(fields.take(j)),
{
    assert forall|i: int| 0 <= i < fields.take(j).len() implies (#[trigger] fields.take(
        j,
    )[i]).align >= 1 by {
        assert(fields.take(j)[i] == fields[i]);
    }
}

/// Unfolds `table_end` at a prefix boundary: extending the prefix by field
/// `j` pads the cursor up to that field's alignment and advances it by the
/// field's size.
pub proof fn lemma_table_end_step(fields: Seq<FieldSpec>, j: int)
    requires
        0 <= j < fields.len(),
    ensures
        table_end(fields.take(j + 1)) == align_up(
            table_end(fields.take(j)),
            fields[j].align as int,
        ) + fields[j].size,
{
    let q = fields.take(j + 1);
    assert(q.drop_last() =~= fields.take(j));
    assert(q.last() == fields[j]);
    assert(table_end(q) == align_up(table_end(q.drop_last()), q.last().align as int)
        + q.last().size);
}

/// The cursor never moves backwards: the end offset of a valid field list
/// is non-negative.
pub proof fn lemma_table_end_nonneg(fields: Seq<FieldSpec>)
    requires
        fields_valid(fields),
    ensures
        table_end(fields) >= 0,
    decreases fields.len(),
{
    if fields.len() > 0 {
        let prev = fields.drop_last();
        assert forall|i: int| 0 <= i < prev.len() implies (#[trigger] prev[i]).align >= 1 by {
            assert(prev[i] == fields[i]);
        }
        lemma_table_end_nonneg(prev);
        assert(fields.last() == fields[fields.len() - 1]);
        lemma_align_up(table_end(prev), fields.last().align as int);
    }
}

/// A longer prefix of a valid field list never ends earlier than a shorter
/// one.
pub proof fn lemma_table_end_monotonic(fields: Seq<FieldSpec>, j: int, k: int)
    requires
        fields_valid(fields),
        0 <= j <= k <= fields.len(),
    ensures
        table_end(fields.take(j)) <= table_end(fields.take(k)),
    decreases k - j,
{
    if j < k {
        lemma_fields_valid_take(fields, j);
        lemma_table_end_nonneg(fields.take(j));
        lemma_table_end_step(fields, j);
        lemma_align_up(table_end(fields.take(j)), fields[j].align as int);
        lemma_table_end_monotonic(fields, j + 1, k);
    }
}

/// Check that every field's alignment is at least 1.
pub fn check_fields(fields: &Vec<FieldSpec>) -> (r: bool)
    ensures
        r == fields_valid(fields@),
{
    let mut idx: usize = 0;
    while idx < fields.len()
        invariant
            idx <= fields.len(),
            forall|i: int| 0 <= i < idx ==> (#[trigger] fields@[i]).align >= 1,
        decreases fields.len() - idx,
    {
        if fields[idx].align == 0 {
            return false;
        }
        idx = idx + 1;
    }
    true
}

/// Compute the layout table of `fields`, checking as it goes that the
/// computation is meaningful: the result is `None` exactly when some field
/// has alignment 0 or the record's end would not fit in `usize`.
pub fn try_compute_layout(fields: &Vec<FieldSpec>) -> (r: Option<Vec<Alignment>>)
    ensures
        r is Some <==> fields_valid(fields@) && table_end(fields@) <= usize::MAX,
        r matches Some(table) ==> layout_matches(fields@, table@),
{
    if !check_fields(fields) {
        return None;
    }
    let ghost all = fields@;
    proof {
        assert(all.take(all.len() as int) =~= all);
    }
    let mut table: Vec<Alignment> = Vec::new();
    let mut offset: usize = 0;
    let mut idx: usize = 0;
    while idx < fields.len()
        invariant
            idx <= fields.len(),
            fields@ == all,
            fields_valid(all),
            offset == table_end(all.take(idx as int)),
            table@.len() == idx,
            forall|i: int|
                0 <= i < idx ==> {
                    &&& (#[trigger] table@[i]).size == all[i].size
                    &&& table@[i].offset == field_offset(all, i)
                    &&& table@[i].ty_name@ == all[i].ty_name@
                },
        decreases fields.len() - idx,
    {
        let ghost j = idx as int;
        let f = fields[idx];
        proof {
            lemma_fields_valid_take(all, j);
            lemma_table_end_nonneg(all.take(j));
            lemma_align_up(offset as int, f.align as int);
            lemma_table_end_step(all, j);
        }
        let rem = offset % f.align;
        if rem != 0 {
            let pad = f.align - rem;
            if pad > usize::MAX - offset {
                proof {
                    lemma_table_end_monotonic(all, j + 1, all.len() as int);
                    assert(all.take(all.len() as int) =~= all);
                }
                return None;
            }
            offset = offset + pad;
        }
        assert(offset == align_up(table_end(all.take(j)), all[j].align as int));
        if f.size > usize::MAX - offset {
            proof {
                lemma_table_end_monotonic(all, j + 1, all.len() as int);
                assert(all.take(all.len() as int) =~= all);
            }
            return None;
        }
        table.push(Alignment { size: f.size, offset, ty_name: f.ty_name });
        offset = offset + f.size;
        idx = idx + 1;
    }
    Some(table)
}

/// Compute the layout table of a field list that is known to be valid and
/// to fit in memory.  For such a list the walk cannot fail.
pub fn compute_layout(fields: &Vec<FieldSpec>) -> (table: Vec<Alignment>)
    requires
        fields_valid(fields@),
        table_end(fields@) <= usize::MAX,
    ensures
        layout_matches(fields@, table@),
{
    let r = try_compute_layout(fields);
    r.unwrap()
}

/// Zero base offset: in any layout table the first field sits at offset 0.
pub proof fn lemma_first_offset_zero(fields: Seq<FieldSpec>)
    requires
        fields_valid(fields),
        fields.len() > 0,
    ensures
        field_offset(fields, 0) == 0,
{
    assert(fields.take(0) =~= Seq::<FieldSpec>::empty());
    lemma_small_mod(0, fields[0].align as nat);
}

/// Alignment satisfaction: every field's offset is a multiple of the
/// field's alignment.
pub proof fn lemma_offset_aligned(fields: Seq<FieldSpec>, i: int)
    requires
        fields_valid(fields),
        0 <= i < fields.len(),
    ensures
        field_offset(fields, i) % (fields[i].align as int) == 0,
{
    lemma_fields_valid_take(fields, i);
    lemma_table_end_nonneg(fields.take(i));
    lemma_align_up(table_end(fields.take(i)), fields[i].align as int);
}

/// Offset monotonicity: each field starts at or after the end of the field
/// before it, with equality exactly when no padding was required there.
pub proof fn lemma_offset_monotonic(fields: Seq<FieldSpec>, i: int)
    requires
        fields_valid(fields),
        0 <= i,
        i + 1 < fields.len(),
    ensures
        field_offset(fields, i + 1) >= field_offset(fields, i) + fields[i].size,
        field_offset(fields, i + 1) < field_offset(fields, i) + fields[i].size + fields[i
            + 1].align,
        field_offset(fields, i + 1) == field_offset(fields, i) + fields[i].size <==> (
        field_offset(fields, i) + fields[i].size) % (fields[i + 1].align as int) == 0,
{
    lemma_table_end_step(fields, i);
    lemma_fields_valid_take(fields, i);
    lemma_table_end_nonneg(fields.take(i));
    lemma_align_up(table_end(fields.take(i)), fields[i].align as int);
    lemma_align_up(table_end(fields.take(i + 1)), fields[i + 1].align as int);
}

/// Determinism: the layout table of a field list is unique.  Any two tables
/// that match the same fields agree entry by entry in size, offset and type
/// name.
pub proof fn lemma_layout_deterministic(
    fields: Seq<FieldSpec>,
    t1: Seq<Alignment>,
    t2: Seq<Alignment>,
)
    requires
        layout_matches(fields, t1),
        layout_matches(fields, t2),
    ensures
        t1.len() == t2.len(),
        forall|i: int|
            0 <= i < t1.len() ==> {
                &&& (#[trigger] t1[i]).size == t2[i].size
                &&& t1[i].offset == t2[i].offset
                &&& t1[i].ty_name@ == t2[i].ty_name@
            },
{
}

/// Offset monotonicity of a layout table: each entry starts at or after the
/// end of the entry before it, with equality exactly when no padding was
/// required, and the gap is always smaller than the next field's alignment
/// (the padding inserted is the minimum that aligns the field).
pub proof fn lemma_table_offset_monotonic(
    fields: Seq<FieldSpec>,
    table: Seq<Alignment>,
    i: int,
)
    requires
        fields_valid(fields),
        layout_matches(fields, table),
        0 <= i,
        i + 1 < table.len(),
    ensures
        table[i + 1].offset >= table[i].offset + table[i].size,
        table[i + 1].offset < table[i].offset + table[i].size + fields[i + 1].align,
        table[i + 1].offset == table[i].offset + table[i].size <==> (table[i].offset
            + table[i].size) % (fields[i + 1].align as int) == 0,
{
    lemma_offset_monotonic(fields, i);
}

/// Alignment satisfaction of a layout table: every entry's offset is a
/// multiple of its field's alignment.
pub proof fn lemma_table_offset_aligned(fields: Seq<FieldSpec>, table: Seq<Alignment>, i: int)
    requires
        fields_valid(fields),
        layout_matches(fields, table),
        0 <= i < table.len(),
    ensures
        (table[i].offset as int) % (fields[i].align as int) == 0,
{
    lemma_offset_aligned(fields, i);
}

/// Zero base offset of a layout table: whenever the record has at least one
/// field, the first entry sits at offset 0.
pub proof fn lemma_table_first_offset_zero(fields: Seq<FieldSpec>, table: Seq<Alignment>)
    requires
        fields_valid(fields),
        layout_matches(fields, table),
        table.len() > 0,
    ensures
        table[0].offset == 0,
{
    lemma_first_offset_zero(fields);
}

} // verus!

use alignment_exporter::{compute_layout, try_compute_layout, Alignment, FieldSpec};

fn field(size: usize, align: usize, ty_name: &'static str) -> FieldSpec {
    FieldSpec {
        size,
        align,
        ty_name,
    }
}

#[test]
fn padded_record() {
    // a: 1 byte / 1 align, b: 4 bytes / 4 align, c: 2 bytes / 2 align.
    // Three bytes of padding go in between a and b so that b lands on a
    // multiple of 4.
    let fields = vec![field(1, 1, "u8"), field(4, 4, "u32"), field(2, 2, "u16")];
    let table = compute_layout(&fields);
    assert_eq!(
        table,
        vec![
            Alignment {
                size: 1,
                offset: 0,
                ty_name: "u8"
            },
            Alignment {
                size: 4,
                offset: 4,
                ty_name: "u32"
            },
            Alignment {
                size: 2,
                offset: 8,
                ty_name: "u16"
            },
        ]
    );
}

#[test]
fn contiguous_record() {
    // Three fields of identical size and alignment pack with no padding.
    let fields = vec![
        field(4, 4, "u32"),
        field(4, 4, "u32"),
        field(4, 4, "u32"),
    ];
    let table = compute_layout(&fields);
    let offsets: Vec<usize> = table.iter().map(|a| a.offset).collect();
    assert_eq!(offsets, vec![0, 4, 8]);
}

#[test]
fn single_field_record() {
    let fields = vec![field(8, 8, "u64")];
    let table = compute_layout(&fields);
    assert_eq!(table.len(), 1);
    assert_eq!(table[0].offset, 0);
    assert_eq!(table[0].size, 8);
    assert_eq!(table[0].ty_name, "u64");
}

#[test]
fn empty_record() {
    let fields: Vec<FieldSpec> = Vec::new();
    let table = compute_layout(&fields);
    assert!(table.is_empty());
}

#[test]
fn recomputing_gives_identical_table() {
    let fields = vec![field(1, 1, "u8"), field(8, 8, "u64"), field(2, 2, "u16")];
    let first = compute_layout(&fields);
    let second = compute_layout(&fields);
    assert_eq!(first, second);
}

#[test]
fn type_name_kept_as_written() {
    // The type name is the literal source text, not a resolved identity.
    let fields = vec![field(16, 8, "[u64; 2]"), field(16, 8, "Pair")];
    let table = compute_layout(&fields);
    assert_eq!(table[0].ty_name, "[u64; 2]");
    assert_eq!(table[1].ty_name, "Pair");
}

#[test]
fn padding_only_where_needed() {
    // b needs 1 byte of padding after the three 1-byte fields; d follows c
    // directly because offset 8 is already 8-aligned.
    let fields = vec![
        field(1, 1, "u8"),
        field(1, 1, "u8"),
        field(1, 1, "u8"),
        field(2, 2, "u16"),
        field(2, 2, "u16"),
        field(8, 8, "u64"),
    ];
    let table = compute_layout(&fields);
    let offsets: Vec<usize> = table.iter().map(|a| a.offset).collect();
    assert_eq!(offsets, vec![0, 1, 2, 4, 6, 8]);
}

#[test]
fn zero_alignment_is_refused() {
    let fields = vec![field(4, 0, "Odd")];
    assert!(try_compute_layout(&fields).is_none());
}

#[test]
fn oversized_record_is_refused() {
    // The second field pushes the end of the record past usize::MAX.
    let fields = vec![field(usize::MAX, 1, "Big"), field(1, 1, "u8")];
    assert!(try_compute_layout(&fields).is_none());
}

#[test]
fn largest_record_that_fits() {
    let fields = vec![field(usize::MAX - 1, 1, "Big"), field(1, 1, "u8")];
    let table = try_compute_layout(&fields).unwrap();
    assert_eq!(table[1].offset, usize::MAX - 1);
}

#[test]
fn try_compute_layout_agrees_with_compute_layout() {
    let fields = vec![field(1, 1, "bool"), field(4, 4, "i32")];
    let table = try_compute_layout(&fields).unwrap();
    assert_eq!(table, compute_layout(&fields));
}

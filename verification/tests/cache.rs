use alignment_exporter::{compute_layout, Alignment, AlignmentExporter, FieldSpec, LayoutCache};

fn sample_fields() -> Vec<FieldSpec> {
    vec![
        FieldSpec {
            size: 1,
            align: 1,
            ty_name: "u8",
        },
        FieldSpec {
            size: 4,
            align: 4,
            ty_name: "u32",
        },
        FieldSpec {
            size: 2,
            align: 2,
            ty_name: "u16",
        },
    ]
}

#[test]
fn cache_serves_the_layout() {
    let mut cache = LayoutCache::new(sample_fields());
    cache.ensure_computed();
    let table = cache.table().clone();
    assert_eq!(table, compute_layout(&sample_fields()));
}

#[test]
fn cache_is_idempotent() {
    // Repeated accesses return the same table; filling an already filled
    // cache changes nothing.
    let mut cache = LayoutCache::new(sample_fields());
    cache.ensure_computed();
    let first = cache.table().clone();
    for _ in 0..5 {
        cache.ensure_computed();
        assert_eq!(cache.table(), &first);
    }
}

struct Sample;

impl AlignmentExporter for Sample {
    fn get_alignment() -> &'static [Alignment] {
        let table = compute_layout(&sample_fields());
        Box::leak(table.into_boxed_slice())
    }
}

#[test]
fn exporter_trait_reports_the_layout() {
    let table = Sample::get_alignment();
    assert_eq!(
        table,
        &[
            Alignment {
                size: 1,
                offset: 0,
                ty_name: "u8"
            },
            Alignment {
                size: 4,
                offset: 4,
                ty_name: "u32"
            },
            Alignment {
                size: 2,
                offset: 8,
                ty_name: "u16"
            },
        ]
    );
}

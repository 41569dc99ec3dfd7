use size_of::directives::{
    all_variants_empty, any_field_charged, collect_field_info, collect_variant_info, dedup_types,
    enum_body, field_directive, holds_key, item_directive, variant_field_directive,
    DirectiveError, EnumBody, FieldDirective, FieldMarks, ItemDirective, ItemKind, ItemMarks,
    VariantMarks,
};
use size_of::{Context, SizeOf, TotalSize};

fn plain(type_key: usize) -> FieldMarks {
    FieldMarks { skip: false, skip_bounds: false, trivial: false, type_key }
}

fn skipped(type_key: usize) -> FieldMarks {
    FieldMarks { skip: true, skip_bounds: false, trivial: false, type_key }
}

fn unbounded(type_key: usize) -> FieldMarks {
    FieldMarks { skip: false, skip_bounds: true, trivial: false, type_key }
}

fn trivial(type_key: usize) -> FieldMarks {
    FieldMarks { skip: false, skip_bounds: false, trivial: true, type_key }
}

const NO_MARKS: ItemMarks = ItemMarks { skip_all: false, skip: false, skip_bounds: false };

#[test]
fn types_without_marks_follow_their_fields() {
    assert_eq!(item_directive(ItemKind::Struct, NO_MARKS), Ok(ItemDirective::Fields));
    assert_eq!(item_directive(ItemKind::Enum, NO_MARKS), Ok(ItemDirective::Fields));
}

#[test]
fn skip_all_passes_any_type_over() {
    let marks = ItemMarks { skip_all: true, skip: false, skip_bounds: false };
    assert_eq!(item_directive(ItemKind::Struct, marks), Ok(ItemDirective::Nothing));
    assert_eq!(item_directive(ItemKind::Enum, marks), Ok(ItemDirective::Nothing));
    assert_eq!(item_directive(ItemKind::Union, marks), Ok(ItemDirective::Nothing));
    // It wins over the marks that are refused.
    let all = ItemMarks { skip_all: true, skip: true, skip_bounds: true };
    assert_eq!(item_directive(ItemKind::Union, all), Ok(ItemDirective::Nothing));
}

#[test]
fn marks_of_fields_are_refused_on_types() {
    let skip = ItemMarks { skip_all: false, skip: true, skip_bounds: false };
    assert_eq!(item_directive(ItemKind::Struct, skip), Err(DirectiveError::SkipOnItem));
    let skip_bounds = ItemMarks { skip_all: false, skip: false, skip_bounds: true };
    assert_eq!(
        item_directive(ItemKind::Enum, skip_bounds),
        Err(DirectiveError::SkipBoundsOnItem),
    );
    let both = ItemMarks { skip_all: false, skip: true, skip_bounds: true };
    assert_eq!(item_directive(ItemKind::Union, both), Err(DirectiveError::SkipOnItem));
}

#[test]
fn unions_are_refused() {
    assert_eq!(item_directive(ItemKind::Union, NO_MARKS), Err(DirectiveError::Union));
}

#[test]
fn fields_are_charged_skipped_or_left_unbounded() {
    assert_eq!(field_directive(plain(0)), FieldDirective { charge: true, bound: true });
    assert_eq!(field_directive(skipped(0)), FieldDirective { charge: false, bound: false });
    assert_eq!(field_directive(unbounded(0)), FieldDirective { charge: true, bound: false });
    assert_eq!(field_directive(trivial(0)), FieldDirective { charge: false, bound: false });
    // "skip" wins over "skip bounds".
    let both = FieldMarks { skip: true, skip_bounds: true, trivial: false, type_key: 0 };
    assert_eq!(field_directive(both), FieldDirective { charge: false, bound: false });
}

#[test]
fn types_are_kept_where_they_come_first() {
    let mut keys = vec![3, 1, 3, 2, 1, 3, 4];
    dedup_types(&mut keys);
    assert_eq!(keys, vec![3, 1, 2, 4]);

    let mut empty: Vec<usize> = Vec::new();
    dedup_types(&mut empty);
    assert!(empty.is_empty());

    let mut same = vec![7, 7, 7];
    dedup_types(&mut same);
    assert_eq!(same, vec![7]);

    assert!(holds_key(&keys, 2));
    assert!(!holds_key(&keys, 5));
}

#[test]
fn bounds_are_collected_once_for_each_type() {
    let fields = [plain(0), skipped(1), plain(2), unbounded(3), plain(0), trivial(4), plain(2)];
    assert_eq!(collect_field_info(&fields), vec![0, 2]);
    assert_eq!(collect_field_info(&[]), Vec::<usize>::new());
    assert_eq!(collect_field_info(&[skipped(0), unbounded(1)]), Vec::<usize>::new());
}

#[test]
fn variants_without_charged_fields_are_empty() {
    assert!(!any_field_charged(&vec![]));
    assert!(!any_field_charged(&vec![skipped(0), trivial(1)]));
    assert!(any_field_charged(&vec![skipped(0), unbounded(1)]));

    let unit = VariantMarks { skip: false, fields: vec![] };
    let all_skipped = VariantMarks { skip: false, fields: vec![skipped(0), skipped(1)] };
    let passed_over = VariantMarks { skip: true, fields: vec![plain(0)] };
    let charged = VariantMarks { skip: false, fields: vec![skipped(0), plain(1)] };

    assert!(all_variants_empty(&[]));
    assert!(all_variants_empty(&[unit, all_skipped, passed_over]));

    let unit = VariantMarks { skip: false, fields: vec![] };
    assert!(!all_variants_empty(&[unit, charged]));
}

#[test]
fn fields_of_variants() {
    let nothing = FieldDirective { charge: false, bound: false };
    // In a variant that is passed over nothing is charged or bounded.
    assert_eq!(variant_field_directive(true, plain(0)), nothing);
    assert_eq!(variant_field_directive(true, unbounded(0)), nothing);
    // In any other the field's own marks decide.
    assert_eq!(variant_field_directive(false, plain(0)), field_directive(plain(0)));
    assert_eq!(
        variant_field_directive(false, unbounded(0)),
        FieldDirective { charge: true, bound: false },
    );
    assert_eq!(variant_field_directive(false, skipped(0)), nothing);
}

#[test]
fn bounds_of_variants_are_collected_once_for_each_type() {
    let variants = [
        VariantMarks { skip: false, fields: vec![plain(3), skipped(1), plain(2)] },
        VariantMarks { skip: true, fields: vec![plain(7), plain(3)] },
        VariantMarks { skip: false, fields: vec![] },
        VariantMarks { skip: false, fields: vec![plain(2), unbounded(5), plain(4), plain(3)] },
    ];
    assert_eq!(collect_variant_info(&variants), vec![3, 2, 4]);
    assert_eq!(collect_variant_info(&[]), Vec::<usize>::new());
    let skipped_only = [VariantMarks { skip: true, fields: vec![plain(1)] }];
    assert_eq!(collect_variant_info(&skipped_only), Vec::<usize>::new());
}

#[test]
fn enum_bodies() {
    assert_eq!(enum_body(&[]), EnumBody::Uninhabited);
    let unit = VariantMarks { skip: false, fields: vec![] };
    let passed_over = VariantMarks { skip: true, fields: vec![plain(0)] };
    assert_eq!(enum_body(&[unit, passed_over]), EnumBody::Empty);
    let unit = VariantMarks { skip: false, fields: vec![] };
    let charged = VariantMarks { skip: false, fields: vec![plain(1)] };
    assert_eq!(enum_body(&[unit, charged]), EnumBody::Match);
}

// A struct with the implementation that is written for two charged fields
// and one that is passed over.
struct Record {
    name: String,
    values: Vec<u32>,
    #[allow(dead_code)]
    scratch: Vec<u8>,
}

impl SizeOf for Record {
    fn size_of_children(&self, context: &mut Context) {
        <String as SizeOf>::size_of_children(&self.name, context);
        <Vec<u32> as SizeOf>::size_of_children(&self.values, context);
    }
}

// An enum with the implementation that is written for its variants.
enum Shape {
    Empty,
    Named { label: Box<str>, #[allow(dead_code)] cache: Vec<u8> },
    Pair(Box<u64>, Box<u64>),
}

impl SizeOf for Shape {
    fn size_of_children(&self, context: &mut Context) {
        match self {
            Self::Empty => {}
            Self::Named { label, .. } => {
                <Box<str> as SizeOf>::size_of_children(label, context);
            }
            Self::Pair(_0, _1) => {
                <Box<u64> as SizeOf>::size_of_children(_0, context);
                <Box<u64> as SizeOf>::size_of_children(_1, context);
            }
        }
    }
}

#[test]
fn written_implementations_measure_their_fields() {
    let mut name = String::new();
    name.reserve_exact(4);
    name.push_str("name");
    let mut values = Vec::new();
    values.reserve_exact(3);
    values.extend([1u32, 2, 3]);
    let record = Record { name, values, scratch: vec![0; 100] };
    assert_eq!(
        record.size_of(),
        TotalSize::new(core::mem::size_of::<Record>() + 4 + 12, 0, 0, 2),
    );

    let shape = core::mem::size_of::<Shape>();
    assert_eq!(Shape::Empty.size_of(), TotalSize::total(shape));
    assert_eq!(
        Shape::Named { label: "abc".into(), cache: vec![0; 10] }.size_of(),
        TotalSize::new(shape + 3, 0, 0, 1),
    );
    assert_eq!(
        Shape::Pair(Box::new(1), Box::new(2)).size_of(),
        TotalSize::new(shape + 16, 0, 0, 2),
    );
    assert_eq!(
        vec![Shape::Empty, Shape::Pair(Box::new(1), Box::new(2))].size_of(),
        TotalSize::new(core::mem::size_of::<Vec<Shape>>() + 2 * shape + 16, 0, 0, 3),
    );
}

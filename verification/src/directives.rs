//! What an implementation of [`crate::SizeOf`] that is written from the
//! definition of a type has to do for each field: charge its children or
//! pass it over, and ask for the field's type to be measurable or not.
//!
//! A type is described by the marks on it and on its variants and fields.
//! Types of fields are given as keys: equal types have equal keys.

use vstd::prelude::*;

verus! {

/// The kind of a type definition.
#[derive(Debug, Clone, Copy, PartialEq, Eq, Structural)]
pub enum ItemKind {
    /// A product of fields.
    Struct,
    /// A choice between variants.
    Enum,
    /// Fields that overlap in memory.
    Union,
}

/// Why no implementation can be written for a type.
#[derive(Debug, Clone, Copy, PartialEq, Eq, Structural)]
pub enum DirectiveError {
    /// The whole type is marked as a field to pass over; the mark for that
    /// on a type is "skip all".
    SkipOnItem,
    /// The whole type is marked as one whose bound is left out.
    SkipBoundsOnItem,
    /// The type is a union, whose fields in use cannot be told.
    Union,
}

/// What the implementation for a whole type does.
#[derive(Debug, Clone, Copy, PartialEq, Eq, Structural)]
pub enum ItemDirective {
    /// Nothing, for every value of the type.
    Nothing,
    /// What the marks on its fields say.
    Fields,
}

/// The marks on a type, its variants excluded.
#[derive(Debug, Clone, Copy, PartialEq, Eq, Structural)]
pub struct ItemMarks {
    /// The type is marked "skip all".
    pub skip_all: bool,
    /// The type is marked "skip".
    pub skip: bool,
    /// The type is marked "skip bounds".
    pub skip_bounds: bool,
}

/// One field: its marks and its type.
#[derive(Debug, Clone, Copy, PartialEq, Eq, Structural)]
pub struct FieldMarks {
    /// The field is marked "skip".
    pub skip: bool,
    /// The field is marked "skip bounds".
    pub skip_bounds: bool,
    /// The field's type is a function pointer or a raw pointer, which is
    /// known to own nothing.
    pub trivial: bool,
    /// The key of the field's type.
    pub type_key: usize,
}

/// What is done for one field.
#[derive(Debug, Clone, Copy, PartialEq, Eq, Structural)]
pub struct FieldDirective {
    /// The children of the field are charged.
    pub charge: bool,
    /// The field's type is asked to be measurable.
    pub bound: bool,
}

/// What the body of the implementation for an enum is.
#[derive(Debug, Clone, Copy, PartialEq, Eq, Structural)]
pub enum EnumBody {
    /// A match without arms on the value itself, for an enum without variants.
    Uninhabited,
    /// Nothing, where no variant has a field to charge.
    Empty,
    /// A match with one arm for each variant.
    Match,
}

/// The directive for a type of `kind` with `marks`: "skip all" makes the
/// implementation do nothing, for a type of any kind; the marks of fields
/// are refused on a type; and so is a union that is not passed over.
pub open spec fn item_directive_of(kind: ItemKind, marks: ItemMarks) -> Result<
    ItemDirective,
    DirectiveError,
> {
    if marks.skip_all {
        Ok(ItemDirective::Nothing)
    } else if marks.skip {
        Err(DirectiveError::SkipOnItem)
    } else if marks.skip_bounds {
        Err(DirectiveError::SkipBoundsOnItem)
    } else if kind == ItemKind::Union {
        Err(DirectiveError::Union)
    } else {
        Ok(ItemDirective::Fields)
    }
}

/// Decides what the implementation for a whole type does.
pub fn item_directive(kind: ItemKind, marks: ItemMarks) -> (directive: Result<
    ItemDirective,
    DirectiveError,
>)
    ensures
        directive == item_directive_of(kind, marks),
{
    if marks.skip_all {
        Ok(ItemDirective::Nothing)
    } else if marks.skip {
        Err(DirectiveError::SkipOnItem)
    } else if marks.skip_bounds {
        Err(DirectiveError::SkipBoundsOnItem)
    } else {
        match kind {
            ItemKind::Union => Err(DirectiveError::Union),
            ItemKind::Struct => Ok(ItemDirective::Fields),
            ItemKind::Enum => Ok(ItemDirective::Fields),
        }
    }
}

/// The directive for a field with `marks`. A field marked "skip" is passed
/// over. One marked "skip bounds" is charged without a bound on its type. A
/// field of a type that is known to own nothing is neither charged nor
/// bounded. Every other field is charged, and its type bounded.
pub open spec fn field_directive_of(marks: FieldMarks) -> FieldDirective {
    if marks.skip {
        FieldDirective { charge: false, bound: false }
    } else if marks.skip_bounds {
        FieldDirective { charge: true, bound: false }
    } else if marks.trivial {
        FieldDirective { charge: false, bound: false }
    } else {
        FieldDirective { charge: true, bound: true }
    }
}

/// Decides what is done for one field.
pub fn field_directive(marks: FieldMarks) -> (directive: FieldDirective)
    ensures
        directive == field_directive_of(marks),
{
    if marks.skip {
        FieldDirective { charge: false, bound: false }
    } else if marks.skip_bounds {
        FieldDirective { charge: true, bound: false }
    } else if marks.trivial {
        FieldDirective { charge: false, bound: false }
    } else {
        FieldDirective { charge: true, bound: true }
    }
}

/// The keys of `keys`, each at the place where it comes first.
pub open spec fn first_occurrences(keys: Seq<usize>) -> Seq<usize>
    decreases keys.len(),
{
    if keys.len() == 0 {
        Seq::empty()
    } else {
        let before = first_occurrences(keys.drop_last());
        if before.contains(keys.last()) {
            before
        } else {
            before.push(keys.last())
        }
    }
}

/// [`first_occurrences`] holds every key of `keys`, none of them twice, and
/// no other.
pub proof fn first_occurrences_are_the_keys(keys: Seq<usize>)
    ensures
        first_occurrences(keys).no_duplicates(),
        forall|key: usize| first_occurrences(keys).contains(key) <==> keys.contains(key),
        first_occurrences(keys).len() <= keys.len(),
    decreases keys.len(),
{
    if keys.len() != 0 {
        let shorter = keys.drop_last();
        first_occurrences_are_the_keys(shorter);
        let before = first_occurrences(shorter);
        let all = first_occurrences(keys);
        assert forall|key: usize| all.contains(key) <==> keys.contains(key) by {
            if keys.contains(key) {
                let i = choose|i: int| 0 <= i < keys.len() && keys[i] == key;
                if i < keys.len() - 1 {
                    assert(shorter[i] == key);
                    assert(shorter.contains(key));
                    assert(before.contains(key));
                    let j = choose|j: int| 0 <= j < before.len() && before[j] == key;
                    assert(all[j] == key);
                } else if before.contains(key) {
                } else {
                    assert(all[before.len() as int] == key);
                }
            }
            if all.contains(key) {
                let j = choose|j: int| 0 <= j < all.len() && all[j] == key;
                if j < before.len() {
                    assert(before[j] == key);
                    assert(before.contains(key));
                    assert(shorter.contains(key));
                    let i = choose|i: int| 0 <= i < shorter.len() && shorter[i] == key;
                    assert(keys[i] == key);
                } else {
                    assert(keys[keys.len() - 1] == key);
                }
            }
        }
    }
}

/// Whether `key` is among `keys`.
pub fn holds_key(keys: &Vec<usize>, key: usize) -> (found: bool)
    ensures
        found == keys@.contains(key),
{
    let mut i: usize = 0;
    while i < keys.len()
        invariant
            i <= keys.len(),
            forall|j: int| 0 <= j < i ==> keys@[j] != key,
        decreases keys.len() - i,
    {
        if keys[i] == key {
            return true;
        }
        i = i + 1;
    }
    false
}

/// Removes from `field_types` every key that came before, so that a bound
/// is asked for once for each type.
pub fn dedup_types(field_types: &mut Vec<usize>)
    ensures
        final(field_types)@ == first_occurrences(old(field_types)@),
{
    let mut kept: Vec<usize> = Vec::new();
    let mut i: usize = 0;
    while i < field_types.len()
        invariant
            i <= field_types.len(),
            *field_types == *old(field_types),
            kept@ == first_occurrences(field_types@.take(i as int)),
        decreases field_types.len() - i,
    {
        assert(field_types@.take(i + 1).drop_last() == field_types@.take(i as int));
        let key = field_types[i];
        if !holds_key(&kept, key) {
            kept.push(key);
        }
        i = i + 1;
    }
    assert(field_types@.take(i as int) == field_types@);
    *field_types = kept;
}

/// The keys of the types of `fields` that are to be bounded, in the order
/// of the fields.
pub open spec fn bounded_keys(fields: Seq<FieldMarks>) -> Seq<usize>
    decreases fields.len(),
{
    if fields.len() == 0 {
        Seq::empty()
    } else if field_directive_of(fields.last()).bound {
        bounded_keys(fields.drop_last()).push(fields.last().type_key)
    } else {
        bounded_keys(fields.drop_last())
    }
}

/// Collects the types that the implementation asks to be measurable: those
/// of the fields that are to be bounded, each type once.
pub fn collect_field_info(fields: &[FieldMarks]) -> (field_types: Vec<usize>)
    ensures
        field_types@ == first_occurrences(bounded_keys(fields@)),
{
    let mut field_types: Vec<usize> = Vec::new();
    let mut i: usize = 0;
    while i < fields.len()
        invariant
            i <= fields.len(),
            field_types@ == bounded_keys(fields@.take(i as int)),
        decreases fields.len() - i,
    {
        assert(fields@.take(i + 1).drop_last() == fields@.take(i as int));
        if field_directive(fields[i]).bound {
            field_types.push(fields[i].type_key);
        }
        i = i + 1;
    }
    assert(fields@.take(i as int) == fields@);
    dedup_types(&mut field_types);
    field_types
}

/// One variant of an enum: its mark and its fields.
pub struct VariantMarks {
    /// The variant is marked "skip".
    pub skip: bool,
    /// The fields of the variant.
    pub fields: Vec<FieldMarks>,
}

/// The directive for a field of a variant: no field of a variant that is
/// passed over is charged or bounded, and every other field is treated as
/// its own marks say.
pub open spec fn variant_field_directive_of(variant_skip: bool, marks: FieldMarks) -> FieldDirective {
    if variant_skip {
        FieldDirective { charge: false, bound: false }
    } else {
        field_directive_of(marks)
    }
}

/// Decides what is done for one field of a variant.
pub fn variant_field_directive(variant_skip: bool, marks: FieldMarks) -> (directive: FieldDirective)
    ensures
        directive == variant_field_directive_of(variant_skip, marks),
        directive == (if variant_skip {
            FieldDirective { charge: false, bound: false }
        } else {
            field_directive_of(marks)
        }),
{
    if variant_skip {
        FieldDirective { charge: false, bound: false }
    } else {
        field_directive(marks)
    }
}

/// The fields of the variants that are not passed over, in the order of the
/// variants.
pub open spec fn kept_fields(variants: Seq<VariantMarks>) -> Seq<FieldMarks>
    decreases variants.len(),
{
    if variants.len() == 0 {
        Seq::empty()
    } else if variants.last().skip {
        kept_fields(variants.drop_last())
    } else {
        kept_fields(variants.drop_last()) + variants.last().fields@
    }
}

/// The keys to bound of fields that follow each other are those of the
/// first fields, followed by those of the second.
pub proof fn bounded_keys_of_joined(first: Seq<FieldMarks>, second: Seq<FieldMarks>)
    ensures
        bounded_keys(first + second) == bounded_keys(first) + bounded_keys(second),
    decreases second.len(),
{
    if second.len() == 0 {
        assert(first + second == first);
        assert(bounded_keys(first) + bounded_keys(second) == bounded_keys(first));
    } else {
        bounded_keys_of_joined(first, second.drop_last());
        assert((first + second).drop_last() == first + second.drop_last());
        assert((first + second).last() == second.last());
        if field_directive_of(second.last()).bound {
            assert((bounded_keys(first) + bounded_keys(second.drop_last())).push(
                second.last().type_key,
            ) == bounded_keys(first) + bounded_keys(second.drop_last()).push(
                second.last().type_key,
            ));
        }
    }
}

/// Collects the types that the implementation for an enum asks to be
/// measurable: those of the fields to be bounded in the variants that are
/// not passed over, each type once.
pub fn collect_variant_info(variants: &[VariantMarks]) -> (field_types: Vec<usize>)
    ensures
        field_types@ == first_occurrences(bounded_keys(kept_fields(variants@))),
{
    let mut field_types: Vec<usize> = Vec::new();
    let mut i: usize = 0;
    while i < variants.len()
        invariant
            i <= variants.len(),
            field_types@ == bounded_keys(kept_fields(variants@.take(i as int))),
        decreases variants.len() - i,
    {
        assert(variants@.take(i + 1).drop_last() == variants@.take(i as int));
        if !variants[i].skip {
            let fields = &variants[i].fields;
            let ghost before = field_types@;
            let mut j: usize = 0;
            assert(bounded_keys(fields@.take(0)) == Seq::<usize>::empty());
            assert(before + Seq::<usize>::empty() == before);
            while j < fields.len()
                invariant
                    j <= fields.len(),
                    field_types@ == before + bounded_keys(fields@.take(j as int)),
                decreases fields.len() - j,
            {
                assert(fields@.take(j + 1).drop_last() == fields@.take(j as int));
                let marks = fields[j];
                if field_directive(marks).bound {
                    field_types.push(marks.type_key);
                    assert(field_types@ == before + bounded_keys(fields@.take(j as int)).push(
                        marks.type_key,
                    ));
                }
                j = j + 1;
            }
            proof {
                assert(fields@.take(j as int) == fields@);
                bounded_keys_of_joined(kept_fields(variants@.take(i as int)), fields@);
            }
        }
        i = i + 1;
    }
    assert(variants@.take(i as int) == variants@);
    dedup_types(&mut field_types);
    field_types
}

/// Whether any of `fields` is charged.
pub open spec fn charges_any(fields: Seq<FieldMarks>) -> bool {
    exists|i: int| 0 <= i < fields.len() && field_directive_of(#[trigger] fields[i]).charge
}

/// Whether a variant contributes nothing: it is passed over, or none of its
/// fields is charged.
pub open spec fn variant_is_empty(variant: VariantMarks) -> bool {
    variant.skip || !charges_any(variant.fields@)
}

/// Whether any of `fields` is charged.
pub fn any_field_charged(fields: &Vec<FieldMarks>) -> (any: bool)
    ensures
        any == charges_any(fields@),
{
    let mut i: usize = 0;
    while i < fields.len()
        invariant
            i <= fields.len(),
            forall|j: int| 0 <= j < i ==> !field_directive_of(#[trigger] fields@[j]).charge,
        decreases fields.len() - i,
    {
        if field_directive(fields[i]).charge {
            return true;
        }
        i = i + 1;
    }
    false
}

/// Whether every one of `variants` contributes nothing.
pub fn all_variants_empty(variants: &[VariantMarks]) -> (empty: bool)
    ensures
        empty == forall|i: int|
            0 <= i < variants@.len() ==> variant_is_empty(#[trigger] variants@[i]),
{
    let mut i: usize = 0;
    while i < variants.len()
        invariant
            i <= variants.len(),
            forall|j: int| 0 <= j < i ==> variant_is_empty(#[trigger] variants@[j]),
        decreases variants.len() - i,
    {
        if !variants[i].skip && any_field_charged(&variants[i].fields) {
            return false;
        }
        i = i + 1;
    }
    true
}

/// The body for an enum with `variants`: without variants there is no value
/// to look at; where every variant contributes nothing the body is empty;
/// else the active variant is matched.
pub open spec fn enum_body_of(variants: Seq<VariantMarks>) -> EnumBody {
    if variants.len() == 0 {
        EnumBody::Uninhabited
    } else if forall|i: int| 0 <= i < variants.len() ==> variant_is_empty(#[trigger] variants[i]) {
        EnumBody::Empty
    } else {
        EnumBody::Match
    }
}

/// Decides the body of the implementation for an enum.
pub fn enum_body(variants: &[VariantMarks]) -> (body: EnumBody)
    ensures
        body == enum_body_of(variants@),
{
    if variants.len() == 0 {
        EnumBody::Uninhabited
    } else if all_variants_empty(variants) {
        EnumBody::Empty
    } else {
        EnumBody::Match
    }
}

} // verus!

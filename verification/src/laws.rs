//! What holds of every generated builder, whatever was read from the string
//! literals of the attributes (the `aliases` of each law).

use vstd::prelude::*;

use crate::error::{ClauseError, UsageError};
use crate::runtime::{
    accepts, after_call, after_calls, built, first_lack, lacks, new_slots, singles, Slots,
    ValueModel,
};
use crate::schema::{BuildInitModel, BuildMethodModel, BuilderSchemaModel, SetterKind, SetterModel};
use crate::shape::{shape_of, ShapeModel};
use crate::syntax::{Data, Declaration, Field, Fields, StrLit};
use crate::utils::builder_attr;
use crate::{
    all_setter, build_init, each_setter, factory_init, field_setters, fields_of, generate,
    lemma_setters_err_persists, missing_message, reads_alias, setters, Aliases,
};

verus! {

/// The shape of the type of the field at position `i`.
pub open spec fn shape_at(input: Declaration, i: int) -> ShapeModel {
    shape_of(fields_of(input)[i].ty@)
}

/// The string literal of the attribute `#[builder(each = "...")]` of the
/// field at position `i`, if the field has such an attribute.
pub open spec fn clause_at(input: Declaration, i: int) -> Option<StrLit> {
    match builder_attr(fields_of(input)[i].attrs@) {
        Some(attr) => match attr.alias_literal() {
            Ok(lit) => Some(lit),
            Err(_) => None,
        },
        None => None,
    }
}

/// The alias that the attribute of the field at position `i` gives to the
/// field's one-at-a-time setter: the identifier that was read from its
/// string literal, if the field has such an attribute, the literal has no
/// suffix, and an identifier was read.
pub open spec fn alias_at(input: Declaration, aliases: Aliases, i: int) -> Option<Seq<char>> {
    match clause_at(input, i) {
        Some(lit) => if lit.suffix@.len() == 0 {
            aliases[i]
        } else {
            None
        },
        None => None,
    }
}

/// The builder of a declaration that is given one.
pub open spec fn generated(input: Declaration, aliases: Aliases) -> BuilderSchemaModel {
    generate(input, aliases)->Ok_0
}

/// The setters of the generated builder.
pub open spec fn setters_of(input: Declaration, aliases: Aliases) -> Seq<SetterModel> {
    generated(input, aliases).builder_impl.setters
}

/// The `build` method of the generated builder.
pub open spec fn build_of(input: Declaration, aliases: Aliases) -> BuildMethodModel {
    generated(input, aliases).builder_impl.build
}

/// What a new builder holds, as the generated factory method makes it.
pub open spec fn new_builder<V>(input: Declaration, aliases: Aliases) -> Slots<V> {
    new_slots(generated(input, aliases).target_impl.inits)
}

/// The setters that write the field at position `i`, in the order in which
/// they are generated.
pub open spec fn setters_for(all: Seq<SetterModel>, i: int) -> Seq<SetterModel> {
    all.filter(|s: SetterModel| s.slot == i)
}

/// Whether a builder holds a list in every field written `Vec<T>`.
pub open spec fn lists_present<V>(input: Declaration, slots: Slots<V>) -> bool {
    &&& slots.len() == fields_of(input).len()
    &&& forall|i: int|
        0 <= i < fields_of(input).len() && #[trigger] shape_at(input, i) is List
            ==> slots[i] matches Some(ValueModel::List(_))
}

/// A struct with named fields is given a builder exactly if no attribute of
/// a field is refused. The builder struct, `build` and the factory method
/// then have one entry for each field, in the order of the fields and under
/// the fields' names.
pub proof fn generated_follows_the_fields(input: Declaration, aliases: Aliases)
    requires
        input.data matches Data::Struct(Fields::Named(_)),
    ensures
        generate(input, aliases) is Ok <==> setters(fields_of(input), aliases) is Ok,
        generate(input, aliases) is Ok ==> {
            let out = generated(input, aliases);
            &&& out.builder_struct.name == input.ident@ + "Builder"@
            &&& out.builder_struct.vis == input.vis
            &&& out.builder_struct.fields.len() == fields_of(input).len()
            &&& out.builder_impl.build.inits.len() == fields_of(input).len()
            &&& out.target_impl.inits.len() == fields_of(input).len()
            &&& forall|i: int|
                0 <= i < fields_of(input).len() ==> {
                    &&& (#[trigger] out.builder_struct.fields[i]).name == fields_of(input)[i].ident@
                    &&& out.builder_impl.build.inits[i] == build_init(fields_of(input)[i])
                    &&& out.target_impl.inits[i] == factory_init(fields_of(input)[i])
                }
        },
{
}

/// The setters of a field whose literal is not read are the same whatever
/// stands for it among the aliases.
proof fn lemma_unread_alias(field: Field, slot: int, a: Option<Seq<char>>, b: Option<Seq<char>>)
    requires
        !reads_alias(field),
    ensures
        field_setters(field, slot, a) == field_setters(field, slot, b),
{
}

/// The setters depend on the aliases of the fields whose literal is read,
/// and on no others.
proof fn lemma_setters_of_read_aliases(fields: Seq<Field>, a: Aliases, b: Aliases)
    requires
        forall|i: int| 0 <= i < fields.len() && reads_alias(#[trigger] fields[i]) ==> a[i] == b[i],
    ensures
        setters(fields, a) == setters(fields, b),
    decreases fields.len(),
{
    if fields.len() > 0 {
        let last = fields.len() - 1;
        assert forall|i: int|
            0 <= i < fields.drop_last().len() && reads_alias(
                #[trigger] fields.drop_last()[i],
            ) implies a[i] == b[i] by {
            assert(fields.drop_last()[i] == fields[i]);
        }
        lemma_setters_of_read_aliases(fields.drop_last(), a, b);
        if !reads_alias(fields[last]) {
            lemma_unread_alias(fields[last], last, a[last], b[last]);
        }
    }
}

/// What is generated depends on the declaration and on what was read from
/// the string literals that are read, and on nothing else: two choices of
/// aliases that agree on the fields whose literal is read give the same
/// result. So a declaration in which no literal is read has one result.
pub proof fn what_is_not_read_changes_nothing(input: Declaration, a: Aliases, b: Aliases)
    requires
        forall|i: int|
            0 <= i < fields_of(input).len() && reads_alias(#[trigger] fields_of(input)[i]) ==> a[i]
                == b[i],
    ensures
        generate(input, a) == generate(input, b),
{
    lemma_setters_of_read_aliases(fields_of(input), a, b);
}

/// A record without fields is given a builder without fields and without
/// setters, whose `build` checks nothing and whose factory method fills
/// nothing: a new builder is empty, and `build` turns it into the empty
/// record.
pub proof fn record_without_fields<V>(input: Declaration, aliases: Aliases)
    requires
        input.data matches Data::Struct(Fields::Named(fields)) && fields@.len() == 0,
    ensures
        generate(input, aliases) is Ok,
        generated(input, aliases).builder_struct.fields.len() == 0,
        setters_of(input, aliases).len() == 0,
        build_of(input, aliases).inits.len() == 0,
        generated(input, aliases).target_impl.inits.len() == 0,
        new_builder::<V>(input, aliases).len() == 0,
        built(build_of(input, aliases), new_builder::<V>(input, aliases)) == Ok::<
            Slots<V>,
            Seq<char>,
        >(Seq::empty()),
{
    assert(new_builder::<V>(input, aliases) =~= Seq::empty());
}

/// Where a field lacks a value, some field is the first to lack one.
proof fn lemma_some_lack_is_first<V>(inits: Seq<BuildInitModel>, slots: Slots<V>, i: int)
    requires
        lacks(inits, slots, i),
    ensures
        exists|k: int| 0 <= k <= i && first_lack(inits, slots, k),
    decreases i,
{
    if exists|j: int| 0 <= j < i && lacks(inits, slots, j) {
        let j = choose|j: int| 0 <= j < i && lacks(inits, slots, j);
        lemma_some_lack_is_first(inits, slots, j);
    } else {
        assert(first_lack(inits, slots, i));
    }
}

/// `build` fails with the message of the first field that lacks a value,
/// and does not look at the fields behind it.
pub proof fn first_lack_decides<V>(input: Declaration, aliases: Aliases, slots: Slots<V>, i: int)
    requires
        generate(input, aliases) is Ok,
        first_lack(build_of(input, aliases).inits, slots, i),
    ensures
        built(build_of(input, aliases), slots) == Err::<Slots<V>, Seq<char>>(
            missing_message(fields_of(input)[i].ident@),
        ),
{
    let inits = build_of(input, aliases).inits;
    let k = choose|k: int| first_lack(inits, slots, k);
    assert(lacks(inits, slots, i));
    assert(lacks(inits, slots, k));
    assert(k == i);
}

/// A field that is written neither `Option<T>` nor `Vec<T>` and holds no
/// value in the builder makes `build` fail. Where no field before it lacks a
/// value, the message is `field <name> is missing`, with the field's name.
pub proof fn missing_plain_field_fails<V>(
    input: Declaration,
    aliases: Aliases,
    slots: Slots<V>,
    i: int,
)
    requires
        generate(input, aliases) is Ok,
        0 <= i < fields_of(input).len(),
        slots.len() == fields_of(input).len(),
        shape_at(input, i) is Plain,
        slots[i] is None,
    ensures
        built(build_of(input, aliases), slots) is Err,
        (forall|j: int|
            0 <= j < i ==> shape_at(input, j) is Optional || (#[trigger] slots[j]) is Some)
            ==> built(build_of(input, aliases), slots) == Err::<Slots<V>, Seq<char>>(
            "field "@ + fields_of(input)[i].ident@ + " is missing"@,
        ),
{
    let inits = build_of(input, aliases).inits;
    assert(lacks(inits, slots, i));
    lemma_some_lack_is_first(inits, slots, i);
    if forall|j: int|
        0 <= j < i ==> shape_at(input, j) is Optional || (#[trigger] slots[j]) is Some {
        assert forall|j: int| 0 <= j < i implies !lacks(inits, slots, j) by {
            assert(shape_at(input, j) is Optional || slots[j] is Some);
        }
        assert(first_lack(inits, slots, i));
        first_lack_decides(input, aliases, slots, i);
    }
}

/// `build` succeeds exactly if every field that is not written `Option<T>`
/// holds a value; the record then holds what the builder held. What a field
/// written `Option<T>` holds, a value or none, is never a reason to fail.
pub proof fn optional_field_never_fails<V>(input: Declaration, aliases: Aliases, slots: Slots<V>)
    requires
        generate(input, aliases) is Ok,
        slots.len() == fields_of(input).len(),
    ensures
        built(build_of(input, aliases), slots) is Ok <==> (forall|j: int|
            0 <= j < fields_of(input).len() && !(shape_at(input, j) is Optional) ==> (
            #[trigger] slots[j]) is Some),
        built(build_of(input, aliases), slots) is Ok ==> built(build_of(input, aliases), slots)
            == Ok::<Slots<V>, Seq<char>>(slots),
{
    let inits = build_of(input, aliases).inits;
    let fields = fields_of(input);
    if forall|j: int|
        0 <= j < fields.len() && !(shape_at(input, j) is Optional)
            ==> (#[trigger] slots[j]) is Some {
        assert forall|k: int| !first_lack(inits, slots, k) by {
            if 0 <= k < fields.len() {
                assert(inits[k] == build_init(fields[k]));
                assert(shape_at(input, k) is Optional || slots[k] is Some);
            }
        }
    } else {
        let j = choose|j: int|
            0 <= j < fields.len() && !(shape_at(input, j) is Optional) && !((
            #[trigger] slots[j]) is Some);
        assert(inits[j] == build_init(fields[j]));
        assert(lacks(inits, slots, j));
        lemma_some_lack_is_first(inits, slots, j);
    }
}

/// Changing what a field written `Option<T>` holds changes neither whether
/// `build` fails nor its message.
pub proof fn optional_field_is_not_looked_at<V>(
    input: Declaration,
    aliases: Aliases,
    slots: Slots<V>,
    i: int,
    value: Option<ValueModel<V>>,
)
    requires
        generate(input, aliases) is Ok,
        0 <= i < fields_of(input).len(),
        slots.len() == fields_of(input).len(),
        shape_at(input, i) is Optional,
    ensures
        match built(build_of(input, aliases), slots) {
            Ok(_) => built(build_of(input, aliases), slots.update(i, value)) == Ok::<
                Slots<V>,
                Seq<char>,
            >(slots.update(i, value)),
            Err(message) => built(build_of(input, aliases), slots.update(i, value)) == Err::<
                Slots<V>,
                Seq<char>,
            >(message),
        },
{
    let inits = build_of(input, aliases).inits;
    let changed = slots.update(i, value);
    assert(inits[i] == build_init(fields_of(input)[i]));
    assert forall|k: int| lacks(inits, changed, k) == lacks(inits, slots, k) by {}
    assert forall|k: int| first_lack(inits, changed, k) == first_lack(inits, slots, k) by {
        if lacks(inits, slots, k) {
            assert forall|j: int| 0 <= j < k implies lacks(inits, changed, j) == lacks(
                inits,
                slots,
                j,
            ) by {}
        }
    }
    if exists|k: int| first_lack(inits, slots, k) {
        let k = choose|k: int| first_lack(inits, slots, k);
        assert(first_lack(inits, changed, k));
        let k2 = choose|k: int| first_lack(inits, changed, k);
        assert(k2 == k) by {
            assert(lacks(inits, changed, k));
            assert(lacks(inits, changed, k2));
        }
    }
}

/// Whether the fields of a declaration have names that differ, as the
/// fields of a struct do.
pub open spec fn names_differ(input: Declaration) -> bool {
    forall|i: int, j: int|
        0 <= i < j < fields_of(input).len() ==> (#[trigger] fields_of(input)[i]).ident@ != (
        #[trigger] fields_of(input)[j]).ident@
}

/// The message of a missing field is that of no other name.
proof fn lemma_message_names_one_field(a: Seq<char>, b: Seq<char>)
    requires
        missing_message(a) == missing_message(b),
    ensures
        a == b,
{
    let before = "field "@;
    let behind = " is missing"@;
    assert((before + a + behind).len() == (before + b + behind).len());
    assert forall|k: int| 0 <= k < a.len() implies a[k] == b[k] by {
        assert((before + a + behind)[before.len() + k] == a[k]);
        assert((before + b + behind)[before.len() + k] == b[k]);
    }
    assert(a =~= b);
}

/// Where `build` fails, its message never names a field written
/// `Option<T>`, if the names of the fields differ.
pub proof fn optional_field_is_never_named<V>(
    input: Declaration,
    aliases: Aliases,
    slots: Slots<V>,
    i: int,
)
    requires
        generate(input, aliases) is Ok,
        0 <= i < fields_of(input).len(),
        slots.len() == fields_of(input).len(),
        shape_at(input, i) is Optional,
        names_differ(input),
    ensures
        built(build_of(input, aliases), slots) matches Err(message) ==> message != "field "@
            + fields_of(input)[i].ident@ + " is missing"@,
{
    let inits = build_of(input, aliases).inits;
    let fields = fields_of(input);
    if exists|k: int| first_lack(inits, slots, k) {
        let k = choose|k: int| first_lack(inits, slots, k);
        assert(lacks(inits, slots, k));
        assert(inits[k] == build_init(fields[k]));
        assert(inits[i] == build_init(fields[i]));
        assert(k != i);
        if missing_message(fields[k].ident@) == missing_message(fields[i].ident@) {
            lemma_message_names_one_field(fields[k].ident@, fields[i].ident@);
            if k < i {
                assert(fields[k].ident@ != fields[i].ident@);
            } else {
                assert(fields[i].ident@ != fields[k].ident@);
            }
        }
    }
}

/// A new builder holds an empty list for every field written `Vec<T>`, and
/// nothing for any other field.
pub proof fn new_builder_holds_empty_lists<V>(input: Declaration, aliases: Aliases, i: int)
    requires
        generate(input, aliases) is Ok,
        0 <= i < fields_of(input).len(),
    ensures
        new_builder::<V>(input, aliases).len() == fields_of(input).len(),
        new_builder::<V>(input, aliases)[i] == (if shape_at(input, i) is List {
            Some(ValueModel::<V>::List(Seq::empty()))
        } else {
            None
        }),
{
}

/// Where every field is written `Option<T>` or `Vec<T>`, `build` on a new
/// builder succeeds, and the record holds an empty list for every field
/// written `Vec<T>`.
pub proof fn build_of_new_builder<V>(input: Declaration, aliases: Aliases)
    requires
        generate(input, aliases) is Ok,
        forall|j: int|
            0 <= j < fields_of(input).len() ==> !(#[trigger] shape_at(input, j) is Plain),
    ensures
        built(build_of(input, aliases), new_builder::<V>(input, aliases)) == Ok::<
            Slots<V>,
            Seq<char>,
        >(new_builder::<V>(input, aliases)),
        forall|i: int|
            0 <= i < fields_of(input).len() && #[trigger] shape_at(input, i) is List
                ==> new_builder::<V>(input, aliases)[i] == Some(
                ValueModel::<V>::List(Seq::empty()),
            ),
{
    let slots = new_builder::<V>(input, aliases);
    assert forall|j: int|
        0 <= j < fields_of(input).len() && !(shape_at(input, j) is Optional) implies (
    #[trigger] slots[j]) is Some by {
        assert(!(shape_at(input, j) is Plain));
    }
    optional_field_never_fails(input, aliases, slots);
}

/// Every setter of a field writes that field.
proof fn lemma_field_setters_slot(field: Field, slot: int, alias: Option<Seq<char>>)
    requires
        field_setters(field, slot, alias) is Ok,
    ensures
        1 <= field_setters(field, slot, alias)->Ok_0.len() <= 2,
        forall|k: int|
            0 <= k < field_setters(field, slot, alias)->Ok_0.len() ==> (#[trigger] field_setters(
                field,
                slot,
                alias,
            )->Ok_0[k]).slot == slot,
{
}

/// Every generated setter writes a field of the record.
proof fn lemma_setters_slots(fields: Seq<Field>, aliases: Aliases)
    requires
        setters(fields, aliases) is Ok,
    ensures
        forall|k: int|
            0 <= k < setters(fields, aliases)->Ok_0.len() ==> 0 <= (#[trigger] setters(
                fields,
                aliases,
            )->Ok_0[k]).slot < fields.len(),
    decreases fields.len(),
{
    if fields.len() > 0 {
        lemma_setters_slots(fields.drop_last(), aliases);
        lemma_field_setters_slot(fields.last(), fields.len() - 1, aliases[fields.len() - 1]);
    }
}

/// A list in which no setter writes the field `i` holds no setter for it.
proof fn lemma_no_setter_for(all: Seq<SetterModel>, i: int)
    requires
        forall|k: int| 0 <= k < all.len() ==> (#[trigger] all[k]).slot != i,
    ensures
        setters_for(all, i) == Seq::<SetterModel>::empty(),
    decreases all.len(),
{
    reveal(Seq::filter);
    if all.len() > 0 {
        lemma_no_setter_for(all.drop_last(), i);
    }
}

/// A list in which every setter writes the field `i` holds only setters for
/// it.
proof fn lemma_all_setters_for(all: Seq<SetterModel>, i: int)
    requires
        forall|k: int| 0 <= k < all.len() ==> (#[trigger] all[k]).slot == i,
    ensures
        setters_for(all, i) == all,
    decreases all.len(),
{
    reveal(Seq::filter);
    if all.len() > 0 {
        lemma_all_setters_for(all.drop_last(), i);
        assert(all.drop_last().push(all.last()) =~= all);
    }
}

/// The setters that write the field at position `i` are the setters of that
/// field, and no others.
pub proof fn setters_of_each_field(fields: Seq<Field>, aliases: Aliases, i: int)
    requires
        setters(fields, aliases) is Ok,
        0 <= i < fields.len(),
    ensures
        field_setters(fields[i], i, aliases[i]) is Ok,
        setters_for(setters(fields, aliases)->Ok_0, i) == field_setters(
            fields[i],
            i,
            aliases[i],
        )->Ok_0,
    decreases fields.len(),
{
    let last = fields.len() - 1;
    let before = setters(fields.drop_last(), aliases)->Ok_0;
    let these = field_setters(fields[last], last, aliases[last])->Ok_0;
    Seq::filter_distributes_over_add(before, these, |s: SetterModel| s.slot == i);
    lemma_field_setters_slot(fields[last], last, aliases[last]);
    if i == last {
        lemma_setters_slots(fields.drop_last(), aliases);
        lemma_no_setter_for(before, i);
        lemma_all_setters_for(these, i);
        assert(Seq::<SetterModel>::empty() + these =~= these);
    } else {
        setters_of_each_field(fields.drop_last(), aliases, i);
        lemma_no_setter_for(these, i);
        assert(setters_for(before, i) + Seq::<SetterModel>::empty() =~= setters_for(before, i));
    }
}

/// The setters are generated in the order of the fields that they write.
pub proof fn setters_follow_the_fields(fields: Seq<Field>, aliases: Aliases, a: int, b: int)
    requires
        setters(fields, aliases) is Ok,
        0 <= a <= b < setters(fields, aliases)->Ok_0.len(),
    ensures
        0 <= setters(fields, aliases)->Ok_0[a].slot <= setters(fields, aliases)->Ok_0[b].slot,
        setters(fields, aliases)->Ok_0[b].slot < fields.len(),
    decreases fields.len(),
{
    lemma_setters_slots(fields, aliases);
    if fields.len() > 0 {
        let before = setters(fields.drop_last(), aliases)->Ok_0;
        lemma_setters_slots(fields.drop_last(), aliases);
        lemma_field_setters_slot(fields.last(), fields.len() - 1, aliases[fields.len() - 1]);
        if b < before.len() {
            setters_follow_the_fields(fields.drop_last(), aliases, a, b);
        }
    }
}

/// A field without a `builder` attribute has one setter, the all-at-once
/// setter under the field's name.
pub proof fn field_without_alias_has_one_setter(input: Declaration, aliases: Aliases, i: int)
    requires
        generate(input, aliases) is Ok,
        0 <= i < fields_of(input).len(),
        builder_attr(fields_of(input)[i].attrs@) is None,
    ensures
        setters_for(setters_of(input, aliases), i) == seq![all_setter(fields_of(input)[i], i)],
{
    setters_of_each_field(fields_of(input), aliases, i);
}

/// A field whose attribute names the field itself, `each = "<field>"`, so
/// that the field's name is read from it, has exactly one setter: the
/// one-at-a-time setter under the field's name. There is no all-at-once
/// setter.
pub proof fn alias_same_as_field_gives_one_setter(input: Declaration, aliases: Aliases, i: int)
    requires
        generate(input, aliases) is Ok,
        0 <= i < fields_of(input).len(),
        alias_at(input, aliases, i) == Some(fields_of(input)[i].ident@),
    ensures
        shape_at(input, i) is List,
        setters_for(setters_of(input, aliases), i) == seq![
            each_setter(
                fields_of(input)[i],
                i,
                fields_of(input)[i].ident@,
                shape_at(input, i)->List_0,
            ),
        ],
{
    setters_of_each_field(fields_of(input), aliases, i);
}

/// A field whose attribute names another word than the field, `each =
/// "<alias>"`, so that this word is read from it, has exactly two setters:
/// the one-at-a-time setter under the alias, then the all-at-once setter
/// under the field's name.
pub proof fn alias_other_than_field_gives_two_setters(
    input: Declaration,
    aliases: Aliases,
    i: int,
    alias: Seq<char>,
)
    requires
        generate(input, aliases) is Ok,
        0 <= i < fields_of(input).len(),
        alias_at(input, aliases, i) == Some(alias),
        alias != fields_of(input)[i].ident@,
    ensures
        shape_at(input, i) is List,
        setters_for(setters_of(input, aliases), i) == seq![
            each_setter(fields_of(input)[i], i, alias, shape_at(input, i)->List_0),
            all_setter(fields_of(input)[i], i),
        ],
{
    setters_of_each_field(fields_of(input), aliases, i);
}

/// An attribute `each = "..."` on a field that is not written `Vec<T>` is
/// refused when the builder is generated: no builder is generated, and
/// where the attributes of the fields before it are accepted, the error
/// names this field.
pub proof fn alias_on_other_than_list_is_refused(input: Declaration, aliases: Aliases, i: int)
    requires
        input.data matches Data::Struct(Fields::Named(_)),
        0 <= i < fields_of(input).len(),
        clause_at(input, i) is Some,
        !(shape_at(input, i) is List),
    ensures
        generate(input, aliases) is Err,
        setters(fields_of(input).take(i), aliases) is Ok ==> generate(input, aliases) == Err::<
            BuilderSchemaModel,
            UsageError,
        >(UsageError::Clause { field: i as usize, error: ClauseError::NotAList }),
{
    let fields = fields_of(input);
    if setters(fields, aliases) is Ok {
        setters_of_each_field(fields, aliases, i);
    }
    if setters(fields.take(i), aliases) is Ok {
        assert(fields.take(i + 1).drop_last() =~= fields.take(i));
        assert(setters(fields.take(i + 1), aliases) is Err);
        lemma_setters_err_persists(fields, aliases, i + 1);
    }
}

/// Calls of a one-at-a-time setter append their arguments, in the order of
/// the calls, to the list that the field holds, and change no other field.
/// Each of the calls finds a list in the field.
pub proof fn each_calls_append<V>(setter: SetterModel, slots: Slots<V>, list: Seq<V>, elems: Seq<V>)
    requires
        setter.kind is Each,
        0 <= setter.slot < slots.len(),
        slots[setter.slot] == Some(ValueModel::List(list)),
    ensures
        after_calls(setter, slots, singles(elems)) == slots.update(
            setter.slot,
            Some(ValueModel::List(list + elems)),
        ),
        forall|k: int|
            0 <= k < elems.len() ==> accepts(
                setter,
                #[trigger] after_calls(setter, slots, singles(elems.take(k))),
                ValueModel::Single(elems[k]),
            ),
    decreases elems.len(),
{
    if elems.len() == 0 {
        assert(list + elems =~= list);
        assert(slots.update(setter.slot, Some(ValueModel::List(list))) =~= slots);
    } else {
        let front = elems.drop_last();
        each_calls_append(setter, slots, list, front);
        assert(singles(elems).drop_last() =~= singles(front));
        assert((list + front).push(elems.last()) =~= list + elems);
        assert(after_calls(setter, slots, singles(elems)) =~= slots.update(
            setter.slot,
            Some(ValueModel::List(list + elems)),
        ));
        assert forall|k: int| 0 <= k < elems.len() implies accepts(
            setter,
            #[trigger] after_calls(setter, slots, singles(elems.take(k))),
            ValueModel::Single(elems[k]),
        ) by {
            if k < front.len() {
                assert(front.take(k) =~= elems.take(k));
            } else {
                assert(elems.take(k) =~= front);
            }
        }
    }
}

/// A call of an all-at-once setter puts its argument in the field, whatever
/// the field held, and changes no other field.
pub proof fn all_call_replaces<V>(setter: SetterModel, slots: Slots<V>, arg: ValueModel<V>)
    requires
        setter.kind is All,
        0 <= setter.slot < slots.len(),
    ensures
        accepts(setter, slots, arg),
        after_call(setter, slots, arg) == slots.update(setter.slot, Some(arg)),
{
}

/// Where `build` succeeds, the record holds for each field what the builder
/// held.
pub proof fn record_holds_what_the_builder_held<V>(
    input: Declaration,
    aliases: Aliases,
    slots: Slots<V>,
)
    requires
        generate(input, aliases) is Ok,
        built(build_of(input, aliases), slots) is Ok,
    ensures
        built(build_of(input, aliases), slots) == Ok::<Slots<V>, Seq<char>>(slots),
{
}

/// On a new builder, `k` calls of the one-at-a-time setter of a field leave
/// the list of the `k` arguments in the field, in the order of the calls,
/// and change no other field.
pub proof fn one_at_a_time_calls_fill_the_list<V>(
    input: Declaration,
    aliases: Aliases,
    i: int,
    alias: Seq<char>,
    elems: Seq<V>,
)
    requires
        generate(input, aliases) is Ok,
        0 <= i < fields_of(input).len(),
        alias_at(input, aliases, i) == Some(alias),
    ensures
        shape_at(input, i) is List,
        ({
            let each = each_setter(fields_of(input)[i], i, alias, shape_at(input, i)->List_0);
            let end = after_calls(each, new_builder::<V>(input, aliases), singles(elems));
            &&& setters_for(setters_of(input, aliases), i)[0] == each
            &&& end == new_builder::<V>(input, aliases).update(i, Some(ValueModel::List(elems)))
            &&& end[i] == Some(ValueModel::List(elems))
            &&& end[i]->Some_0->List_0.len() == elems.len()
        }),
{
    setters_of_each_field(fields_of(input), aliases, i);
    let each = each_setter(fields_of(input)[i], i, alias, shape_at(input, i)->List_0);
    each_calls_append(each, new_builder::<V>(input, aliases), Seq::<V>::empty(), elems);
    assert(Seq::<V>::empty() + elems =~= elems);
}

/// After `j` calls of the one-at-a-time setter of a field, a call of its
/// all-at-once setter with a list leaves that list in the field, and none of
/// what the `j` calls appended.
pub proof fn all_at_once_call_replaces_the_list<V>(
    input: Declaration,
    aliases: Aliases,
    i: int,
    alias: Seq<char>,
    elems: Seq<V>,
    list: Seq<V>,
)
    requires
        generate(input, aliases) is Ok,
        0 <= i < fields_of(input).len(),
        alias_at(input, aliases, i) == Some(alias),
        alias != fields_of(input)[i].ident@,
    ensures
        shape_at(input, i) is List,
        ({
            let each = each_setter(fields_of(input)[i], i, alias, shape_at(input, i)->List_0);
            let all = all_setter(fields_of(input)[i], i);
            let appended = after_calls(each, new_builder::<V>(input, aliases), singles(elems));
            let end = after_call(all, appended, ValueModel::List(list));
            &&& setters_for(setters_of(input, aliases), i) == seq![each, all]
            &&& accepts(all, appended, ValueModel::List(list))
            &&& end == new_builder::<V>(input, aliases).update(i, Some(ValueModel::List(list)))
            &&& end[i] == Some(ValueModel::List(list))
            &&& end[i]->Some_0->List_0.len() == list.len()
        }),
{
    setters_of_each_field(fields_of(input), aliases, i);
    let each = each_setter(fields_of(input)[i], i, alias, shape_at(input, i)->List_0);
    let start = new_builder::<V>(input, aliases);
    each_calls_append(each, start, Seq::<V>::empty(), elems);
    assert(start.update(i, Some(ValueModel::List(Seq::<V>::empty() + elems))).update(
        i,
        Some(ValueModel::List(list)),
    ) =~= start.update(i, Some(ValueModel::List(list))));
}

/// Every generated setter is a setter of the field that it writes.
proof fn lemma_setter_of_its_field(fields: Seq<Field>, aliases: Aliases, k: int)
    requires
        setters(fields, aliases) is Ok,
        0 <= k < setters(fields, aliases)->Ok_0.len(),
    ensures
        ({
            let setter = setters(fields, aliases)->Ok_0[k];
            let mine = field_setters(fields[setter.slot], setter.slot, aliases[setter.slot]);
            &&& 0 <= setter.slot < fields.len()
            &&& mine is Ok
            &&& mine->Ok_0.contains(setter)
        }),
{
    let all = setters(fields, aliases)->Ok_0;
    let i = all[k].slot;
    lemma_setters_slots(fields, aliases);
    setters_of_each_field(fields, aliases, i);
    all.lemma_filter_contains(|s: SetterModel| s.slot == i, k);
}

/// A new builder holds a list in every field written `Vec<T>`.
pub proof fn new_builder_has_its_lists<V>(input: Declaration, aliases: Aliases)
    requires
        generate(input, aliases) is Ok,
    ensures
        lists_present(input, new_builder::<V>(input, aliases)),
{
}

/// A builder that holds a list in every field written `Vec<T>` takes a call
/// of any generated setter and still holds those lists after it, if a
/// one-at-a-time setter is given a single value and the all-at-once setter
/// of such a field a list. So a one-at-a-time setter always finds a list to
/// append to.
pub proof fn lists_stay_present<V>(
    input: Declaration,
    aliases: Aliases,
    slots: Slots<V>,
    k: int,
    arg: ValueModel<V>,
)
    requires
        generate(input, aliases) is Ok,
        0 <= k < setters_of(input, aliases).len(),
        lists_present(input, slots),
        match setters_of(input, aliases)[k].kind {
            SetterKind::Each => arg is Single,
            SetterKind::All => shape_at(input, setters_of(input, aliases)[k].slot) is List
                ==> arg is List,
        },
    ensures
        accepts(setters_of(input, aliases)[k], slots, arg),
        lists_present(input, after_call(setters_of(input, aliases)[k], slots, arg)),
{
    let fields = fields_of(input);
    let setter = setters_of(input, aliases)[k];
    lemma_setter_of_its_field(fields, aliases, k);
    let mine = field_setters(fields[setter.slot], setter.slot, aliases[setter.slot])->Ok_0;
    let at = choose|at: int| 0 <= at < mine.len() && mine[at] == setter;
    assert(mine[at] == setter);
    assert(shape_at(input, setter.slot) == shape_of(fields[setter.slot].ty@));
}

} // verus!

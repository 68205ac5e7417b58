//! Properties of the validator that relate several steps, proved over the
//! model that the executable functions are held to.
use vstd::prelude::*;

use crate::engine::{lemma_checked_tags_distinct, lemma_lookup_has_key};
use crate::model::ErrorView;
use crate::rules::{is_constant_name, is_reserved_name};
use crate::spec::{
    declared, element_step, first_field_error, first_unresolved_copy, first_unresolved_type,
    lookup, registration, resolution, Pairs, StateView,
};

verus! {

/// A reserved word is refused as a name whatever has been declared before,
/// the first time as much as any later one.
pub proof fn reserved_name_always_refused(names: Pairs, kind: Seq<char>, name: Seq<char>)
    requires
        is_reserved_name(name),
    ensures
        registration(names, kind, name) == Err::<Pairs, ErrorView>(
            ErrorView::ReservedNameUsed { tag: kind, name },
        ),
{
}

/// Once a name has been declared under a kind, declaring it again under the
/// same kind is refused as a duplicate, unless it is one of the constant
/// names, which may be declared again.
pub proof fn second_declaration(names: Pairs, kind: Seq<char>, name: Seq<char>)
    requires
        registration(names, kind, name) is Ok,
    ensures
        !is_constant_name(name) ==> registration(registration(names, kind, name)->Ok_0, kind, name)
            == Err::<Pairs, ErrorView>(ErrorView::DuplicateName { tag: kind, name }),
        is_constant_name(name) ==> registration(
            registration(names, kind, name)->Ok_0,
            kind,
            name,
        ) is Ok,
{
    let after = registration(names, kind, name)->Ok_0;
    assert(after[names.len() as int] == (kind, name));
}

/// A fieldType element that was accepted is refused when it comes again
/// with the same name, as a duplicate, unless the name is one of the
/// constant names, in which case it is accepted again.
pub proof fn field_type_declared_twice(st: StateView, attrs: Pairs)
    requires
        element_step(st, "fieldType"@, attrs) is Ok,
    ensures
        !is_constant_name(lookup(attrs, "name"@)->0) ==> element_step(
            element_step(st, "fieldType"@, attrs)->Ok_0,
            "fieldType"@,
            attrs,
        ) == Err::<StateView, ErrorView>(
            ErrorView::DuplicateName { tag: "fieldType"@, name: lookup(attrs, "name"@)->0 },
        ),
        is_constant_name(lookup(attrs, "name"@)->0) ==> element_step(
            element_step(st, "fieldType"@, attrs)->Ok_0,
            "fieldType"@,
            attrs,
        ) is Ok,
{
    lemma_checked_tags_distinct();
    let name = lookup(attrs, "name"@)->0;
    second_declaration(st.names, "fieldType"@, name);
}

/// A field or dynamicField element that was accepted is refused when it
/// comes again with the same name: its type is then given a second time.
pub proof fn field_declared_twice(st: StateView, tag: Seq<char>, attrs: Pairs)
    requires
        tag == "field"@ || tag == "dynamicField"@,
        element_step(st, tag, attrs) is Ok,
    ensures
        element_step(element_step(st, tag, attrs)->Ok_0, tag, attrs) == Err::<
            StateView,
            ErrorView,
        >(ErrorView::DuplicateTypeDeclaration { field: lookup(attrs, "name"@)->0 }),
{
    lemma_checked_tags_distinct();
    let name = lookup(attrs, "name"@)->0;
    let after = element_step(st, tag, attrs)->Ok_0;
    assert(after.types[st.types.len() as int].0 == name);
    lemma_lookup_has_key(attrs, "type"@);
    first_error_is_duplicate_type(tag, attrs, name, st.types, after.types, 0);
}

proof fn first_error_is_duplicate_type(
    tag: Seq<char>,
    attrs: Pairs,
    name: Seq<char>,
    before: Pairs,
    after: Pairs,
    i: int,
)
    requires
        0 <= i,
        first_field_error(tag, attrs, name, before, i) is None,
        exists|k: int| i <= k < attrs.len() && attrs[k].0 == "type"@,
        exists|k: int| 0 <= k < after.len() && after[k].0 == name,
    ensures
        first_field_error(tag, attrs, name, after, i) == Some(
            ErrorView::DuplicateTypeDeclaration { field: name },
        ),
    decreases attrs.len() - i,
{
    if i < attrs.len() {
        if attrs[i].0 != "type"@ {
            first_error_is_duplicate_type(tag, attrs, name, before, after, i + 1);
        }
    }
}

/// A unique key that no field declares fails the resolution, whatever else
/// has been declared.
pub proof fn unique_key_unresolved(st: StateView)
    requires
        st.unique_key is Some,
        !declared(st.names, "field"@, st.unique_key->0),
    ensures
        resolution(st) == Err::<(), ErrorView>(
            ErrorView::UnresolvedUniqueKey { field: st.unique_key->0 },
        ),
{
}

/// A unique key that a field declares passes: the resolution then decides
/// as it would with no unique key at all.
pub proof fn unique_key_resolved(st: StateView)
    requires
        st.unique_key is Some,
        declared(st.names, "field"@, st.unique_key->0),
    ensures
        resolution(st) == resolution(StateView { unique_key: None, ..st }),
{
}

} // verus!

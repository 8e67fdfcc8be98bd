//! Reading registers out of a raw CPU context by name.
use vstd::prelude::*;
use vstd::string::StringExecFns;
use crate::arch::{register_names, Architecture};
use crate::error::MissingField;
use crate::fromsys::FromSys;
use crate::nativepointer::NativePointer;
use crate::sys::{has_value, lookup, CpuContext, Property};

verus! {

/// The position, at or after `start`, of the first name in `names` for
/// which the object has no value; the length of `names` if there is none.
pub open spec fn first_missing_from(properties: Seq<Property>, names: Seq<Seq<char>>, start: int) -> int
    decreases names.len() - start,
{
    if start < 0 || start >= names.len() {
        names.len() as int
    } else if !has_value(properties, names[start]) {
        start
    } else {
        first_missing_from(properties, names, start + 1)
    }
}

/// The position of the first name in `names` for which the object has no
/// value; the length of `names` if it has them all.
pub open spec fn first_missing(properties: Seq<Property>, names: Seq<Seq<char>>) -> int {
    first_missing_from(properties, names, 0)
}

/// Whether the object has a value for every name in `names`.
pub open spec fn has_all(properties: Seq<Property>, names: Seq<Seq<char>>) -> bool {
    forall|k: int| 0 <= k < names.len() ==> has_value(properties, #[trigger] names[k])
}

/// Whether `registers` holds, in order, the values that the object has for
/// `names`.
pub open spec fn holds_values(
    registers: Seq<NativePointer>,
    properties: Seq<Property>,
    names: Seq<Seq<char>>,
) -> bool {
    &&& registers.len() == names.len()
    &&& forall|k: int|
        0 <= k < names.len() ==> lookup(properties, names[k]) == Some(
            (#[trigger] registers[k]).0,
        )
}

/// Whether `e` reports the first register, in layout order, that the object
/// lacks for the layout of `architecture`.
pub open spec fn reports_first_missing(
    e: MissingField,
    properties: Seq<Property>,
    architecture: Architecture,
) -> bool {
    let k = first_missing(properties, register_names(architecture));
    &&& 0 <= k < register_names(architecture).len()
    &&& e.field@ == register_names(architecture)[k]
    &&& e.architecture == architecture
}

/// The first missing name lies within `names` or just behind it; every name
/// before it has a value, and the name at it has none.
pub proof fn first_missing_is_first(properties: Seq<Property>, names: Seq<Seq<char>>, start: int)
    requires
        0 <= start <= names.len(),
    ensures
        start <= first_missing_from(properties, names, start) <= names.len(),
        forall|k: int|
            start <= k < first_missing_from(properties, names, start) ==> has_value(
                properties,
                #[trigger] names[k],
            ),
        first_missing_from(properties, names, start) < names.len() ==> !has_value(
            properties,
            names[first_missing_from(properties, names, start)],
        ),
    decreases names.len() - start,
{
    if start < names.len() && has_value(properties, names[start]) {
        first_missing_is_first(properties, names, start + 1);
    }
}

/// An object has every name exactly when nothing is missing.
pub proof fn has_all_iff_none_missing(properties: Seq<Property>, names: Seq<Seq<char>>)
    ensures
        has_all(properties, names) <==> first_missing(properties, names) == names.len(),
{
    first_missing_is_first(properties, names, 0);
}

/// The portable layout asks for `pc` and `sp` and for nothing else: an
/// object can be decoded by it exactly when it has a value for both.
pub proof fn portable_needs_pc_and_sp(properties: Seq<Property>)
    ensures
        has_all(properties, register_names(Architecture::Portable)) <==> has_value(
            properties,
            "pc"@,
        ) && has_value(properties, "sp"@),
{
    let names = register_names(Architecture::Portable);
    assert(names.len() == 2);
    assert(names[0] == "pc"@);
    assert(names[1] == "sp"@);
}

/// Reads the register called `name` from a raw context.
///
/// Fails when the context has no property of that name, or when the
/// property's value is `null` or `undefined`; `architecture` only names the
/// layout being decoded, for the error.
pub fn extract_field(m: &CpuContext, name: &str, architecture: Architecture) -> (r: Result<
    NativePointer,
    MissingField,
>)
    ensures
        r is Ok <==> has_value(m.properties@, name@),
        r matches Ok(p) ==> lookup(m.properties@, name@) == Some(p.0),
        r matches Err(e) ==> e.field@ == name@ && e.architecture == architecture,
{
    match m.get_named_property(name) {
        Some(value) => {
            if value.is_nullish() {
                Err(MissingField { field: String::from_str(name), architecture })
            } else {
                Ok(NativePointer::from_sys(value))
            }
        },
        None => Err(MissingField { field: String::from_str(name), architecture }),
    }
}

/// Reads every register of the layout of `architecture` from a raw
/// context, in layout order.
///
/// Succeeds exactly when the context has a value for every name of the
/// layout. Otherwise the error names the first register, in layout order,
/// that is missing.
pub fn decode_registers(m: &CpuContext, architecture: Architecture) -> (r: Result<
    Vec<NativePointer>,
    MissingField,
>)
    ensures
        r is Ok <==> has_all(m.properties@, register_names(architecture)),
        r matches Ok(registers) ==> holds_values(
            registers@,
            m.properties@,
            register_names(architecture),
        ),
        r matches Err(e) ==> reports_first_missing(e, m.properties@, architecture),
{
    let names = architecture.field_names();
    let ghost layout = register_names(architecture);
    let mut registers: Vec<NativePointer> = Vec::new();
    let mut i: usize = 0;
    while i < names.len()
        invariant
            0 <= i <= names@.len(),
            layout == register_names(architecture),
            names@.len() == layout.len(),
            forall|k: int| 0 <= k < names@.len() ==> (#[trigger] names@[k])@ == layout[k],
            registers@.len() == i,
            forall|k: int|
                0 <= k < i ==> lookup(m.properties@, layout[k]) == Some(
                    (#[trigger] registers@[k]).0,
                ),
            forall|k: int| 0 <= k < i ==> has_value(m.properties@, #[trigger] layout[k]),
            first_missing(m.properties@, layout) == first_missing_from(
                m.properties@,
                layout,
                i as int,
            ),
        decreases names@.len() - i,
    {
        match extract_field(m, names[i], architecture) {
            Ok(p) => {
                registers.push(p);
            },
            Err(e) => {
                proof {
                    assert(names@[i as int]@ == layout[i as int]);
                    assert(!has_value(m.properties@, layout[i as int]));
                    assert(first_missing_from(m.properties@, layout, i as int) == i);
                }
                return Err(e);
            },
        }
        i += 1;
    }
    proof {
        has_all_iff_none_missing(m.properties@, layout);
    }
    Ok(registers)
}

} // verus!

//! The value bridge: an engine value modelled as a host-native tree, a
//! caller-supplied shape describing the typed result, and the structural
//! check between the two. Required fields must be present with compatible
//! types; unknown extra fields are ignored; on a mismatch the bridge fails
//! with a shape error and never yields a partial result.

use vstd::prelude::*;
use vstd::string::StringSliceAdditionalSpecFns;

use crate::error::ErrorKind;
use crate::error::TsError;
use crate::error::text_bytes;
use crate::media_type::ModuleKind;
use crate::text::bytes_eq;

verus! {

/// An engine value brought over to the host: the default export of a module,
/// or the top-level value of a structured-data module.
#[derive(Debug, PartialEq)]
pub enum Value {
    Null,
    Bool(bool),
    Int(i64),
    Str(Vec<u8>),
    Arr(Vec<Value>),
    Obj(Vec<(Vec<u8>, Value)>),
}

/// The shape of the typed result a caller asks for.
#[derive(Debug)]
pub enum Shape {
    /// Any value is accepted.
    Any,
    Null,
    Bool,
    Int,
    Str,
    /// An array whose every element fits the given shape.
    Arr(Box<Shape>),
    /// An object whose named fields are all present and fit their shapes;
    /// fields not named here are ignored.
    Obj(Vec<(Vec<u8>, Shape)>),
}

/// First entry of `entries` whose name is `name`, if any.
pub open spec fn lookup_field(entries: Seq<(Vec<u8>, Value)>, name: Seq<u8>) -> Option<Value>
    decreases entries.len(),
{
    if entries.len() == 0 {
        None
    } else if entries.first().0@ == name {
        Some(entries.first().1)
    } else {
        lookup_field(entries.drop_first(), name)
    }
}

/// Structural compatibility of a value with a shape.
pub open spec fn conforms(v: Value, s: Shape) -> bool
    decreases s,
{
    match s {
        Shape::Any => true,
        Shape::Null => v is Null,
        Shape::Bool => v is Bool,
        Shape::Int => v is Int,
        Shape::Str => v is Str,
        Shape::Arr(elem) => v matches Value::Arr(items) && (forall|i: int|
            0 <= i < items@.len() ==> conforms(#[trigger] items@[i], *elem)),
        Shape::Obj(fields) => v matches Value::Obj(entries) && (forall|i: int|
            0 <= i < fields@.len() ==> {
                let field = #[trigger] fields@[i];
                lookup_field(entries@, field.0@) matches Some(fv) && conforms(fv, field.1)
            }),
    }
}

/// First entry of `entries` named `name`, executable form.
fn lookup_field_exec<'a>(entries: &'a Vec<(Vec<u8>, Value)>, name: &[u8]) -> (r: Option<
    &'a Value,
>)
    ensures
        match r {
            Some(fv) => lookup_field(entries@, name@) matches Some(x) && *fv == x,
            None => lookup_field(entries@, name@) is None,
        },
{
    let mut i: usize = 0;
    proof {
        assert(entries@.skip(0) =~= entries@);
    }
    while i < entries.len()
        invariant
            i <= entries@.len(),
            lookup_field(entries@, name@) == lookup_field(entries@.skip(i as int), name@),
        decreases entries@.len() - i,
    {
        proof {
            assert(entries@.skip(i as int).first() == entries@[i as int]);
            assert(entries@.skip(i as int).drop_first() =~= entries@.skip(i + 1));
        }
        if bytes_eq(entries[i].0.as_slice(), name) {
            return Some(&entries[i].1);
        }
        i = i + 1;
    }
    proof {
        assert(entries@.skip(entries@.len() as int).len() == 0);
    }
    None
}

/// Structural compatibility, executable form.
#[verifier::loop_isolation(false)]
pub fn conforms_exec(v: &Value, s: &Shape) -> (r: bool)
    ensures
        r == conforms(*v, *s),
    decreases *s,
{
    match s {
        Shape::Any => true,
        Shape::Null => matches!(v, Value::Null),
        Shape::Bool => matches!(v, Value::Bool(_)),
        Shape::Int => matches!(v, Value::Int(_)),
        Shape::Str => matches!(v, Value::Str(_)),
        Shape::Arr(elem) => match v {
            Value::Arr(items) => {
                let mut i: usize = 0;
                while i < items.len()
                    invariant
                        i <= items@.len(),
                        forall|j: int| 0 <= j < i ==> conforms(#[trigger] items@[j], **elem),
                    decreases items@.len() - i,
                {
                    proof {
                        assert(**elem == *s->Arr_0);
                        assert(*items == v->Arr_0);
                        assert(decreases_to!(*s => *s->Arr_0));
                    }
                    if !conforms_exec(&items[i], elem) {
                        proof {
                            assert(!conforms(v->Arr_0@[i as int], *s->Arr_0));
                            assert(!conforms(*v, *s));
                        }
                        return false;
                    }
                    proof {
                        assert(conforms(#[trigger] items@[i as int], **elem));
                    }
                    i = i + 1;
                }
                true
            },
            _ => false,
        },
        Shape::Obj(fields) => match v {
            Value::Obj(entries) => {
                let mut i: usize = 0;
                while i < fields.len()
                    invariant
                        i <= fields@.len(),
                        forall|j: int|
                            0 <= j < i ==> {
                                let field = #[trigger] fields@[j];
                                lookup_field(entries@, field.0@) matches Some(fv) && conforms(
                                    fv,
                                    field.1,
                                )
                            },
                    decreases fields@.len() - i,
                {
                    proof {
                        assert(*fields == s->Obj_0);
                        assert(*entries == v->Obj_0);
                        assert(decreases_to!(*s => s->Obj_0));
                        assert(decreases_to!(s->Obj_0 => s->Obj_0@));
                        assert(decreases_to!(s->Obj_0@ => s->Obj_0@[i as int]));
                        assert(decreases_to!(s->Obj_0@[i as int] => s->Obj_0@[i as int].1));
                        assert(decreases_to!(*s => fields@[i as int].1));
                    }
                    match lookup_field_exec(entries, fields[i].0.as_slice()) {
                        Some(fv) => {
                            if !conforms_exec(fv, &fields[i].1) {
                                proof {
                                    let field = s->Obj_0@[i as int];
                                    assert(lookup_field(v->Obj_0@, field.0@) matches Some(x)
                                        && !conforms(x, field.1));
                                    assert(!conforms(*v, *s));
                                }
                                return false;
                            }
                            proof {
                                let field = fields@[i as int];
                                assert(lookup_field(entries@, field.0@) matches Some(x)
                                    && conforms(x, field.1));
                            }
                        },
                        None => {
                            proof {
                                let field = s->Obj_0@[i as int];
                                assert(lookup_field(v->Obj_0@, field.0@) is None);
                                assert(!conforms(*v, *s));
                            }
                            return false;
                        },
                    }
                    i = i + 1;
                }
                true
            },
            _ => false,
        },
    }
}

/// Bridge a value into the requested shape.
///
/// Succeeds exactly when the value conforms to the shape, and then yields
/// the value itself; on a mismatch it yields a `Shape` error and nothing of
/// the value.
pub fn convert<'a>(v: &'a Value, s: &Shape) -> (r: Result<&'a Value, TsError>)
    ensures
        r matches Ok(out) ==> conforms(*v, *s) && out == v,
        r matches Err(e) ==> !conforms(*v, *s) && e.kind() == ErrorKind::Shape && e.chain()
            == seq![("value does not fit the requested shape").spec_bytes()],
{
    if conforms_exec(v, s) {
        Ok(v)
    } else {
        Err(TsError::new(ErrorKind::Shape, text_bytes("value does not fit the requested shape")))
    }
}

/// A module record as the bridge sees it: only its default binding matters.
#[derive(Debug)]
pub struct Module<T> {
    /// The module's default export.
    pub default: T,
}

impl<T> Module<T> {
    /// The module's default export.
    pub fn default(&self) -> (r: &T)
        ensures
            r == &self.default,
    {
        &self.default
    }
}

/// Locate the binding named `default` in a module's exported namespace.
pub fn module_from_namespace<'a>(namespace: &'a Value) -> (r: Result<Module<&'a Value>, TsError>)
    ensures
        r matches Ok(m) ==> namespace matches Value::Obj(entries) && lookup_field(
            entries@,
            ("default").spec_bytes(),
        ) matches Some(fv) && *m.default == fv,
        r matches Err(e) ==> e.kind() == ErrorKind::Execution && e.chain() == seq![
            ("module namespace has no default binding").spec_bytes(),
        ] && match namespace {
            Value::Obj(entries) => lookup_field(entries@, ("default").spec_bytes()) is None,
            _ => true,
        },
{
    let name = text_bytes("default");
    match namespace {
        Value::Obj(entries) => match lookup_field_exec(entries, name.as_slice()) {
            Some(fv) => Ok(Module { default: fv }),
            None => Err(
                TsError::new(
                    ErrorKind::Execution,
                    text_bytes("module namespace has no default binding"),
                ),
            ),
        },
        _ => Err(
            TsError::new(
                ErrorKind::Execution,
                text_bytes("module namespace has no default binding"),
            ),
        ),
    }
}

/// Which value the bridge consumes for a module of the given kind: the
/// top-level value itself for structured data, the `default` binding for
/// code.
pub fn bridge_entry<'a>(kind: ModuleKind, namespace: &'a Value) -> (r: Result<&'a Value, TsError>)
    ensures
        kind == ModuleKind::StructuredData ==> (r matches Ok(v) && v == namespace),
        kind == ModuleKind::Code ==> match r {
            Ok(v) => namespace matches Value::Obj(entries) && lookup_field(
                entries@,
                ("default").spec_bytes(),
            ) matches Some(fv) && *v == fv,
            Err(e) => e.kind() == ErrorKind::Execution && match namespace {
                Value::Obj(entries) => lookup_field(entries@, ("default").spec_bytes()) is None,
                _ => true,
            },
        },
{
    match kind {
        ModuleKind::StructuredData => Ok(namespace),
        ModuleKind::Code => match module_from_namespace(namespace) {
            Ok(m) => Ok(m.default),
            Err(e) => Err(e),
        },
    }
}

} // verus!

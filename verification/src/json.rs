use vstd::prelude::*;

verus! {

/// Mathematical model of a JSON document: the same tree as `JsonValue`,
/// with every string replaced by its character sequence. Numbers are
/// carried as their canonical decimal text.
#[verifier::ext_equal]
pub enum JsonModel {
    Null,
    Bool(bool),
    Num(Seq<char>),
    Str(Seq<char>),
    Arr(Seq<JsonModel>),
    Obj(Seq<(Seq<char>, JsonModel)>),
}

/// One parsed JSON value. An object keeps its fields in the order the
/// document gave them; a number keeps its canonical decimal text.
#[derive(Debug)]
pub enum JsonValue {
    Null,
    Bool(bool),
    Num(String),
    Str(String),
    Arr(Vec<JsonValue>),
    Obj(Vec<(String, JsonValue)>),
}

/// The model of a value: the same tree, strings as character sequences.
pub open spec fn json_model(v: JsonValue) -> JsonModel
    decreases v,
{
    match v {
        JsonValue::Null => JsonModel::Null,
        JsonValue::Bool(b) => JsonModel::Bool(b),
        JsonValue::Num(s) => JsonModel::Num(s@),
        JsonValue::Str(s) => JsonModel::Str(s@),
        JsonValue::Arr(a) => JsonModel::Arr(
            Seq::new(
                a@.len(),
                |i: int|
                    if 0 <= i < a@.len() {
                        json_model(a@[i])
                    } else {
                        JsonModel::Null
                    },
            ),
        ),
        JsonValue::Obj(fields) => JsonModel::Obj(
            Seq::new(
                fields@.len(),
                |i: int|
                    if 0 <= i < fields@.len() {
                        (fields@[i].0@, json_model(fields@[i].1))
                    } else {
                        (Seq::empty(), JsonModel::Null)
                    },
            ),
        ),
    }
}

impl View for JsonValue {
    type V = JsonModel;

    open spec fn view(&self) -> JsonModel {
        json_model(*self)
    }
}

/// The value of the first field named `key`, or `None` when no field has
/// that name.
pub open spec fn obj_lookup(fields: Seq<(Seq<char>, JsonModel)>, key: Seq<char>) -> Option<
    JsonModel,
>
    decreases fields.len(),
{
    if fields.len() == 0 {
        None
    } else if fields[0].0 == key {
        Some(fields[0].1)
    } else {
        obj_lookup(fields.drop_first(), key)
    }
}

proof fn lemma_obj_lookup_advance(fields: Seq<(Seq<char>, JsonModel)>, key: Seq<char>, i: int)
    requires
        0 <= i < fields.len(),
        fields[i].0 != key,
    ensures
        obj_lookup(fields.skip(i), key) == obj_lookup(fields.skip(i + 1), key),
{
    assert(fields.skip(i).len() > 0);
    assert(fields.skip(i)[0] == fields[i]);
    assert(fields.skip(i).drop_first() =~= fields.skip(i + 1));
}

/// Looks up `key` among `fields`, returning the first field with that name.
pub fn lookup<'a>(fields: &'a Vec<(String, JsonValue)>, key: &String) -> (r: Option<&'a JsonValue>)
    ensures
        match r {
            Some(v) => obj_lookup(obj_fields_model(fields@), key@) == Some(v@),
            None => obj_lookup(obj_fields_model(fields@), key@) is None,
        },
{
    let ghost m = obj_fields_model(fields@);
    proof {
        assert(m.skip(0) =~= m);
    }
    let mut i: usize = 0;
    while i < fields.len()
        invariant
            0 <= i <= fields.len(),
            m == obj_fields_model(fields@),
            m.len() == fields@.len(),
            obj_lookup(m, key@) == obj_lookup(m.skip(i as int), key@),
        decreases fields.len() - i,
    {
        assert(m[i as int] == (fields@[i as int].0@, json_model(fields@[i as int].1)));
        if fields[i].0.eq(key) {
            assert(m.skip(i as int)[0] == m[i as int]);
            return Some(&fields[i].1);
        }
        proof {
            assert(m[i as int].0 != key@);
            lemma_obj_lookup_advance(m, key@, i as int);
        }
        i = i + 1;
    }
    assert(m.skip(fields@.len() as int) =~= Seq::<(Seq<char>, JsonModel)>::empty());
    None
}

/// The model of an object's field vector.
pub open spec fn obj_fields_model(fields: Seq<(String, JsonValue)>) -> Seq<(Seq<char>, JsonModel)> {
    Seq::new(fields.len(), |i: int| (fields[i].0@, json_model(fields[i].1)))
}

/// The pieces of a rendered collection, joined with a comma and a space.
pub open spec fn spec_join(parts: Seq<Seq<char>>) -> Seq<char>
    decreases parts.len(),
{
    if parts.len() == 0 {
        Seq::empty()
    } else if parts.len() == 1 {
        parts[0]
    } else {
        spec_join(parts.drop_last()) + ", "@ + parts.last()
    }
}

/// Debug-style text of a value standing inside an array or an object:
/// scalars print as in JSON, strings are quoted, and collections recurse.
pub open spec fn spec_debug_text(v: JsonModel) -> Seq<char>
    decreases v, 1int,
{
    match v {
        JsonModel::Null => "null"@,
        JsonModel::Bool(b) => if b {
            "true"@
        } else {
            "false"@
        },
        JsonModel::Num(t) => t,
        JsonModel::Str(s) => "\""@ + s + "\""@,
        JsonModel::Arr(items) => "["@ + spec_join(spec_arr_parts(items)) + "]"@,
        JsonModel::Obj(fields) => "{"@ + spec_join(spec_obj_parts(fields)) + "}"@,
    }
}

/// The rendered text of each array element.
pub open spec fn spec_arr_parts(items: Seq<JsonModel>) -> Seq<Seq<char>>
    decreases items, 0int,
{
    Seq::new(
        items.len(),
        |i: int|
            if 0 <= i < items.len() {
                spec_debug_text(items[i])
            } else {
                Seq::empty()
            },
    )
}

/// The rendered `"key": value` text of each object field.
pub open spec fn spec_obj_parts(fields: Seq<(Seq<char>, JsonModel)>) -> Seq<Seq<char>>
    decreases fields, 0int,
{
    Seq::new(
        fields.len(),
        |i: int|
            if 0 <= i < fields.len() {
                "\""@ + fields[i].0 + "\": "@ + spec_debug_text(fields[i].1)
            } else {
                Seq::empty()
            },
    )
}

/// The text shown for one extra field's value: null prints as `NULL`,
/// booleans and numbers as themselves, a string verbatim, and an array or
/// object in debug style.
pub open spec fn spec_format_value(v: JsonModel) -> Seq<char> {
    match v {
        JsonModel::Null => "NULL"@,
        JsonModel::Bool(b) => if b {
            "true"@
        } else {
            "false"@
        },
        JsonModel::Num(t) => t,
        JsonModel::Str(s) => s,
        JsonModel::Arr(_) => spec_debug_text(v),
        JsonModel::Obj(_) => spec_debug_text(v),
    }
}

proof fn lemma_join_step(parts: Seq<Seq<char>>, i: int)
    requires
        0 <= i < parts.len(),
    ensures
        i == 0 ==> spec_join(parts.take(1)) == parts[0],
        i > 0 ==> spec_join(parts.take(i + 1)) == spec_join(parts.take(i)) + ", "@ + parts[i],
{
    assert(parts.take(i + 1).drop_last() =~= parts.take(i));
    assert(parts.take(i + 1).last() == parts[i]);
}

/// Renders the inner, debug-style text of `v`.
fn debug_text(v: &JsonValue) -> (r: String)
    ensures
        r@ == spec_debug_text(v@),
    decreases *v,
{
    match v {
        JsonValue::Null => String::from_str("null"),
        JsonValue::Bool(b) => {
            if *b {
                String::from_str("true")
            } else {
                String::from_str("false")
            }
        },
        JsonValue::Num(t) => t.clone(),
        JsonValue::Str(s) => {
            let mut out = String::from_str("\"");
            out.append(s.as_str());
            out.append("\"");
            out
        },
        JsonValue::Arr(items) => {
            let ghost ms = v@->Arr_0;
            let ghost parts = spec_arr_parts(ms);
            let mut out = String::from_str("[");
            let mut i: usize = 0;
            while i < items.len()
                invariant
                    0 <= i <= items@.len() == ms.len(),
                    ms == json_model(*v)->Arr_0,
                    *v == JsonValue::Arr(*items),
                    parts == spec_arr_parts(ms),
                    out@ == "["@ + spec_join(parts.take(i as int)),
                decreases items@.len() - i,
            {
                if i > 0 {
                    out.append(", ");
                }
                let piece = debug_text(&items[i]);
                proof {
                    assert(ms[i as int] == json_model(items@[i as int]));
                    lemma_join_step(parts, i as int);
                }
                out.append(piece.as_str());
                i = i + 1;
            }
            out.append("]");
            proof {
                assert(parts.take(ms.len() as int) =~= parts);
            }
            out
        },
        JsonValue::Obj(fields) => {
            let ghost ms = v@->Obj_0;
            let ghost parts = spec_obj_parts(ms);
            let mut out = String::from_str("{");
            let mut i: usize = 0;
            while i < fields.len()
                invariant
                    0 <= i <= fields@.len() == ms.len(),
                    ms == json_model(*v)->Obj_0,
                    *v == JsonValue::Obj(*fields),
                    parts == spec_obj_parts(ms),
                    out@ == "{"@ + spec_join(parts.take(i as int)),
                decreases fields@.len() - i,
            {
                if i > 0 {
                    out.append(", ");
                }
                out.append("\"");
                out.append(fields[i].0.as_str());
                out.append("\": ");
                let piece = debug_text(&fields[i].1);
                proof {
                    assert(ms[i as int] == (fields@[i as int].0@, json_model(fields@[i as int].1)));
                    lemma_join_step(parts, i as int);
                }
                out.append(piece.as_str());
                i = i + 1;
            }
            out.append("}");
            proof {
                assert(parts.take(ms.len() as int) =~= parts);
            }
            out
        },
    }
}

/// Renders the text shown for one extra field's value.
pub fn format_value(v: &JsonValue) -> (r: String)
    ensures
        r@ == spec_format_value(v@),
{
    match v {
        JsonValue::Null => String::from_str("NULL"),
        JsonValue::Bool(b) => {
            if *b {
                String::from_str("true")
            } else {
                String::from_str("false")
            }
        },
        JsonValue::Num(t) => t.clone(),
        JsonValue::Str(s) => s.clone(),
        JsonValue::Arr(_) => debug_text(v),
        JsonValue::Obj(_) => debug_text(v),
    }
}

/// An empty collection: an array or object with nothing in it. A query
/// whose result is such a value has matched nothing.
pub open spec fn spec_empty_collection(v: JsonModel) -> bool {
    ||| (v matches JsonModel::Arr(items) && items.len() == 0)
    ||| (v matches JsonModel::Obj(fields) && fields.len() == 0)
}

/// Whether `v` is an empty array or an empty object.
pub fn is_empty_collection(v: &JsonValue) -> (r: bool)
    ensures
        r == spec_empty_collection(v@),
{
    match v {
        JsonValue::Arr(items) => items.len() == 0,
        JsonValue::Obj(fields) => fields.len() == 0,
        _ => false,
    }
}

} // verus!

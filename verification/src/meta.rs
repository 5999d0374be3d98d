//! The values that a metadata block is made of, and the reading and writing
//! of the parts that the known shapes are built from.

use vstd::prelude::*;
use crate::text::opt_text;

verus! {

/// A value of a metadata block: a tree of texts, lists and records.
#[derive(Debug, PartialEq, Eq)]
pub enum MetaValue {
    Null,
    Flag(bool),
    /// A number, as the text it was written as.
    Number(String),
    Text(String),
    List(Vec<MetaValue>),
    /// Named fields, in the order in which they were written.
    Record(Vec<(String, MetaValue)>),
}

pub ghost enum MetaModel {
    Null,
    Flag(bool),
    Number(Seq<char>),
    Text(Seq<char>),
    List(Seq<MetaModel>),
    Record(Seq<(Seq<char>, MetaModel)>),
}

/// The model of a value: its texts, and the models of what it holds.
pub open spec fn meta_model(v: MetaValue) -> MetaModel
    decreases v,
{
    match v {
        MetaValue::Null => MetaModel::Null,
        MetaValue::Flag(b) => MetaModel::Flag(b),
        MetaValue::Number(n) => MetaModel::Number(n@),
        MetaValue::Text(t) => MetaModel::Text(t@),
        MetaValue::List(items) => MetaModel::List(
            Seq::new(
                items@.len(),
                |i: int|
                    if 0 <= i < items@.len() {
                        meta_model(items@[i])
                    } else {
                        arbitrary()
                    },
            ),
        ),
        MetaValue::Record(fields) => MetaModel::Record(
            Seq::new(
                fields@.len(),
                |i: int|
                    if 0 <= i < fields@.len() {
                        (fields@[i].0@, meta_model(fields@[i].1))
                    } else {
                        arbitrary()
                    },
            ),
        ),
    }
}

impl View for MetaValue {
    type V = MetaModel;

    open spec fn view(&self) -> MetaModel {
        meta_model(*self)
    }
}

/// The views of a list of values, in order.
pub open spec fn views<T: View>(s: Seq<T>) -> Seq<T::V> {
    Seq::new(s.len(), |i: int| s[i]@)
}

/// The view of an optional value.
pub open spec fn opt_view<T: View>(v: Option<T>) -> Option<T::V> {
    match v {
        Some(x) => Some(x@),
        None => None,
    }
}

/// The view of an optional list of values.
pub open spec fn opt_views<T: View>(v: Option<Vec<T>>) -> Option<Seq<T::V>> {
    match v {
        Some(x) => Some(views(x@)),
        None => None,
    }
}

/// The fields of a record, each as a pair of its name and its model.
pub open spec fn field_models(fields: Seq<(String, MetaValue)>) -> Seq<(Seq<char>, MetaModel)> {
    Seq::new(fields.len(), |i: int| (fields[i].0@, fields[i].1@))
}

/// The model of a list holds the models of its items.
pub proof fn lemma_list_model(items: Vec<MetaValue>)
    ensures
        MetaValue::List(items)@ == MetaModel::List(views(items@)),
{
    assert(MetaValue::List(items)@->List_0 =~= views(items@));
}

/// The model of a record holds its fields, each with the model of its value.
pub proof fn lemma_record_model(fields: Vec<(String, MetaValue)>)
    ensures
        MetaValue::Record(fields)@ == MetaModel::Record(field_models(fields@)),
{
    assert(MetaValue::Record(fields)@->Record_0 =~= field_models(fields@));
}

/// The value of the first field of that name, if there is one.
pub open spec fn field(fields: Seq<(Seq<char>, MetaModel)>, name: Seq<char>) -> Option<MetaModel>
    decreases fields.len(),
{
    if fields.len() == 0 {
        None
    } else if fields[0].0 == name {
        Some(fields[0].1)
    } else {
        field(fields.drop_first(), name)
    }
}

/// The text of a required text field: `None` where the field is missing or
/// holds anything but a text.
pub open spec fn text_field(fields: Seq<(Seq<char>, MetaModel)>, name: Seq<char>) -> Option<
    Seq<char>,
> {
    match field(fields, name) {
        Some(MetaModel::Text(t)) => Some(t),
        _ => None,
    }
}

/// The text of an optional text field: no text where the field is missing or
/// null, and `None` where it holds anything but a text.
pub open spec fn optional_text_field(
    fields: Seq<(Seq<char>, MetaModel)>,
    name: Seq<char>,
) -> Option<Option<Seq<char>>> {
    match field(fields, name) {
        None => Some(None),
        Some(MetaModel::Null) => Some(None),
        Some(MetaModel::Text(t)) => Some(Some(t)),
        _ => None,
    }
}

/// A text, or null where there is none.
pub open spec fn text_or_null(t: Option<Seq<char>>) -> MetaModel {
    match t {
        Some(s) => MetaModel::Text(s),
        None => MetaModel::Null,
    }
}

/// All items of a list where each was read, and `None` where one was not.
pub open spec fn collected<T>(read: Seq<Option<T>>) -> Option<Seq<T>> {
    if forall|i: int| 0 <= i < read.len() ==> (#[trigger] read[i]) is Some {
        Some(Seq::new(read.len(), |i: int| read[i]->0))
    } else {
        None
    }
}

/// A part of a metadata block: it is read from a value that has its fields,
/// and written back as a record of them.
pub trait Part: View + Sized {
    /// The part that a value holds: `None` where a required field is missing
    /// or holds what it must not.
    spec fn read_from(v: MetaModel) -> Option<Self::V>;

    /// The record that a part is written as.
    spec fn written(part: Self::V) -> MetaModel;

    /// A part that was written is read back as it was.
    proof fn lemma_read_back(part: Self::V)
        ensures
            Self::read_from(Self::written(part)) == Some(part),
    ;

    /// Reads a value as a part.
    fn read(v: &MetaValue) -> (r: Option<Self>)
        ensures
            opt_view(r) == Self::read_from(v@),
    ;

    /// Writes the part as a record.
    fn write(&self) -> (r: MetaValue)
        ensures
            r@ == Self::written(self@),
    ;
}

/// A value read as a list of parts: `None` where it is no list or holds an
/// item that is no such part.
pub open spec fn list_of<T: Part>(v: MetaModel) -> Option<Seq<T::V>> {
    match v {
        MetaModel::List(items) => collected(Seq::new(items.len(), |i: int| T::read_from(items[i]))),
        _ => None,
    }
}

/// The required list of parts under a name: `None` where the field is
/// missing or holds no such list.
pub open spec fn list_field<T: Part>(
    fields: Seq<(Seq<char>, MetaModel)>,
    name: Seq<char>,
) -> Option<Seq<T::V>> {
    match field(fields, name) {
        Some(v) => list_of::<T>(v),
        None => None,
    }
}

/// The optional list of parts under a name: no list where the field is
/// missing or null, and `None` where it holds anything else that is no such
/// list.
pub open spec fn optional_list_field<T: Part>(
    fields: Seq<(Seq<char>, MetaModel)>,
    name: Seq<char>,
) -> Option<Option<Seq<T::V>>> {
    match field(fields, name) {
        None => Some(None),
        Some(MetaModel::Null) => Some(None),
        Some(v) => match list_of::<T>(v) {
            Some(parts) => Some(Some(parts)),
            None => None,
        },
    }
}

/// Parts written as a list of records.
pub open spec fn list_written<T: Part>(parts: Seq<T::V>) -> MetaModel {
    MetaModel::List(Seq::new(parts.len(), |i: int| T::written(parts[i])))
}

/// Parts written as a list of records, or null where there is no list.
pub open spec fn list_or_null<T: Part>(parts: Option<Seq<T::V>>) -> MetaModel {
    match parts {
        Some(list) => list_written::<T>(list),
        None => MetaModel::Null,
    }
}

/// In a record of one field, the field is found under its name and no other.
pub proof fn lemma_field_of_one(a: Seq<char>, x: MetaModel, name: Seq<char>)
    ensures
        field(seq![(a, x)], name) == if name == a {
            Some(x)
        } else {
            None
        },
{
    let fields = seq![(a, x)];
    assert(fields[0] == (a, x));
    assert(fields.drop_first().len() == 0);
    reveal_with_fuel(field, 2);
}

/// In a record of two fields of different names, each is found under its name.
pub proof fn lemma_field_of_two(
    a: Seq<char>,
    x: MetaModel,
    b: Seq<char>,
    y: MetaModel,
    name: Seq<char>,
)
    requires
        a != b,
    ensures
        field(seq![(a, x), (b, y)], name) == if name == a {
            Some(x)
        } else if name == b {
            Some(y)
        } else {
            None
        },
{
    let fields = seq![(a, x), (b, y)];
    assert(fields[0] == (a, x));
    assert(fields.drop_first() =~= seq![(b, y)]);
    lemma_field_of_one(b, y, name);
}

/// In a record of three fields of different names, each is found under its
/// name.
pub proof fn lemma_field_of_three(
    a: Seq<char>,
    x: MetaModel,
    b: Seq<char>,
    y: MetaModel,
    c: Seq<char>,
    z: MetaModel,
    name: Seq<char>,
)
    requires
        a != b,
        a != c,
        b != c,
    ensures
        field(seq![(a, x), (b, y), (c, z)], name) == if name == a {
            Some(x)
        } else if name == b {
            Some(y)
        } else if name == c {
            Some(z)
        } else {
            None
        },
{
    let fields = seq![(a, x), (b, y), (c, z)];
    assert(fields[0] == (a, x));
    assert(fields.drop_first() =~= seq![(b, y), (c, z)]);
    lemma_field_of_two(b, y, c, z, name);
}

/// A list whose items are all read gives the items that were read.
pub proof fn lemma_collected_all<T>(read: Seq<Option<T>>, items: Seq<T>)
    requires
        read.len() == items.len(),
        forall|i: int| 0 <= i < read.len() ==> read[i] == Some(#[trigger] items[i]),
    ensures
        collected(read) == Some(items),
{
    assert forall|i: int| 0 <= i < read.len() implies (#[trigger] read[i]) is Some by {
        assert(read[i] == Some(items[i]));
    }
    assert(collected(read)->0 =~= items) by {
        assert forall|i: int| 0 <= i < read.len() implies collected(read)->0[i] == items[i] by {
            assert(read[i] == Some(items[i]));
        }
    }
}

/// Parts that were written as a list are read back as they were.
pub proof fn lemma_list_read_back<T: Part>(parts: Seq<T::V>)
    ensures
        list_of::<T>(list_written::<T>(parts)) == Some(parts),
{
    let records = Seq::new(parts.len(), |i: int| T::written(parts[i]));
    let read = Seq::new(records.len(), |i: int| T::read_from(records[i]));
    assert forall|i: int| 0 <= i < read.len() implies read[i] == Some(#[trigger] parts[i]) by {
        T::lemma_read_back(parts[i]);
    }
    lemma_collected_all(read, parts);
}

/// Finds the first field of a name.
pub fn find_field<'a>(fields: &'a Vec<(String, MetaValue)>, name: &str) -> (r: Option<
    &'a MetaValue,
>)
    ensures
        match r {
            Some(v) => field(field_models(fields@), name@) == Some(v@),
            None => field(field_models(fields@), name@) is None,
        },
{
    let wanted = name.to_owned();
    let mut i: usize = 0;
    assert(field_models(fields@).skip(0) =~= field_models(fields@));
    while i < fields.len()
        invariant
            i <= fields.len(),
            wanted@ == name@,
            field(field_models(fields@), name@) == field(
                field_models(fields@).skip(i as int),
                name@,
            ),
        decreases fields.len() - i,
    {
        proof {
            let rest = field_models(fields@).skip(i as int);
            assert(rest[0] == (fields@[i as int].0@, fields@[i as int].1@));
            assert(rest.drop_first() =~= field_models(fields@).skip(i as int + 1));
        }
        if fields[i].0 == wanted {
            return Some(&fields[i].1);
        }
        i = i + 1;
    }
    None
}

/// Reads a required text field.
pub fn text_of(fields: &Vec<(String, MetaValue)>, name: &str) -> (r: Option<String>)
    ensures
        opt_text(r) == text_field(field_models(fields@), name@),
{
    match find_field(fields, name) {
        Some(MetaValue::Text(t)) => Some(t.clone()),
        _ => None,
    }
}

/// Reads an optional text field.
pub fn optional_text_of(fields: &Vec<(String, MetaValue)>, name: &str) -> (r: Option<
    Option<String>,
>)
    ensures
        match r {
            Some(t) => optional_text_field(field_models(fields@), name@) == Some(opt_text(t)),
            None => optional_text_field(field_models(fields@), name@) is None,
        },
{
    match find_field(fields, name) {
        None => Some(None),
        Some(MetaValue::Null) => Some(None),
        Some(MetaValue::Text(t)) => Some(Some(t.clone())),
        _ => None,
    }
}

/// Reads a value as a list of parts.
pub fn read_list<T: Part>(v: &MetaValue) -> (r: Option<Vec<T>>)
    ensures
        opt_views(r) == list_of::<T>(v@),
{
    match v {
        MetaValue::List(items) => {
            proof {
                lemma_list_model(*items);
            }
            let ghost read = Seq::new(views(items@).len(), |i: int| T::read_from(views(items@)[i]));
            let mut out: Vec<T> = Vec::new();
            let mut i: usize = 0;
            while i < items.len()
                invariant
                    i <= items.len(),
                    out@.len() == i,
                    v@ == MetaModel::List(views(items@)),
                    read == Seq::new(
                        views(items@).len(),
                        |i: int| T::read_from(views(items@)[i]),
                    ),
                    forall|j: int| 0 <= j < i ==> read[j] == Some((#[trigger] out@[j])@),
                decreases items.len() - i,
            {
                match T::read(&items[i]) {
                    Some(part) => out.push(part),
                    None => {
                        assert(read[i as int] is None);
                        return None;
                    },
                }
                i = i + 1;
            }
            proof {
                assert forall|j: int| 0 <= j < read.len() implies read[j] == Some(
                    #[trigger] views(out@)[j],
                ) by {
                    assert(read[j] == Some(out@[j]@));
                }
                lemma_collected_all(read, views(out@));
            }
            Some(out)
        },
        _ => None,
    }
}

/// Reads the required list of parts under a name.
pub fn read_list_field<T: Part>(fields: &Vec<(String, MetaValue)>, name: &str) -> (r: Option<
    Vec<T>,
>)
    ensures
        opt_views(r) == list_field::<T>(field_models(fields@), name@),
{
    match find_field(fields, name) {
        Some(v) => read_list(v),
        None => None,
    }
}

/// Reads the optional list of parts under a name.
pub fn read_optional_list_field<T: Part>(fields: &Vec<(String, MetaValue)>, name: &str) -> (r:
    Option<Option<Vec<T>>>)
    ensures
        match r {
            Some(list) => optional_list_field::<T>(field_models(fields@), name@) == Some(
                opt_views(list),
            ),
            None => optional_list_field::<T>(field_models(fields@), name@) is None,
        },
{
    match find_field(fields, name) {
        None => Some(None),
        Some(MetaValue::Null) => Some(None),
        Some(v) => match read_list(v) {
            Some(parts) => Some(Some(parts)),
            None => None,
        },
    }
}

/// A field of a record.
pub fn named(name: &str, value: MetaValue) -> (r: (String, MetaValue))
    ensures
        r.0@ == name@,
        r.1 == value,
{
    (name.to_owned(), value)
}

/// A text as a value.
pub fn text_value(s: &String) -> (r: MetaValue)
    ensures
        r@ == MetaModel::Text(s@),
{
    MetaValue::Text(s.clone())
}

/// A text as a value, or null where there is none.
pub fn text_value_or_null(s: &Option<String>) -> (r: MetaValue)
    ensures
        r@ == text_or_null(opt_text(*s)),
{
    match s {
        Some(t) => text_value(t),
        None => MetaValue::Null,
    }
}

/// A record of the fields given.
pub fn record(fields: Vec<(String, MetaValue)>) -> (r: MetaValue)
    ensures
        r@ == MetaModel::Record(field_models(fields@)),
{
    proof {
        lemma_record_model(fields);
    }
    MetaValue::Record(fields)
}

/// Writes parts as a list of records.
pub fn write_list<T: Part>(parts: &Vec<T>) -> (r: MetaValue)
    ensures
        r@ == list_written::<T>(views(parts@)),
{
    let mut out: Vec<MetaValue> = Vec::new();
    let mut i: usize = 0;
    while i < parts.len()
        invariant
            i <= parts.len(),
            out@.len() == i,
            forall|j: int| 0 <= j < i ==> (#[trigger] out@[j])@ == T::written(parts@[j]@),
        decreases parts.len() - i,
    {
        out.push(parts[i].write());
        i = i + 1;
    }
    proof {
        lemma_list_model(out);
        assert(views(out@) =~= Seq::new(
            views(parts@).len(),
            |i: int| T::written(views(parts@)[i]),
        ));
    }
    MetaValue::List(out)
}

/// Writes parts as a list of records, or null where there is no list.
pub fn write_list_or_null<T: Part>(parts: &Option<Vec<T>>) -> (r: MetaValue)
    ensures
        r@ == list_or_null::<T>(opt_views(*parts)),
{
    match parts {
        Some(list) => write_list(list),
        None => MetaValue::Null,
    }
}

} // verus!

//! Stored documents as plain values: a row is a list of named fields.
//!
//! The cache layer reads only texts and flags from a document. Whatever else
//! a field may hold in the store (a number, a list, a nested document, a
//! null) arrives as [`FieldValue::Other`].

use vstd::prelude::*;
use vstd::string::StringExecFns;

verus! {

/// The value of one field of a document.
#[derive(Debug, PartialEq, Eq)]
pub enum FieldValue {
    Text(String),
    Flag(bool),
    Other,
}

/// The mathematical value of a [`FieldValue`].
pub ghost enum FieldValueView {
    Text(Seq<char>),
    Flag(bool),
    Other,
}

impl View for FieldValue {
    type V = FieldValueView;

    open spec fn view(&self) -> FieldValueView {
        match self {
            FieldValue::Text(text) => FieldValueView::Text(text@),
            FieldValue::Flag(flag) => FieldValueView::Flag(*flag),
            FieldValue::Other => FieldValueView::Other,
        }
    }
}

impl Clone for FieldValue {
    fn clone(&self) -> (copy: Self)
        ensures
            copy@ == self@,
    {
        match self {
            FieldValue::Text(text) => FieldValue::Text(text.clone()),
            FieldValue::Flag(flag) => FieldValue::Flag(*flag),
            FieldValue::Other => FieldValue::Other,
        }
    }
}

/// A named field of a document.
#[derive(Debug, PartialEq, Eq)]
pub struct Field {
    pub name: String,
    pub value: FieldValue,
}

/// The mathematical value of a [`Field`].
pub ghost struct FieldView {
    pub name: Seq<char>,
    pub value: FieldValueView,
}

impl View for Field {
    type V = FieldView;

    open spec fn view(&self) -> FieldView {
        FieldView { name: self.name@, value: self.value@ }
    }
}

impl Clone for Field {
    fn clone(&self) -> (copy: Self)
        ensures
            copy@ == self@,
    {
        Field { name: self.name.clone(), value: self.value.clone() }
    }
}

impl Field {
    /// A field that holds a text.
    pub fn text(name: &str, value: &str) -> (field: Field)
        ensures
            field@ == (FieldView { name: name@, value: FieldValueView::Text(value@) }),
    {
        Field { name: String::from_str(name), value: FieldValue::Text(String::from_str(value)) }
    }

    /// A field that holds a flag.
    pub fn flag(name: &str, value: bool) -> (field: Field)
        ensures
            field@ == (FieldView { name: name@, value: FieldValueView::Flag(value) }),
    {
        Field { name: String::from_str(name), value: FieldValue::Flag(value) }
    }

    /// A field that holds neither a text nor a flag.
    pub fn other(name: &str) -> (field: Field)
        ensures
            field@ == (FieldView { name: name@, value: FieldValueView::Other }),
    {
        Field { name: String::from_str(name), value: FieldValue::Other }
    }
}

/// One document as the store hands it out: its fields in the order given.
#[derive(Debug, PartialEq, Eq)]
pub struct Row {
    pub fields: Vec<Field>,
}

impl View for Row {
    type V = Seq<FieldView>;

    open spec fn view(&self) -> Seq<FieldView> {
        field_views(self.fields@)
    }
}

impl Clone for Row {
    fn clone(&self) -> (copy: Self)
        ensures
            copy@ == self@,
    {
        let mut fields: Vec<Field> = Vec::new();
        let mut i: usize = 0;
        while i < self.fields.len()
            invariant
                i <= self.fields.len(),
                fields@.len() == i,
                forall|j: int| 0 <= j < i ==> (#[trigger] fields@[j])@ == self.fields@[j]@,
            decreases self.fields.len() - i,
        {
            fields.push(self.fields[i].clone());
            i += 1;
        }
        let copy = Row { fields };
        assert(copy@ =~= self@);
        copy
    }
}

/// The values of a sequence of fields, in the same order.
pub open spec fn field_views(fields: Seq<Field>) -> Seq<FieldView> {
    fields.map_values(|f: Field| f@)
}

/// The values of a sequence of rows, in the same order.
pub open spec fn row_views(rows: Seq<Row>) -> Seq<Seq<FieldView>> {
    rows.map_values(|r: Row| r@)
}

/// The value of the first field of `fields` that is named `name`.
pub open spec fn lookup(fields: Seq<FieldView>, name: Seq<char>) -> Option<FieldValueView>
    decreases fields.len(),
{
    if fields.len() == 0 {
        None
    } else if fields[0].name == name {
        Some(fields[0].value)
    } else {
        lookup(fields.drop_first(), name)
    }
}

/// Where no field before position `at` bears the name of the field at `at`,
/// a lookup of that name finds the field at `at`.
pub proof fn lemma_lookup_finds(fields: Seq<FieldView>, at: int)
    requires
        0 <= at < fields.len(),
        forall|j: int| 0 <= j < at ==> (#[trigger] fields[j]).name != fields[at].name,
    ensures
        lookup(fields, fields[at].name) == Some(fields[at].value),
    decreases at,
{
    if at > 0 {
        let rest = fields.drop_first();
        assert(fields[0].name != fields[at].name);
        assert(rest[at - 1] == fields[at]);
        assert forall|j: int| 0 <= j < at - 1 implies (#[trigger] rest[j]).name != rest[at
            - 1].name by {
            assert(rest[j] == fields[j + 1]);
        }
        lemma_lookup_finds(rest, at - 1);
    }
}

impl Row {
    /// Finds the first field named `name`.
    pub fn get(&self, name: &str) -> (found: Option<&FieldValue>)
        ensures
            match found {
                Some(value) => lookup(self@, name@) == Some(value@),
                None => lookup(self@, name@) is None,
            },
    {
        let wanted = String::from_str(name);
        let mut i: usize = 0;
        assert(self@.skip(0) == self@);
        while i < self.fields.len()
            invariant
                i <= self.fields.len(),
                wanted@ == name@,
                lookup(self@, name@) == lookup(self@.skip(i as int), name@),
            decreases self.fields.len() - i,
        {
            proof {
                let rest = self@.skip(i as int);
                assert(rest[0] == self.fields@[i as int]@);
                assert(rest.drop_first() == self@.skip(i + 1));
            }
            if self.fields[i].name == wanted {
                return Some(&self.fields[i].value);
            }
            i += 1;
        }
        assert(self@.skip(i as int).len() == 0);
        None
    }
}

} // verus!

//! Field definitions: what a dissector author says of a field before it is
//! registered. A definition has an id that is unique within its protocol, a
//! display name, a kind, a display hint and an optional table that gives
//! labels to values.

use vstd::prelude::*;
use vstd::string::*;
use crate::defines::FieldDisplayType;
use crate::defines::FieldType;
use crate::host::FieldRequest;
use crate::host::field_request_of;

verus! {

/// What a field definition says, as plain mathematical values.
pub struct FieldModel {
    pub id: Seq<char>,
    pub name: Seq<char>,
    pub field_type: FieldType,
    pub display: FieldDisplayType,
    pub labels: Option<Seq<(u32, Seq<char>)>>,
}

/// The label of `value` in a table: that of the first pair, from `from` on,
/// whose value equals it; `None` when no pair does.
pub open spec fn label_from(table: Seq<(u32, Seq<char>)>, value: u32, from: int) -> Option<
    Seq<char>,
>
    decreases table.len() - from,
{
    if from < 0 || from >= table.len() {
        None
    } else if table[from].0 == value {
        Some(table[from].1)
    } else {
        label_from(table, value, from + 1)
    }
}

/// The label under which `value` is shown: the first pair of the table with
/// that value decides. Without a table, or without such a pair, the value is
/// shown as the raw number.
pub open spec fn label_of(labels: Option<Seq<(u32, Seq<char>)>>, value: u32) -> Option<Seq<char>> {
    match labels {
        Some(table) => label_from(table, value, 0),
        None => None,
    }
}

/// The pairs of a borrowed label table as plain values.
pub open spec fn borrowed_labels(values: Seq<(u32, &str)>) -> Seq<(u32, Seq<char>)> {
    Seq::new(values.len(), |i: int| (values[i].0, values[i].1@))
}

/// The pairs of an owned label table as plain values.
pub open spec fn owned_labels(values: Seq<(u32, String)>) -> Seq<(u32, Seq<char>)> {
    Seq::new(values.len(), |i: int| (values[i].0, values[i].1@))
}

/// A field as its author describes it, borrowing the author's strings.
#[derive(Debug, Clone)]
pub struct WiresharkFieldArgs<'a> {
    id: &'a str,
    name: &'a str,
    field_type: FieldType,
    display: FieldDisplayType,
    str_values: Option<Vec<(u32, &'a str)>>,
}

impl<'a> View for WiresharkFieldArgs<'a> {
    type V = FieldModel;

    closed spec fn view(&self) -> FieldModel {
        FieldModel {
            id: self.id@,
            name: self.name@,
            field_type: self.field_type,
            display: self.display,
            labels: match self.str_values {
                Some(values) => Some(borrowed_labels(values@)),
                None => None,
            },
        }
    }
}

impl<'a> WiresharkFieldArgs<'a> {
    /// A field with the given id and display name, of no kind, shown without
    /// a base and without labels.
    pub fn new(id: &'a str, name: &'a str) -> (r: Self)
        ensures
            r@ == (FieldModel {
                id: id@,
                name: name@,
                field_type: FieldType::FtNone,
                display: FieldDisplayType::BaseNone,
                labels: None,
            }),
    {
        Self {
            id: id,
            name: name,
            field_type: FieldType::FtNone,
            display: FieldDisplayType::BaseNone,
            str_values: None,
        }
    }

    /// The same field with its kind replaced.
    pub fn with_field_type(self, field_type: FieldType) -> (r: Self)
        ensures
            r@ == (FieldModel { field_type: field_type, ..self@ }),
    {
        let mut args = self;
        args.field_type = field_type;
        args
    }

    /// The same field with its display hint replaced.
    pub fn with_display(self, display: FieldDisplayType) -> (r: Self)
        ensures
            r@ == (FieldModel { display: display, ..self@ }),
    {
        let mut args = self;
        args.display = display;
        args
    }

    /// The same field with its label table replaced. When the field is
    /// shown, the first pair whose value matches gives the label.
    pub fn with_values(self, values: Vec<(u32, &'a str)>) -> (r: Self)
        ensures
            r@ == (FieldModel { labels: Some(borrowed_labels(values@)), ..self@ }),
    {
        let mut args = self;
        args.str_values = Some(values);
        args
    }
}

/// A field definition that owns its strings.
#[derive(Debug, Clone)]
pub struct WiresharkFieldDefinition {
    id: String,
    name: String,
    field_type: FieldType,
    display: FieldDisplayType,
    str_values: Option<Vec<(u32, String)>>,
}

impl View for WiresharkFieldDefinition {
    type V = FieldModel;

    closed spec fn view(&self) -> FieldModel {
        FieldModel {
            id: self.id@,
            name: self.name@,
            field_type: self.field_type,
            display: self.display,
            labels: match self.str_values {
                Some(values) => Some(owned_labels(values@)),
                None => None,
            },
        }
    }
}

impl WiresharkFieldDefinition {
    /// Copies what the author said of a field into a definition that owns its
    /// strings.
    pub fn from_args<'a>(definition: WiresharkFieldArgs<'a>) -> (r: Self)
        ensures
            r@ == definition@,
    {
        let str_values = match definition.str_values {
            Some(values) => {
                let mut owned: Vec<(u32, String)> = Vec::new();
                let mut i: usize = 0;
                while i < values.len()
                    invariant
                        i <= values.len(),
                        owned@.len() == i,
                        forall|j: int|
                            0 <= j < i ==> owned@[j].0 == values@[j].0 && owned@[j].1@
                                == values@[j].1@,
                    decreases values.len() - i,
                {
                    let pair = values[i];
                    owned.push((pair.0, pair.1.to_owned()));
                    i = i + 1;
                }
                proof {
                    assert(owned_labels(owned@) =~= borrowed_labels(values@));
                }
                Some(owned)
            },
            None => None,
        };
        WiresharkFieldDefinition {
            id: definition.id.to_owned(),
            name: definition.name.to_owned(),
            field_type: definition.field_type,
            display: definition.display,
            str_values: str_values,
        }
    }

    /// The id of the field, unique within its protocol.
    pub fn id(&self) -> (r: &str)
        ensures
            r@ == self@.id,
    {
        self.id.as_str()
    }

    /// Whether the field has the given id.
    pub fn has_id(&self, id: &String) -> (r: bool)
        ensures
            r == (self@.id == id@),
    {
        self.id == *id
    }

    /// Whether this field and `other` have the same id.
    pub fn same_id(&self, other: &WiresharkFieldDefinition) -> (r: bool)
        ensures
            r == (self@.id == other@.id),
    {
        self.id == other.id
    }

    /// The display name of the field.
    pub fn name(&self) -> (r: &str)
        ensures
            r@ == self@.name,
    {
        self.name.as_str()
    }

    /// The kind of the field.
    pub fn field_type(&self) -> (r: FieldType)
        ensures
            r == self@.field_type,
    {
        self.field_type
    }

    /// The display hint of the field.
    pub fn display(&self) -> (r: FieldDisplayType)
        ensures
            r == self@.display,
    {
        self.display
    }

    /// The label table of the field, if it has one.
    pub fn values(&self) -> (r: Option<&Vec<(u32, String)>>)
        ensures
            match r {
                Some(values) => self@.labels == Some(owned_labels(values@)),
                None => self@.labels is None,
            },
    {
        match &self.str_values {
            Some(values) => Some(values),
            None => None,
        }
    }

    /// What the host is to be told of this field when it is registered: the
    /// names, the codes of kind and display hint, and a copy of the labels.
    pub fn to_request(&self) -> (r: FieldRequest)
        ensures
            r@ == field_request_of(self@),
    {
        let values = match &self.str_values {
            Some(values) => {
                let mut copy: Vec<(u32, String)> = Vec::new();
                let mut i: usize = 0;
                while i < values.len()
                    invariant
                        i <= values.len(),
                        copy@.len() == i,
                        forall|j: int|
                            0 <= j < i ==> copy@[j].0 == values@[j].0 && copy@[j].1@
                                == values@[j].1@,
                    decreases values.len() - i,
                {
                    copy.push((values[i].0, values[i].1.clone()));
                    i = i + 1;
                }
                proof {
                    assert(owned_labels(copy@) =~= owned_labels(values@));
                }
                Some(copy)
            },
            None => None,
        };
        FieldRequest {
            name: self.name.clone(),
            abbrev: self.id.clone(),
            type_code: self.field_type.to_u32(),
            display_code: self.display.to_i32(),
            values: values,
        }
    }

    /// The label under which `value` is shown: that of the first pair of the
    /// table whose value equals it. `None` means that the field has no label
    /// for the value, which is then shown as the raw number.
    pub fn label_for(&self, value: u32) -> (r: Option<&str>)
        ensures
            match r {
                Some(label) => label_of(self@.labels, value) == Some(label@),
                None => label_of(self@.labels, value) is None,
            },
    {
        match &self.str_values {
            Some(values) => {
                let mut i: usize = 0;
                while i < values.len()
                    invariant
                        i <= values.len(),
                        self@.labels == Some(owned_labels(values@)),
                        label_from(owned_labels(values@), value, 0) == label_from(
                            owned_labels(values@),
                            value,
                            i as int,
                        ),
                    decreases values.len() - i,
                {
                    if values[i].0 == value {
                        proof {
                            let table = owned_labels(values@);
                            assert(table[i as int] == (values@[i as int].0, values@[i as int].1@));
                        }
                        return Some(values[i].1.as_str());
                    }
                    proof {
                        let table = owned_labels(values@);
                        assert(table[i as int].0 == values@[i as int].0);
                    }
                    i = i + 1;
                }
                None
            },
            None => None,
        }
    }
}

} // verus!

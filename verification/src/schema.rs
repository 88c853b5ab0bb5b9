//! Column types and the fields of a schema.
use vstd::prelude::*;

use crate::string_map::StringMap;
use crate::text::{concat3, spelled_option};

verus! {

/// The resolution of a time type.
#[derive(Debug, Clone, Copy, PartialEq, Eq, Structural)]
pub enum TimeUnit {
    Second,
    Millisecond,
    Microsecond,
    Nanosecond,
}

/// What an interval type counts.
#[derive(Debug, Clone, Copy, PartialEq, Eq, Structural)]
pub enum IntervalUnit {
    YearMonth,
    DayTime,
    MonthDayNano,
}

/// How a union type lays its members out.
#[derive(Debug, Clone, Copy, PartialEq, Eq, Structural)]
pub enum UnionMode {
    Sparse,
    Dense,
}

/// The types that hold no other type and no text.
#[derive(Debug, Clone, Copy, PartialEq, Eq, Structural)]
pub enum ScalarType {
    Null,
    Boolean,
    Int8,
    Int16,
    Int32,
    Int64,
    UInt8,
    UInt16,
    UInt32,
    UInt64,
    Float16,
    Float32,
    Float64,
    Date32,
    Date64,
    Time32(TimeUnit),
    Time64(TimeUnit),
    Duration(TimeUnit),
    Interval(IntervalUnit),
    Binary,
    FixedSizeBinary(i32),
    LargeBinary,
    BinaryView,
    Utf8,
    LargeUtf8,
    Utf8View,
    Decimal128(u8, i8),
    Decimal256(u8, i8),
}

/// The layouts of a list type.
#[derive(Debug, Clone, Copy, PartialEq, Eq, Structural)]
pub enum ListKind {
    List,
    ListView,
    LargeList,
    LargeListView,
    FixedSize(i32),
}

/// The type of a column.
#[derive(Debug, PartialEq, Eq)]
pub enum DataType {
    Scalar(ScalarType),
    /// A point in time, with its time zone where it has one.
    Timestamp(TimeUnit, Option<String>),
    List(ListKind, Box<Field>),
    Struct(Vec<Field>),
    /// The members with the tag of each.
    Union(UnionMode, Vec<i8>, Vec<Field>),
    /// The types of the keys and of the values.
    Dictionary(Box<DataType>, Box<DataType>),
    /// The entries, and whether their keys are sorted.
    Mapping(Box<Field>, bool),
    /// The run ends and the values.
    RunEndEncoded(Box<Field>, Box<Field>),
}

/// A column of a schema. Two columns are compared without their dictionaries.
#[derive(Debug)]
pub struct Field {
    pub name: String,
    pub data_type: DataType,
    pub nullable: bool,
    /// The dictionary that the column uses where its type is a dictionary type.
    pub dict_id: i64,
    /// Whether the dictionary is ordered.
    pub dict_is_ordered: bool,
    pub metadata: StringMap,
}

/// What a [`DataType`] says.
pub enum DataTypeView {
    Scalar(ScalarType),
    Timestamp(TimeUnit, Option<Seq<char>>),
    List(ListKind, Box<FieldView>),
    Struct(Seq<FieldView>),
    Union(UnionMode, Seq<i8>, Seq<FieldView>),
    Dictionary(Box<DataTypeView>, Box<DataTypeView>),
    Mapping(Box<FieldView>, bool),
    RunEndEncoded(Box<FieldView>, Box<FieldView>),
}

/// What a [`Field`] says.
pub struct FieldView {
    pub name: Seq<char>,
    pub data_type: DataTypeView,
    pub nullable: bool,
    pub dict_id: i64,
    pub dict_is_ordered: bool,
    pub metadata: Map<Seq<char>, Seq<char>>,
}

impl DataType {
    /// What the type says.
    pub open spec fn view(&self) -> DataTypeView
        decreases self,
    {
        match self {
            DataType::Scalar(scalar) => DataTypeView::Scalar(*scalar),
            DataType::Timestamp(unit, zone) => DataTypeView::Timestamp(*unit, spelled_option(*zone)),
            DataType::List(kind, item) => DataTypeView::List(*kind, Box::new(item.view())),
            DataType::Struct(fields) => DataTypeView::Struct(
                Seq::new(
                    fields@.len(),
                    |i: int|
                        if 0 <= i < fields@.len() {
                            fields@[i].view()
                        } else {
                            arbitrary()
                        },
                ),
            ),
            DataType::Union(mode, tags, fields) => DataTypeView::Union(
                *mode,
                tags@,
                Seq::new(
                    fields@.len(),
                    |i: int|
                        if 0 <= i < fields@.len() {
                            fields@[i].view()
                        } else {
                            arbitrary()
                        },
                ),
            ),
            DataType::Dictionary(key, value) => DataTypeView::Dictionary(
                Box::new(key.view()),
                Box::new(value.view()),
            ),
            DataType::Mapping(entry, sorted) => DataTypeView::Mapping(Box::new(entry.view()), *sorted),
            DataType::RunEndEncoded(ends, values) => DataTypeView::RunEndEncoded(
                Box::new(ends.view()),
                Box::new(values.view()),
            ),
        }
    }
}

impl Field {
    /// What the field says.
    pub open spec fn view(&self) -> FieldView
        decreases self,
    {
        FieldView {
            name: self.name@,
            data_type: self.data_type.view(),
            nullable: self.nullable,
            dict_id: self.dict_id,
            dict_is_ordered: self.dict_is_ordered,
            metadata: self.metadata@,
        }
    }
}

impl FieldView {
    /// A field without metadata and with the first dictionary, which is not
    /// ordered.
    pub open spec fn plain(name: Seq<char>, data_type: DataTypeView, nullable: bool) -> FieldView {
        FieldView {
            name,
            data_type,
            nullable,
            dict_id: 0,
            dict_is_ordered: false,
            metadata: Map::empty(),
        }
    }

    /// Whether the two fields are the same but for their dictionaries and those
    /// of the fields in their types.
    pub open spec fn same_as(self, other: FieldView) -> bool
        decreases self,
    {
        &&& self.name == other.name
        &&& self.data_type.same_as(other.data_type)
        &&& self.nullable == other.nullable
        &&& self.metadata == other.metadata
    }
}

impl DataTypeView {
    /// Whether this is a timestamp type, with or without a zone.
    pub open spec fn is_timestamp(self) -> bool {
        self is Timestamp
    }

    /// Whether the two types are the same but for the dictionaries of the fields
    /// in them.
    pub open spec fn same_as(self, other: DataTypeView) -> bool
        decreases self,
    {
        match (self, other) {
            (DataTypeView::Scalar(a), DataTypeView::Scalar(b)) => a == b,
            (DataTypeView::Timestamp(a, a_zone), DataTypeView::Timestamp(b, b_zone)) => a == b
                && a_zone == b_zone,
            (DataTypeView::List(a, a_item), DataTypeView::List(b, b_item)) => a == b
                && a_item.same_as(*b_item),
            (DataTypeView::Struct(a), DataTypeView::Struct(b)) => {
                &&& a.len() == b.len()
                &&& forall|i: int| 0 <= i < a.len() ==> (#[trigger] a[i]).same_as(b[i])
            },
            (DataTypeView::Union(a, a_tags, a_fields), DataTypeView::Union(b, b_tags, b_fields)) => {
                &&& a == b
                &&& a_tags == b_tags
                &&& a_fields.len() == b_fields.len()
                &&& forall|i: int|
                    0 <= i < a_fields.len() ==> (#[trigger] a_fields[i]).same_as(b_fields[i])
            },
            (
                DataTypeView::Dictionary(a_key, a_value),
                DataTypeView::Dictionary(b_key, b_value),
            ) => a_key.same_as(*b_key) && a_value.same_as(*b_value),
            (DataTypeView::Mapping(a, a_sorted), DataTypeView::Mapping(b, b_sorted)) => a_sorted
                == b_sorted && a.same_as(*b),
            (
                DataTypeView::RunEndEncoded(a_ends, a_values),
                DataTypeView::RunEndEncoded(b_ends, b_values),
            ) => a_ends.same_as(*b_ends) && a_values.same_as(*b_values),
            _ => false,
        }
    }
}

/// Whether the two lists hold the same fields in the same order, but for their
/// dictionaries.
pub open spec fn fields_same(a: Seq<FieldView>, b: Seq<FieldView>) -> bool {
    &&& a.len() == b.len()
    &&& forall|i: int| 0 <= i < a.len() ==> (#[trigger] a[i]).same_as(b[i])
}

/// What a list of fields says, field by field.
pub open spec fn field_views(fields: Seq<Field>) -> Seq<FieldView> {
    Seq::new(fields.len(), |i: int| fields[i].view())
}

impl Clone for DataType {
    fn clone(&self) -> (copy: DataType)
        ensures
            copy.view() == self.view(),
        decreases self,
    {
        match self {
            DataType::Scalar(scalar) => DataType::Scalar(*scalar),
            DataType::Timestamp(unit, zone) => {
                let zone = match zone {
                    Some(zone) => Some(zone.clone()),
                    None => None,
                };
                DataType::Timestamp(*unit, zone)
            },
            DataType::List(kind, item) => DataType::List(*kind, Box::new((&**item).clone())),
            DataType::Struct(fields) => {
                let copies = copy_fields(fields);
                let copy = DataType::Struct(copies);
                proof {
                    assert(copy.view()->Struct_0 =~= self.view()->Struct_0);
                }
                copy
            },
            DataType::Union(mode, tags, fields) => {
                let copies = copy_fields(fields);
                let mut tag_copies: Vec<i8> = Vec::new();
                for i in 0..tags.len()
                    invariant
                        tag_copies@ == tags@.take(i as int),
                {
                    tag_copies.push(tags[i]);
                    proof {
                        assert(tag_copies@ =~= tags@.take(i + 1));
                    }
                }
                let copy = DataType::Union(*mode, tag_copies, copies);
                proof {
                    assert(tag_copies@ =~= tags@);
                    assert(copy.view()->Union_2 =~= self.view()->Union_2);
                }
                copy
            },
            DataType::Dictionary(key, value) => DataType::Dictionary(
                Box::new((&**key).clone()),
                Box::new((&**value).clone()),
            ),
            DataType::Mapping(entry, sorted) => DataType::Mapping(Box::new((&**entry).clone()), *sorted),
            DataType::RunEndEncoded(ends, values) => DataType::RunEndEncoded(
                Box::new((&**ends).clone()),
                Box::new((&**values).clone()),
            ),
        }
    }
}

impl Clone for Field {
    fn clone(&self) -> (copy: Field)
        ensures
            copy.view() == self.view(),
        decreases self,
    {
        Field {
            name: self.name.clone(),
            data_type: self.data_type.clone(),
            nullable: self.nullable,
            dict_id: self.dict_id,
            dict_is_ordered: self.dict_is_ordered,
            metadata: self.metadata.clone(),
        }
    }
}

/// Copies a list of fields.
pub fn copy_fields(fields: &Vec<Field>) -> (copies: Vec<Field>)
    ensures
        field_views(copies@) == field_views(fields@),
        copies@.len() == fields@.len(),
        forall|i: int|
            0 <= i < fields@.len() ==> (#[trigger] copies@[i]).view() == fields@[i].view(),
    decreases fields,
{
    let mut copies: Vec<Field> = Vec::new();
    for i in 0..fields.len()
        invariant
            copies@.len() == i,
            forall|j: int| 0 <= j < i ==> (#[trigger] copies@[j]).view() == fields@[j].view(),
    {
        copies.push(fields[i].clone());
    }
    proof {
        assert(field_views(copies@) =~= field_views(fields@));
    }
    copies
}

impl DataType {
    /// Whether this is a timestamp type, with or without a zone.
    pub fn is_timestamp(&self) -> (yes: bool)
        ensures
            yes == self.view().is_timestamp(),
    {
        match self {
            DataType::Timestamp(_, _) => true,
            _ => false,
        }
    }

    /// A struct type with the given fields.
    pub fn struct_of(fields: Vec<Field>) -> (data_type: DataType)
        ensures
            data_type.view() == DataTypeView::Struct(field_views(fields@)),
    {
        let data_type = DataType::Struct(fields);
        proof {
            assert(data_type.view()->Struct_0 =~= field_views(fields@));
        }
        data_type
    }

    /// Whether the two types are the same but for the dictionaries of the fields
    /// in them.
    pub fn same_type(&self, other: &DataType) -> (same: bool)
        ensures
            same == self.view().same_as(other.view()),
        decreases self,
    {
        match (self, other) {
            (DataType::Scalar(a), DataType::Scalar(b)) => *a == *b,
            (DataType::Timestamp(a, a_zone), DataType::Timestamp(b, b_zone)) => {
                *a == *b && match (a_zone, b_zone) {
                    (Some(a_zone), Some(b_zone)) => *a_zone == *b_zone,
                    (None, None) => true,
                    _ => false,
                }
            },
            (DataType::List(a, a_item), DataType::List(b, b_item)) => {
                *a == *b && (&**a_item).same_field(&**b_item)
            },
            (DataType::Struct(a), DataType::Struct(b)) => {
                let same = same_fields(a, b);
                proof {
                    lemma_struct_view(*a);
                    lemma_struct_view(*b);
                }
                same
            },
            (DataType::Union(a, a_tags, a_fields), DataType::Union(b, b_tags, b_fields)) => {
                let same = same_fields(a_fields, b_fields);
                proof {
                    lemma_union_view(*a, *a_tags, *a_fields);
                    lemma_union_view(*b, *b_tags, *b_fields);
                }
                *a == *b && same && same_tags(a_tags, b_tags)
            },
            (DataType::Dictionary(a_key, a_value), DataType::Dictionary(b_key, b_value)) => {
                (&**a_key).same_type(&**b_key) && (&**a_value).same_type(&**b_value)
            },
            (DataType::Mapping(a, a_sorted), DataType::Mapping(b, b_sorted)) => {
                *a_sorted == *b_sorted && (&**a).same_field(&**b)
            },
            (DataType::RunEndEncoded(a_ends, a_values), DataType::RunEndEncoded(b_ends, b_values)) => {
                (&**a_ends).same_field(&**b_ends) && (&**a_values).same_field(&**b_values)
            },
            _ => false,
        }
    }
}

impl Field {
    /// A field without metadata and with the first dictionary, which is not
    /// ordered.
    pub fn new(name: String, data_type: DataType, nullable: bool) -> (field: Field)
        ensures
            field.view() == FieldView::plain(name@, data_type.view(), nullable),
            field.name == name,
    {
        Field {
            name,
            data_type,
            nullable,
            dict_id: 0,
            dict_is_ordered: false,
            metadata: StringMap::new(),
        }
    }

    /// Whether the two fields are the same but for their dictionaries.
    pub fn same_field(&self, other: &Field) -> (same: bool)
        ensures
            same == self.view().same_as(other.view()),
        decreases self,
    {
        self.name == other.name && self.nullable == other.nullable && self.metadata.same_map(
            &other.metadata,
        ) && self.data_type.same_type(&other.data_type)
    }
}

impl PartialEq for Field {
    fn eq(&self, other: &Field) -> (same: bool) {
        self.same_field(other)
    }
}

impl vstd::std_specs::cmp::PartialEqSpecImpl for Field {
    open spec fn obeys_eq_spec() -> bool {
        true
    }

    open spec fn eq_spec(&self, other: &Field) -> bool {
        self.view().same_as(other.view())
    }
}

impl Eq for Field {

}

/// The fields of a struct type are what its view lists.
proof fn lemma_struct_view(fields: Vec<Field>)
    ensures
        DataType::Struct(fields).view() == DataTypeView::Struct(field_views(fields@)),
{
    assert(DataType::Struct(fields).view()->Struct_0 =~= field_views(fields@));
}

/// The fields of a union type are what its view lists.
proof fn lemma_union_view(mode: UnionMode, tags: Vec<i8>, fields: Vec<Field>)
    ensures
        DataType::Union(mode, tags, fields).view() == DataTypeView::Union(
            mode,
            tags@,
            field_views(fields@),
        ),
{
    assert(DataType::Union(mode, tags, fields).view()->Union_2 =~= field_views(fields@));
}

fn same_tags(a: &Vec<i8>, b: &Vec<i8>) -> (same: bool)
    ensures
        same == (a@ == b@),
{
    if a.len() != b.len() {
        return false;
    }
    for i in 0..a.len()
        invariant
            a@.len() == b@.len(),
            forall|j: int| 0 <= j < i ==> a@[j] == b@[j],
    {
        if a[i] != b[i] {
            return false;
        }
    }
    proof {
        assert(a@ =~= b@);
    }
    true
}

/// Whether the two lists hold the same fields in the same order, but for their
/// dictionaries.
pub fn same_fields(a: &Vec<Field>, b: &Vec<Field>) -> (same: bool)
    ensures
        same == fields_same(field_views(a@), field_views(b@)),
    decreases a,
{
    if a.len() != b.len() {
        return false;
    }
    for i in 0..a.len()
        invariant
            a@.len() == b@.len(),
            forall|j: int| 0 <= j < i ==> (#[trigger] a@[j]).view().same_as(b@[j].view()),
    {
        if !a[i].same_field(&b[i]) {
            proof {
                assert(!field_views(a@)[i as int].same_as(field_views(b@)[i as int]));
            }
            return false;
        }
    }
    proof {
        assert forall|i: int| 0 <= i < a@.len() implies (#[trigger] field_views(a@)[i]).same_as(
            field_views(b@)[i],
        ) by {
            assert(a@[i].view().same_as(b@[i].view()));
        }
    }
    true
}

/// The name of a relation, with its schema and catalog where they are given.
#[derive(Debug, PartialEq, Eq)]
pub enum TableReference {
    Bare { table: String },
    Partial { schema: String, table: String },
    Full { catalog: String, schema: String, table: String },
}

/// A field of a query's output with the relation that it comes from.
#[derive(Debug, PartialEq, Eq)]
pub struct DFField {
    pub qualifier: Option<TableReference>,
    pub field: Field,
}

impl TableReference {
    /// The parts of the name with dots between them.
    pub open spec fn text(self) -> Seq<char> {
        match self {
            TableReference::Bare { table } => table@,
            TableReference::Partial { schema, table } => schema@ + "."@ + table@,
            TableReference::Full { catalog, schema, table } => catalog@ + "."@ + schema@ + "."@
                + table@,
        }
    }

    /// The parts of the name with dots between them.
    pub fn to_text(&self) -> (text: String)
        ensures
            text@ == self.text(),
    {
        match self {
            TableReference::Bare { table } => table.clone(),
            TableReference::Partial { schema, table } => concat3(
                schema.as_str(),
                ".",
                table.as_str(),
            ),
            TableReference::Full { catalog, schema, table } => {
                let head = concat3(catalog.as_str(), ".", schema.as_str());
                concat3(head.as_str(), ".", table.as_str())
            },
        }
    }
}

impl Clone for TableReference {
    fn clone(&self) -> (copy: TableReference)
        ensures
            copy == *self,
    {
        match self {
            TableReference::Bare { table } => TableReference::Bare { table: table.clone() },
            TableReference::Partial { schema, table } => TableReference::Partial {
                schema: schema.clone(),
                table: table.clone(),
            },
            TableReference::Full { catalog, schema, table } => TableReference::Full {
                catalog: catalog.clone(),
                schema: schema.clone(),
                table: table.clone(),
            },
        }
    }
}

/// What a [`DFField`] says.
pub struct DFFieldView {
    pub qualifier: Option<TableReference>,
    pub field: FieldView,
}

impl DFField {
    /// What the field says.
    pub open spec fn view(&self) -> DFFieldView {
        DFFieldView { qualifier: self.qualifier, field: self.field.view() }
    }
}

impl Clone for DFField {
    fn clone(&self) -> (copy: DFField)
        ensures
            copy.view() == self.view(),
    {
        let qualifier = match &self.qualifier {
            Some(qualifier) => Some(qualifier.clone()),
            None => None,
        };
        DFField { qualifier, field: self.field.clone() }
    }
}

/// What a list of output fields says, field by field.
pub open spec fn output_views(fields: Seq<DFField>) -> Seq<DFFieldView> {
    Seq::new(fields.len(), |i: int| fields[i].view())
}

/// Copies a list of output fields.
pub fn copy_output(fields: &Vec<DFField>) -> (copies: Vec<DFField>)
    ensures
        output_views(copies@) == output_views(fields@),
{
    let mut copies: Vec<DFField> = Vec::new();
    for i in 0..fields.len()
        invariant
            copies@.len() == i,
            forall|j: int| 0 <= j < i ==> (#[trigger] copies@[j]).view() == fields@[j].view(),
    {
        copies.push(fields[i].clone());
    }
    proof {
        assert(output_views(copies@) =~= output_views(fields@));
    }
    copies
}

/// The fields of a query's output without the relations that they come from.
pub open spec fn unqualified(fields: Seq<DFField>) -> Seq<FieldView> {
    Seq::new(fields.len(), |i: int| fields[i].field.view())
}

/// Copies the fields of a query's output without the relations that they come
/// from.
pub fn copy_unqualified(fields: &Vec<DFField>) -> (copies: Vec<Field>)
    ensures
        field_views(copies@) == unqualified(fields@),
{
    let mut copies: Vec<Field> = Vec::new();
    for i in 0..fields.len()
        invariant
            copies@.len() == i,
            forall|j: int| 0 <= j < i ==> (#[trigger] copies@[j]).view() == fields@[j].field.view(),
    {
        copies.push(fields[i].field.clone());
    }
    proof {
        assert(field_views(copies@) =~= unqualified(fields@));
    }
    copies
}

} // verus!

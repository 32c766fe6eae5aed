use vstd::prelude::*;
use vstd::string::*;
use crate::json::json_model;
use crate::types::{decode_full, DataKind, DataValue, ExtractionError, ExtractionErrorModel, ValueModel};

verus! {

/// One field of a table: its name, its kind, and whether a create request
/// must bring it.
#[derive(Debug)]
pub struct FieldDescriptor {
    pub name: String,
    pub expected_kind: DataKind,
    /// The field must be present when a record is created.
    pub required: bool,
    /// The server assigns the field; a client need not send it.
    pub generated: bool,
}

/// The mathematical content of a `FieldDescriptor`.
pub struct FieldModel {
    pub name: Seq<char>,
    pub kind: DataKind,
    pub required: bool,
    pub generated: bool,
}

/// One resource type: a name and its fields in declared order, no field
/// name twice.
#[derive(Debug)]
pub struct TableSchema {
    name: String,
    fields: Vec<FieldDescriptor>,
}

/// The mathematical content of a `TableSchema`.
pub struct TableModel {
    pub name: Seq<char>,
    pub fields: Seq<FieldModel>,
}

/// The tables of the service, found by name.
#[derive(Debug)]
pub struct SchemaRegistry {
    tables: Vec<TableSchema>,
}

/// No two fields share a name.
pub open spec fn distinct_names(fields: Seq<FieldModel>) -> bool {
    forall|i: int, j: int| 0 <= i < j < fields.len() ==> fields[i].name != fields[j].name
}

/// The position of the first field called `name`, or the length if there is
/// none.
pub open spec fn field_position(fields: Seq<FieldModel>, name: Seq<char>) -> int
    decreases fields.len(),
{
    if fields.len() == 0 {
        0
    } else if fields[0].name == name {
        0
    } else {
        1 + field_position(fields.skip(1), name)
    }
}

/// The first field called `name`.
pub open spec fn field_named(fields: Seq<FieldModel>, name: Seq<char>) -> Option<FieldModel> {
    let i = field_position(fields, name);
    if i < fields.len() {
        Some(fields[i])
    } else {
        None
    }
}

/// The position of the first table called `name`, or the length if there is
/// none.
pub open spec fn table_position(tables: Seq<TableModel>, name: Seq<char>) -> int
    decreases tables.len(),
{
    if tables.len() == 0 {
        0
    } else if tables[0].name == name {
        0
    } else {
        1 + table_position(tables.skip(1), name)
    }
}

/// The first table called `name`.
pub open spec fn table_named(tables: Seq<TableModel>, name: Seq<char>) -> Option<TableModel> {
    let i = table_position(tables, name);
    if i < tables.len() {
        Some(tables[i])
    } else {
        None
    }
}

/// `field_position` is the least index with the name, or the length.
pub proof fn lemma_field_position(fields: Seq<FieldModel>, name: Seq<char>)
    ensures
        0 <= field_position(fields, name) <= fields.len(),
        field_position(fields, name) < fields.len() ==> fields[field_position(fields, name)].name
            == name,
        forall|j: int| 0 <= j < field_position(fields, name) ==> fields[j].name != name,
    decreases fields.len(),
{
    if fields.len() > 0 && fields[0].name != name {
        let rest = fields.skip(1);
        lemma_field_position(rest, name);
        assert forall|j: int| 0 <= j < field_position(fields, name) implies fields[j].name
            != name by {
            if j > 0 {
                assert(rest[j - 1] == fields[j]);
            }
        }
    }
}

/// Where no two fields share a name, the field called `fields[i].name` is
/// `fields[i]`.
pub proof fn lemma_field_named_unique(fields: Seq<FieldModel>, i: int)
    requires
        distinct_names(fields),
        0 <= i < fields.len(),
    ensures
        field_named(fields, fields[i].name) == Some(fields[i]),
{
    lemma_field_position(fields, fields[i].name);
}

/// `table_position` is the least index with the name, or the length.
pub proof fn lemma_table_position(tables: Seq<TableModel>, name: Seq<char>)
    ensures
        0 <= table_position(tables, name) <= tables.len(),
        table_position(tables, name) < tables.len() ==> tables[table_position(tables, name)].name
            == name,
        forall|j: int| 0 <= j < table_position(tables, name) ==> tables[j].name != name,
    decreases tables.len(),
{
    if tables.len() > 0 && tables[0].name != name {
        let rest = tables.skip(1);
        lemma_table_position(rest, name);
        assert forall|j: int| 0 <= j < table_position(tables, name) implies tables[j].name
            != name by {
            if j > 0 {
                assert(rest[j - 1] == tables[j]);
            }
        }
    }
}

impl View for FieldDescriptor {
    type V = FieldModel;

    open spec fn view(&self) -> FieldModel {
        FieldModel {
            name: self.name@,
            kind: self.expected_kind,
            required: self.required,
            generated: self.generated,
        }
    }
}

impl FieldDescriptor {
    /// A field with the given name, kind and flags.
    pub fn new(name: &str, expected_kind: DataKind, required: bool, generated: bool) -> (f: Self)
        ensures
            f@ == (FieldModel { name: name@, kind: expected_kind, required, generated }),
    {
        FieldDescriptor { name: String::from_str(name), expected_kind, required, generated }
    }

    /// Decodes one JSON value as a value of this field.
    pub fn extract(&self, json: &serde_json::Value) -> (r: Result<DataValue, ExtractionError>)
        ensures
            match r {
                Ok(v) => decode_full(self@.kind, json_model(*json)) == Ok::<
                    ValueModel,
                    ExtractionErrorModel,
                >(v@),
                Err(e) => decode_full(self@.kind, json_model(*json)) == Err::<
                    ValueModel,
                    ExtractionErrorModel,
                >(e@),
            },
    {
        self.expected_kind.extract(json)
    }
}

/// The content of a list of fields, in order.
spec fn models_of(fields: Seq<FieldDescriptor>) -> Seq<FieldModel> {
    Seq::new(fields.len(), |i: int| fields[i]@)
}

impl View for TableSchema {
    type V = TableModel;

    closed spec fn view(&self) -> TableModel {
        TableModel { name: self.name@, fields: models_of(self.fields@) }
    }
}

impl TableSchema {
    #[verifier::type_invariant]
    spec fn unique(&self) -> bool {
        distinct_names(models_of(self.fields@))
    }

    /// A table without fields.
    pub fn new(title: &str) -> (t: Self)
        ensures
            t@ == (TableModel { name: title@, fields: Seq::empty() }),
    {
        let t = TableSchema { name: String::from_str(title), fields: Vec::new() };
        assert(t@.fields =~= Seq::empty());
        t
    }

    /// The table's name.
    pub fn name(&self) -> (s: &str)
        ensures
            s@ == self@.name,
    {
        self.name.as_str()
    }

    /// The number of fields; no two of them share a name.
    pub fn len(&self) -> (n: usize)
        ensures
            n == self@.fields.len(),
            distinct_names(self@.fields),
    {
        proof {
            use_type_invariant(self);
        }
        self.fields.len()
    }

    /// The field at position `i` of the declared order.
    pub fn field_at(&self, i: usize) -> (f: &FieldDescriptor)
        requires
            i < self@.fields.len(),
        ensures
            f@ == self@.fields[i as int],
    {
        &self.fields[i]
    }

    /// The position of the field called `title`, or the number of fields.
    fn position(&self, title: &String) -> (i: usize)
        ensures
            i == field_position(self@.fields, title@),
    {
        let mut i: usize = 0;
        while i < self.fields.len()
            invariant
                i <= self.fields.len(),
                forall|j: int| 0 <= j < i ==> self@.fields[j].name != title@,
            decreases self.fields.len() - i,
        {
            if self.fields[i].name == *title {
                proof {
                    assert(self@.fields[i as int].name == title@);
                    lemma_field_position(self@.fields, title@);
                }
                return i;
            }
            i += 1;
        }
        proof {
            lemma_field_position(self@.fields, title@);
        }
        i
    }

    /// The field called `title`.
    pub fn field(&self, title: &str) -> (r: Option<&FieldDescriptor>)
        ensures
            match r {
                Some(f) => field_named(self@.fields, title@) == Some(f@),
                None => field_named(self@.fields, title@) is None,
            },
    {
        let key = String::from_str(title);
        let i = self.position(&key);
        if i < self.fields.len() {
            Some(&self.fields[i])
        } else {
            None
        }
    }

    /// Adds `field` at the end, unless a field of that name is there
    /// already; says whether it was added.
    pub fn add(&mut self, field: FieldDescriptor) -> (added: bool)
        ensures
            added == (field_named(old(self)@.fields, field@.name) is None),
            final(self)@.name == old(self)@.name,
            final(self)@.fields == if added {
                old(self)@.fields.push(field@)
            } else {
                old(self)@.fields
            },
    {
        proof {
            use_type_invariant(&*self);
        }
        let i = self.position(&field.name);
        if i < self.fields.len() {
            false
        } else {
            let ghost before = *self;
            let mut fields: Vec<FieldDescriptor> = Vec::new();
            core::mem::swap(&mut self.fields, &mut fields);
            fields.push(field);
            proof {
                lemma_field_position(before@.fields, field@.name);
                assert(models_of(fields@) =~= before@.fields.push(field@));
            }
            self.fields = fields;
            true
        }
    }
}

/// The content of a list of tables, in order.
spec fn tables_of(tables: Seq<TableSchema>) -> Seq<TableModel> {
    Seq::new(tables.len(), |i: int| tables[i]@)
}

impl View for SchemaRegistry {
    type V = Seq<TableModel>;

    closed spec fn view(&self) -> Seq<TableModel> {
        tables_of(self.tables@)
    }
}

impl SchemaRegistry {
    /// A registry without tables.
    pub fn new() -> (r: Self)
        ensures
            r@ == Seq::<TableModel>::empty(),
    {
        let r = SchemaRegistry { tables: Vec::new() };
        assert(r@ =~= Seq::<TableModel>::empty());
        r
    }

    /// Returns true if the registry holds no table.
    pub fn is_empty(&self) -> (b: bool)
        ensures
            b == (self@.len() == 0),
    {
        self.tables.len() == 0
    }

    /// The position of the table called `title`, or the number of tables.
    fn position(&self, title: &String) -> (i: usize)
        ensures
            i == table_position(self@, title@),
    {
        let mut i: usize = 0;
        while i < self.tables.len()
            invariant
                i <= self.tables.len(),
                forall|j: int| 0 <= j < i ==> self@[j].name != title@,
            decreases self.tables.len() - i,
        {
            let same = String::from_str(self.tables[i].name()) == *title;
            if same {
                proof {
                    assert(self@[i as int].name == title@);
                    lemma_table_position(self@, title@);
                }
                return i;
            }
            i += 1;
        }
        proof {
            lemma_table_position(self@, title@);
        }
        i
    }

    /// The table called `title`.
    pub fn table(&self, title: &str) -> (r: Option<&TableSchema>)
        ensures
            match r {
                Some(t) => table_named(self@, title@) == Some(t@),
                None => table_named(self@, title@) is None,
            },
    {
        let key = String::from_str(title);
        let i = self.position(&key);
        if i < self.tables.len() {
            Some(&self.tables[i])
        } else {
            None
        }
    }

    /// Adds `table` at the end, unless a table of that name is there
    /// already; says whether it was added.
    pub fn add(&mut self, table: TableSchema) -> (added: bool)
        ensures
            added == (table_named(old(self)@, table@.name) is None),
            final(self)@ == if added {
                old(self)@.push(table@)
            } else {
                old(self)@
            },
    {
        let key = String::from_str(table.name());
        let i = self.position(&key);
        if i < self.tables.len() {
            false
        } else {
            self.tables.push(table);
            assert(self@ =~= old(self)@.push(table@));
            true
        }
    }
}

} // verus!

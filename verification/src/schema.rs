use vstd::prelude::*;

verus! {

/// The type of a column. Log conversion stores text, so the only type a
/// container of this crate carries is UTF-8 strings.
#[derive(Clone, Copy, Debug, PartialEq, Eq, Structural)]
pub enum ColumnType {
    Utf8,
}

/// One column definition: a name, a type, and whether entries may be null.
pub struct FieldDef {
    pub name: String,
    pub ty: ColumnType,
    pub nullable: bool,
}

/// An ordered list of column definitions. Immutable once built; the batch
/// builder and the container writer share it read-only.
pub struct Schema {
    pub fields: Vec<FieldDef>,
}

impl Schema {
    /// The schema as its field names and nullabilities, in order. Every field
    /// of a [`Schema`] is a UTF-8 string column, so this is the whole of it.
    pub open spec fn model(self) -> Seq<(Seq<char>, bool)> {
        self.fields@.map_values(|f: FieldDef| (f.name@, f.nullable))
    }

    /// The shape a log container's schema has: exactly one non-nullable
    /// string column.
    pub open spec fn wf(self) -> bool {
        self.fields@.len() == 1 && !self.fields@[0].nullable
    }

    /// How many fields the schema has.
    pub fn num_fields(&self) -> (n: usize)
        ensures
            n == self.model().len(),
    {
        self.fields.len()
    }
}

/// The schema every log container is written under: one non-nullable UTF-8
/// column holding one log line per row, under the given column name.
pub fn log_schema(column_name: String) -> (s: Schema)
    ensures
        s.wf(),
        s.model() == seq![(column_name@, false)],
{
    let fields = vec![FieldDef { name: column_name, ty: ColumnType::Utf8, nullable: false }];
    let s = Schema { fields };
    proof {
        assert(s.model() =~= seq![(s.fields@[0].name@, false)]);
    }
    s
}

} // verus!

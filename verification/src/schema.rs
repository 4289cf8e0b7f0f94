//! The schema that queries are classified against: for each column of each
//! table, its declared type.

use vstd::prelude::*;

verus! {

/// The declared type of a column.
#[derive(Clone, Debug, PartialEq, Eq)]
pub enum Type {
    /// The auto-increment identity type: a column of this type identifies
    /// one row of its table.
    Serial,
    /// A relation to the rows of another table, by that table's name.
    Relation(String),
    /// Any other type, by its name.
    Plain(String),
}

/// One column of one table.
#[derive(Debug)]
pub struct Column {
    pub table: String,
    pub name: String,
    pub ty: Type,
}

impl Column {
    /// The table and column names by which the column is looked up.
    pub open spec fn key(self) -> (Seq<char>, Seq<char>) {
        (self.table@, self.name@)
    }
}

/// The map that a sequence of declarations amounts to: where a column is
/// declared twice, the later declaration holds.
pub open spec fn declared(columns: Seq<Column>) -> Map<(Seq<char>, Seq<char>), Type>
    decreases columns.len(),
{
    if columns.len() == 0 {
        Map::empty()
    } else {
        declared(columns.drop_last()).insert(columns.last().key(), columns.last().ty)
    }
}

/// The declared types of the columns, looked up by the exact names of table
/// and column.
#[derive(Debug)]
pub struct Schema {
    columns: Vec<Column>,
}

impl View for Schema {
    type V = Map<(Seq<char>, Seq<char>), Type>;

    closed spec fn view(&self) -> Map<(Seq<char>, Seq<char>), Type> {
        declared(self.columns@)
    }
}

impl Schema {
    /// A schema without columns.
    pub fn new() -> (schema: Schema)
        ensures
            schema@ == Map::<(Seq<char>, Seq<char>), Type>::empty(),
    {
        Schema { columns: Vec::new() }
    }

    /// Declares the type of a column, in place of any earlier declaration of
    /// the same column.
    pub fn declare(&mut self, table: String, name: String, ty: Type)
        ensures
            final(self)@ == old(self)@.insert((table@, name@), ty),
    {
        self.columns.push(Column { table, name, ty });
        assert(self.columns@.drop_last() =~= old(self).columns@);
    }

    /// The declared type of a column, if the schema holds the column.
    pub fn field_type(&self, table: &String, name: &String) -> (found: Option<&Type>)
        ensures
            found == if self@.contains_key((table@, name@)) {
                Some(&self@[(table@, name@)])
            } else {
                None
            },
    {
        let ghost key = (table@, name@);
        let mut i: usize = self.columns.len();
        assert(self.columns@.take(i as int) =~= self.columns@);
        while i > 0
            invariant
                i <= self.columns.len(),
                key == (table@, name@),
                self@.contains_key(key) == declared(self.columns@.take(i as int)).contains_key(key),
                self@.contains_key(key) ==> self@[key] == declared(self.columns@.take(i as int))[key],
            decreases i,
        {
            i -= 1;
            let column = &self.columns[i];
            assert(self.columns@.take(i + 1).drop_last() =~= self.columns@.take(i as int));
            assert(self.columns@.take(i + 1).last() == *column);
            if column.table == *table && column.name == *name {
                return Some(&column.ty);
            }
        }
        None
    }
}

} // verus!

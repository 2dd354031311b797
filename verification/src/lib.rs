//! Kohori: database schemas modelled in Rust, with PostgreSQL row-level
//! security policies, and the SQL migrations that create them.
use vstd::prelude::*;

pub mod text;
pub mod timestamp;
pub mod rls;
pub mod schema;
pub mod dialect;
pub mod migration;

use crate::dialect::{
    law_create_table_defines_everything, law_create_table_rls, qualified_name, Dialect, PostgreSQL,
};
use crate::migration::{
    law_migration_script, migration_id_of, migration_sql, operation_sql, Migration, MigrationOperation,
    SpecMigration, SpecOperation,
};
use crate::rls::enable_rls_statement;
use crate::schema::{SpecTable, Table};
use crate::text::{lemma_occurs_trans, lemma_prefix_occurs, lemma_views_push, occurs_in, owned, views};
use crate::timestamp::Timestamp;

verus! {

/// Represents a database schema definition that can be used to generate migrations
#[derive(Debug)]
pub struct Schema {
    pub name: String,
    pub tables: Vec<Table>,
}

/// The model of a [`Schema`].
pub struct SpecSchema {
    pub name: Seq<char>,
    pub tables: Seq<SpecTable>,
}

impl View for Schema {
    type V = SpecSchema;

    open spec fn view(&self) -> SpecSchema {
        SpecSchema { name: self.name@, tables: views(self.tables@) }
    }
}

impl Clone for Schema {
    fn clone(&self) -> (r: Self)
        ensures
            r@ == self@,
    {
        let tables = self.tables.clone();
        assert(views(tables@) =~= views(self.tables@));
        Schema { name: self.name.clone(), tables }
    }
}

/// One operation that creates each table, in the schema's order.
pub open spec fn create_table_operations(tables: Seq<SpecTable>) -> Seq<SpecOperation> {
    tables.map_values(|t: SpecTable| SpecOperation::CreateTable { table: t })
}

impl Schema {
    /// Create a new schema with the given name
    pub fn new(name: &str) -> (r: Self)
        ensures
            r@ == (SpecSchema { name: name@, tables: Seq::empty() }),
    {
        let r = Schema { name: owned(name), tables: Vec::new() };
        assert(views(r.tables@) =~= Seq::<SpecTable>::empty());
        r
    }

    /// Add a table to the schema
    pub fn add_table(&mut self, table: Table) -> (r: &mut Self)
        ensures
            *final(self) == *final(r),
            r@ == (SpecSchema { tables: old(self)@.tables.push(table@), ..old(self)@ }),
    {
        proof {
            lemma_views_push(self.tables@, table);
        }
        self.tables.push(table);
        self
    }

    /// Operations that create every table of the schema, in order.
    fn create_table_operations(&self) -> (r: Vec<MigrationOperation>)
        ensures
            views(r@) == create_table_operations(self@.tables),
    {
        let mut ops: Vec<MigrationOperation> = Vec::new();
        let mut i: usize = 0;
        while i < self.tables.len()
            invariant
                i <= self.tables.len(),
                views(ops@) =~= create_table_operations(self@.tables).take(i as int),
            decreases self.tables.len() - i,
        {
            let op = MigrationOperation::CreateTable { table: self.tables[i].clone() };
            proof {
                lemma_views_push(ops@, op);
            }
            ops.push(op);
            assert(create_table_operations(self@.tables).take(i + 1) =~= create_table_operations(
                self@.tables,
            ).take(i as int).push(create_table_operations(self@.tables)[i as int]));
            i = i + 1;
        }
        assert(create_table_operations(self@.tables).take(self.tables.len() as int)
            =~= create_table_operations(self@.tables));
        ops
    }

    /// Generate a migration, stamped with `timestamp`, that creates the
    /// current schema: one `CreateTable` operation per table, in order.
    pub fn generate_migration_at(&self, name: &str, timestamp: Timestamp) -> (r: Migration)
        ensures
            r@ == (SpecMigration {
                id: migration_id_of(timestamp@, name@),
                name: name@,
                timestamp: timestamp@,
                schema: self@,
                operations: create_table_operations(self@.tables),
                checksum: None,
                applied: false,
            }),
    {
        let mut m = Migration::new_at(owned(name), self.clone(), timestamp);
        m.operations = self.create_table_operations();
        m
    }

    /// Generate a migration from the current schema state, stamped with the
    /// current time: one `CreateTable` operation per table, in order.
    pub fn generate_migration(&self, name: &str) -> (r: Migration)
        ensures
            r@ == (SpecMigration {
                id: migration_id_of(r@.timestamp, name@),
                name: name@,
                timestamp: r@.timestamp,
                schema: self@,
                operations: create_table_operations(self@.tables),
                checksum: None,
                applied: false,
            }),
    {
        self.generate_migration_at(name, Timestamp::now())
    }
}

/// The script of a migration generated from a schema holds, for every
/// table, the dialect's `CREATE TABLE` output for it.
pub proof fn law_generated_migration_creates_every_table<D: Dialect + ?Sized>(
    dialect: &D,
    s: SpecSchema,
    m: SpecMigration,
    created_at: Seq<char>,
    i: int,
)
    requires
        m.operations == create_table_operations(s.tables),
        0 <= i < s.tables.len(),
    ensures
        occurs_in(dialect.create_table_spec(s.tables[i]), migration_sql(dialect, m, created_at)),
{
    law_migration_script(dialect, m, created_at, i);
    assert(operation_sql(dialect, m.operations[i]) == dialect.create_table_spec(s.tables[i]));
}

/// With PostgreSQL, the script of a migration generated from a schema
/// creates every table (`CREATE TABLE <name> (`) and enables row level
/// security on every table that has it enabled, as every table with a
/// policy has.
pub proof fn law_generated_migration_for_postgres(
    dialect: PostgreSQL,
    s: SpecSchema,
    m: SpecMigration,
    created_at: Seq<char>,
    i: int,
)
    requires
        m.operations == create_table_operations(s.tables),
        0 <= i < s.tables.len(),
    ensures
        occurs_in(
            "CREATE TABLE "@ + qualified_name(dialect.schema@, s.tables[i].name) + " (\n"@,
            migration_sql(&dialect, m, created_at),
        ),
        s.tables[i].rls_enabled ==> occurs_in(
            enable_rls_statement(qualified_name(dialect.schema@, s.tables[i].name)),
            migration_sql(&dialect, m, created_at),
        ),
{
    let t = s.tables[i];
    let script = migration_sql(&dialect, m, created_at);
    let table_sql = dialect.create_table_spec(t);
    law_generated_migration_creates_every_table(&dialect, s, m, created_at, i);
    law_create_table_defines_everything(dialect.schema@, t, -1, -1);
    let head = "CREATE TABLE "@ + qualified_name(dialect.schema@, t.name) + " (\n"@;
    lemma_prefix_occurs(head, table_sql);
    lemma_occurs_trans(head, table_sql, script);
    law_create_table_rls(dialect.schema@, t, -1);
    if t.rls_enabled {
        lemma_occurs_trans(
            enable_rls_statement(qualified_name(dialect.schema@, t.name)),
            table_sql,
            script,
        );
    }
}

} // verus!

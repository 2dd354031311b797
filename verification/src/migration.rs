//! Migrations: the operations they perform, the SQL script they become,
//! plans that collect operations, and a manager tied to one dialect.
use vstd::prelude::*;
use crate::dialect::{
    lemma_public_is_unqualified, lemma_same_qualification, qualified_name, Dialect, PostgreSQL,
};
use crate::rls::{Policy, SpecPolicy};
use crate::schema::{
    Column, Constraint, DataType, SpecColumn, SpecConstraint, SpecDataType, SpecTable, Table,
};
use crate::text::{
    clone_opt_string, concat, hex_fixed, hex_fixed_string, lemma_concat_push, lemma_occurs_append,
    lemma_occurs_in_concat, lemma_occurs_middle, lemma_occurs_suffix, lemma_occurs_trans, lemma_views_push, occurs_in,
    opt_string_view, owned, views, wrap_opt,
};
use crate::timestamp::{chrono_compact_stamp, chrono_display, chrono_rfc3339, Timestamp};
use crate::{Schema, SpecSchema};
use std::collections::HashMap;
use std::collections::hash_map::DefaultHasher;
use std::hash::{Hash, Hasher};
use std::path::PathBuf;
use vstd::std_specs::hash::DefaultHasherAdditionalSpecFns;

verus! {

broadcast use vstd::string::group_string_axioms;

/// A change to a column
#[derive(Debug)]
pub enum ColumnChange {
    /// Change data type
    SetDataType(DataType),
    /// Set NOT NULL constraint
    SetNotNull,
    /// Drop NOT NULL constraint
    DropNotNull,
    /// Set default value
    SetDefault(String),
    /// Drop default value
    DropDefault,
}

/// A change to a table structure
#[derive(Debug)]
pub enum TableChange {
    /// Add a column
    AddColumn(Column),
    /// Drop a column
    DropColumn { name: String, cascade: bool },
    /// Alter a column
    AlterColumn { name: String, change: ColumnChange },
    /// Add a constraint
    AddConstraint(Constraint),
    /// Drop a constraint
    DropConstraint { name: String, cascade: bool },
    /// Rename table
    RenameTable { new_name: String },
    /// Rename column
    RenameColumn { old_name: String, new_name: String },
}

/// A database migration operation
#[derive(Debug)]
pub enum MigrationOperation {
    /// Create a new table
    CreateTable { table: Table },
    /// Alter an existing table
    AlterTable { table: String, changes: Vec<TableChange> },
    /// Drop a table
    DropTable { table: String, cascade: bool },
    /// Create an RLS policy
    CreateRLSPolicy { table: String, policy: Policy },
    /// Drop an RLS policy
    DropRLSPolicy { table: String, policy: String },
    /// Enable RLS on a table
    EnableRLS { table: String, force: bool },
    /// Disable RLS on a table
    DisableRLS { table: String },
    /// Execute raw SQL
    RawSQL { sql: String, description: Option<String> },
}

/// The model of a [`ColumnChange`].
pub enum SpecColumnChange {
    SetDataType(SpecDataType),
    SetNotNull,
    DropNotNull,
    SetDefault(Seq<char>),
    DropDefault,
}

/// The model of a [`TableChange`].
#[allow(inconsistent_fields)]
pub enum SpecTableChange {
    AddColumn(SpecColumn),
    DropColumn { name: Seq<char>, cascade: bool },
    AlterColumn { name: Seq<char>, change: SpecColumnChange },
    AddConstraint(SpecConstraint),
    DropConstraint { name: Seq<char>, cascade: bool },
    RenameTable { new_name: Seq<char> },
    RenameColumn { old_name: Seq<char>, new_name: Seq<char> },
}

/// The model of a [`MigrationOperation`].
#[allow(inconsistent_fields)]
pub enum SpecOperation {
    CreateTable { table: SpecTable },
    AlterTable { table: Seq<char>, changes: Seq<SpecTableChange> },
    DropTable { table: Seq<char>, cascade: bool },
    CreateRLSPolicy { table: Seq<char>, policy: SpecPolicy },
    DropRLSPolicy { table: Seq<char>, policy: Seq<char> },
    EnableRLS { table: Seq<char>, force: bool },
    DisableRLS { table: Seq<char> },
    RawSQL { sql: Seq<char>, description: Option<Seq<char>> },
}

impl View for ColumnChange {
    type V = SpecColumnChange;

    open spec fn view(&self) -> SpecColumnChange {
        match self {
            ColumnChange::SetDataType(d) => SpecColumnChange::SetDataType(d@),
            ColumnChange::SetNotNull => SpecColumnChange::SetNotNull,
            ColumnChange::DropNotNull => SpecColumnChange::DropNotNull,
            ColumnChange::SetDefault(v) => SpecColumnChange::SetDefault(v@),
            ColumnChange::DropDefault => SpecColumnChange::DropDefault,
        }
    }
}

impl View for TableChange {
    type V = SpecTableChange;

    open spec fn view(&self) -> SpecTableChange {
        match self {
            TableChange::AddColumn(c) => SpecTableChange::AddColumn(c@),
            TableChange::DropColumn { name, cascade } => SpecTableChange::DropColumn {
                name: name@,
                cascade: *cascade,
            },
            TableChange::AlterColumn { name, change } => SpecTableChange::AlterColumn {
                name: name@,
                change: change@,
            },
            TableChange::AddConstraint(k) => SpecTableChange::AddConstraint(k@),
            TableChange::DropConstraint { name, cascade } => SpecTableChange::DropConstraint {
                name: name@,
                cascade: *cascade,
            },
            TableChange::RenameTable { new_name } => SpecTableChange::RenameTable {
                new_name: new_name@,
            },
            TableChange::RenameColumn { old_name, new_name } => SpecTableChange::RenameColumn {
                old_name: old_name@,
                new_name: new_name@,
            },
        }
    }
}

impl View for MigrationOperation {
    type V = SpecOperation;

    open spec fn view(&self) -> SpecOperation {
        match self {
            MigrationOperation::CreateTable { table } => SpecOperation::CreateTable { table: table@ },
            MigrationOperation::AlterTable { table, changes } => SpecOperation::AlterTable {
                table: table@,
                changes: views(changes@),
            },
            MigrationOperation::DropTable { table, cascade } => SpecOperation::DropTable {
                table: table@,
                cascade: *cascade,
            },
            MigrationOperation::CreateRLSPolicy { table, policy } => SpecOperation::CreateRLSPolicy {
                table: table@,
                policy: policy@,
            },
            MigrationOperation::DropRLSPolicy { table, policy } => SpecOperation::DropRLSPolicy {
                table: table@,
                policy: policy@,
            },
            MigrationOperation::EnableRLS { table, force } => SpecOperation::EnableRLS {
                table: table@,
                force: *force,
            },
            MigrationOperation::DisableRLS { table } => SpecOperation::DisableRLS { table: table@ },
            MigrationOperation::RawSQL { sql, description } => SpecOperation::RawSQL {
                sql: sql@,
                description: opt_string_view(*description),
            },
        }
    }
}

impl Clone for ColumnChange {
    fn clone(&self) -> (r: Self)
        ensures
            r@ == self@,
    {
        match self {
            ColumnChange::SetDataType(d) => ColumnChange::SetDataType(d.clone()),
            ColumnChange::SetNotNull => ColumnChange::SetNotNull,
            ColumnChange::DropNotNull => ColumnChange::DropNotNull,
            ColumnChange::SetDefault(v) => ColumnChange::SetDefault(v.clone()),
            ColumnChange::DropDefault => ColumnChange::DropDefault,
        }
    }
}

impl Clone for TableChange {
    fn clone(&self) -> (r: Self)
        ensures
            r@ == self@,
    {
        match self {
            TableChange::AddColumn(c) => TableChange::AddColumn(c.clone()),
            TableChange::DropColumn { name, cascade } => TableChange::DropColumn {
                name: name.clone(),
                cascade: *cascade,
            },
            TableChange::AlterColumn { name, change } => TableChange::AlterColumn {
                name: name.clone(),
                change: change.clone(),
            },
            TableChange::AddConstraint(k) => TableChange::AddConstraint(k.clone()),
            TableChange::DropConstraint { name, cascade } => TableChange::DropConstraint {
                name: name.clone(),
                cascade: *cascade,
            },
            TableChange::RenameTable { new_name } => TableChange::RenameTable {
                new_name: new_name.clone(),
            },
            TableChange::RenameColumn { old_name, new_name } => TableChange::RenameColumn {
                old_name: old_name.clone(),
                new_name: new_name.clone(),
            },
        }
    }
}

impl Clone for MigrationOperation {
    fn clone(&self) -> (r: Self)
        ensures
            r@ == self@,
    {
        match self {
            MigrationOperation::CreateTable { table } => MigrationOperation::CreateTable {
                table: table.clone(),
            },
            MigrationOperation::AlterTable { table, changes } => {
                let c = changes.clone();
                assert(views(c@) =~= views(changes@));
                MigrationOperation::AlterTable { table: table.clone(), changes: c }
            },
            MigrationOperation::DropTable { table, cascade } => MigrationOperation::DropTable {
                table: table.clone(),
                cascade: *cascade,
            },
            MigrationOperation::CreateRLSPolicy { table, policy } => MigrationOperation::CreateRLSPolicy {
                table: table.clone(),
                policy: policy.clone(),
            },
            MigrationOperation::DropRLSPolicy { table, policy } => MigrationOperation::DropRLSPolicy {
                table: table.clone(),
                policy: policy.clone(),
            },
            MigrationOperation::EnableRLS { table, force } => MigrationOperation::EnableRLS {
                table: table.clone(),
                force: *force,
            },
            MigrationOperation::DisableRLS { table } => MigrationOperation::DisableRLS {
                table: table.clone(),
            },
            MigrationOperation::RawSQL { sql, description } => MigrationOperation::RawSQL {
                sql: sql.clone(),
                description: clone_opt_string(description),
            },
        }
    }
}

/// The SQL that `dialect` generates for operation `op`.
pub open spec fn operation_sql<D: Dialect + ?Sized>(dialect: &D, op: SpecOperation) -> Seq<char> {
    match op {
        SpecOperation::CreateTable { table } => dialect.create_table_spec(table),
        SpecOperation::AlterTable { table, changes } => dialect.alter_table_spec(table, changes),
        SpecOperation::DropTable { table, cascade } => dialect.drop_table_spec(table, cascade),
        SpecOperation::CreateRLSPolicy { table, policy } => dialect.create_rls_policy_spec(
            table,
            policy,
        ),
        SpecOperation::DropRLSPolicy { table, policy } => dialect.drop_rls_policy_spec(
            table,
            policy,
        ),
        SpecOperation::EnableRLS { table, force } => dialect.enable_rls_spec(table, force),
        SpecOperation::DisableRLS { table } => dialect.disable_rls_spec(table),
        SpecOperation::RawSQL { sql, description } => wrap_opt("-- "@, description, "\n"@) + sql,
    }
}

impl MigrationOperation {
    /// Generate SQL for this operation using the provided dialect
    pub fn to_sql<D: Dialect + ?Sized>(&self, dialect: &D) -> (r: String)
        ensures
            r@ == operation_sql(dialect, self@),
    {
        match self {
            MigrationOperation::CreateTable { table } => dialect.create_table(table),
            MigrationOperation::AlterTable { table, changes } => dialect.alter_table(
                table.as_str(),
                changes.as_slice(),
            ),
            MigrationOperation::DropTable { table, cascade } => dialect.drop_table(
                table.as_str(),
                *cascade,
            ),
            MigrationOperation::CreateRLSPolicy { table, policy } => dialect.create_rls_policy(
                table.as_str(),
                policy,
            ),
            MigrationOperation::DropRLSPolicy { table, policy } => dialect.drop_rls_policy(
                table.as_str(),
                policy.as_str(),
            ),
            MigrationOperation::EnableRLS { table, force } => dialect.enable_rls(
                table.as_str(),
                *force,
            ),
            MigrationOperation::DisableRLS { table } => dialect.disable_rls(table.as_str()),
            MigrationOperation::RawSQL { sql, description } => {
                let mut result = String::new();
                match description {
                    Some(desc) => {
                        result.append("-- ");
                        result.append(desc.as_str());
                        result.append("\n");
                    },
                    None => {},
                }
                result.append(sql.as_str());
                result
            },
        }
    }
}

/// A database migration
#[derive(Debug)]
pub struct Migration {
    pub id: String,
    pub name: String,
    pub timestamp: Timestamp,
    pub schema: Schema,
    pub operations: Vec<MigrationOperation>,
    pub checksum: Option<String>,
    pub applied: bool,
}

/// The model of a [`Migration`].
pub struct SpecMigration {
    pub id: Seq<char>,
    pub name: Seq<char>,
    pub timestamp: (i64, u32),
    pub schema: SpecSchema,
    pub operations: Seq<SpecOperation>,
    pub checksum: Option<Seq<char>>,
    pub applied: bool,
}

impl View for Migration {
    type V = SpecMigration;

    open spec fn view(&self) -> SpecMigration {
        SpecMigration {
            id: self.id@,
            name: self.name@,
            timestamp: self.timestamp@,
            schema: self.schema@,
            operations: views(self.operations@),
            checksum: opt_string_view(self.checksum),
            applied: self.applied,
        }
    }
}

/// An operation's SQL followed by a blank line.
pub open spec fn operation_block<D: Dialect + ?Sized>(dialect: &D, op: SpecOperation) -> Seq<char> {
    operation_sql(dialect, op) + "\n\n"@
}

/// The SQL script of migration `m`, created at the instant that reads
/// `created_at`: a header, then in one transaction every operation and the
/// row that records the migration.
pub open spec fn migration_sql<D: Dialect + ?Sized>(
    dialect: &D,
    m: SpecMigration,
    created_at: Seq<char>,
) -> Seq<char> {
    "-- Migration: "@ + m.id + "\n"@ + "-- Created at: "@ + created_at + "\n\n"@ + "BEGIN;\n\n"@
        + concat(m.operations.map_values(|op: SpecOperation| operation_block(dialect, op)))
        + "INSERT INTO _kohori_migrations (id, name, applied_at) VALUES ('"@ + m.id + "', '"@
        + m.name + "', CURRENT_TIMESTAMP);\n\n"@ + "COMMIT;\n"@
}

/// A migration's identifier: its compact timestamp, `_`, its name.
pub open spec fn migration_id_of(timestamp: (i64, u32), name: Seq<char>) -> Seq<char> {
    chrono_compact_stamp(timestamp.0, timestamp.1) + "_"@ + name
}

/// The name of the file a migration is written to: its compact timestamp,
/// `_`, its name, `.sql`.
pub open spec fn migration_file_name_of(m: SpecMigration) -> Seq<char> {
    chrono_compact_stamp(m.timestamp.0, m.timestamp.1) + "_"@ + (m.name + ".sql"@)
}

/// serde_json's serialization of a string (a quoted, escaped JSON string).
pub uninterp spec fn json_string(s: Seq<char>) -> Seq<char>;

/// The JSON object whose checksum is taken: the migration's name, its
/// operations and its timestamp, under keys in that (sorted) order.
pub open spec fn checksum_payload_text(
    name_json: Seq<char>,
    operations_json: Seq<char>,
    timestamp_json: Seq<char>,
) -> Seq<char> {
    "{\"name\":"@ + name_json + ",\"operations\":"@ + operations_json + ",\"timestamp\":"@
        + timestamp_json + "}"@
}

/// A migration identifier: the compact timestamp, `_`, the name.
pub fn migration_id(stamp: &str, name: &str) -> (r: String)
    ensures
        r@ == stamp@ + "_"@ + name@,
{
    let mut s = owned(stamp);
    s.append("_");
    s.append(name);
    s
}

/// A migration's file name: the compact timestamp, `_`, the name, `.sql`.
pub fn migration_file_name(stamp: &str, name: &str) -> (r: String)
    ensures
        r@ == stamp@ + "_"@ + name@ + ".sql"@,
{
    let mut s = migration_id(stamp, name);
    s.append(".sql");
    s
}

/// The checksummed JSON object, from its already serialized parts.
pub fn checksum_payload(name_json: &str, operations_json: &str, timestamp_json: &str) -> (r: String)
    ensures
        r@ == checksum_payload_text(name_json@, operations_json@, timestamp_json@),
{
    let mut s = owned("{\"name\":");
    s.append(name_json);
    s.append(",\"operations\":");
    s.append(operations_json);
    s.append(",\"timestamp\":");
    s.append(timestamp_json);
    s.append("}");
    s
}

/// A checksum's text: the hash as sixteen lower-case hexadecimal digits.
pub fn checksum_text(hash: u64) -> (r: String)
    ensures
        r@ == hex_fixed(hash as nat, 16),
{
    hex_fixed_string(hash, 16)
}

/// Calls `serde_json::to_string` on a string slice; its result is named by
/// `json_string`. Serializing a `str` into memory does not fail, so the
/// fallback of `unwrap_or_default` is never taken.
#[verifier::external_body]
fn json_quote(s: &str) -> (r: String)
    ensures
        r@ == json_string(s@),
{
    serde_json::to_string(s).unwrap_or_default()
}

/// What `Hash::hash` for `str` writes into a `DefaultHasher`, as the writes
/// that vstd's model of the hasher records (the text's bytes, then a
/// terminating byte); it depends on the text alone.
pub uninterp spec fn str_hash_writes(text: Seq<char>) -> Seq<Seq<u8>>;

/// Calls `Hash::hash` for `str` with the hasher: the writes named by
/// `str_hash_writes` are appended to those the hasher had received.
#[verifier::external_body]
fn hash_text(hasher: &mut DefaultHasher, text: &str)
    ensures
        final(hasher)@ == old(hasher)@ + str_hash_writes(text@),
{
    text.hash(hasher);
}

/// The checksum of a migration with this name and timestamp whose
/// operations serialize to `operations_json`: the `DefaultHasher` hash of
/// the checksummed JSON object, as sixteen hexadecimal digits.
pub open spec fn migration_checksum(
    name: Seq<char>,
    timestamp: (i64, u32),
    operations_json: Seq<char>,
) -> Seq<char> {
    let payload = checksum_payload_text(
        json_string(name),
        operations_json,
        json_string(chrono_rfc3339(timestamp.0, timestamp.1)),
    );
    hex_fixed(DefaultHasher::spec_finish(str_hash_writes(payload)) as nat, 16)
}

impl Clone for Migration {
    fn clone(&self) -> (r: Self)
        ensures
            r@ == self@,
    {
        let operations = self.operations.clone();
        assert(views(operations@) =~= views(self.operations@));
        Migration {
            id: self.id.clone(),
            name: self.name.clone(),
            timestamp: self.timestamp,
            schema: self.schema.clone(),
            operations,
            checksum: clone_opt_string(&self.checksum),
            applied: self.applied,
        }
    }
}

impl Migration {
    /// Create a new migration for the given schema, stamped with `timestamp`
    pub fn new_at(name: String, schema: Schema, timestamp: Timestamp) -> (r: Self)
        ensures
            r@ == (SpecMigration {
                id: migration_id_of(timestamp@, name@),
                name: name@,
                timestamp: timestamp@,
                schema: schema@,
                operations: Seq::empty(),
                checksum: None,
                applied: false,
            }),
    {
        let stamp = timestamp.compact_stamp();
        let id = migration_id(stamp.as_str(), name.as_str());
        let r = Migration {
            id,
            name,
            timestamp,
            schema,
            operations: Vec::new(),
            checksum: None,
            applied: false,
        };
        assert(views(r.operations@) =~= Seq::<SpecOperation>::empty());
        r
    }

    /// Create a new migration for the given schema, stamped with the current time
    pub fn new(name: String, schema: Schema) -> (r: Self)
        ensures
            r@ == (SpecMigration {
                id: migration_id_of(r@.timestamp, name@),
                name: name@,
                timestamp: r@.timestamp,
                schema: schema@,
                operations: Seq::empty(),
                checksum: None,
                applied: false,
            }),
            0 <= r@.timestamp.0,
    {
        Migration::new_at(name, schema, Timestamp::now())
    }

    /// Add a migration operation
    pub fn add_operation(&mut self, operation: MigrationOperation) -> (r: &mut Self)
        ensures
            *final(self) == *final(r),
            r@ == (SpecMigration {
                operations: old(self)@.operations.push(operation@),
                ..old(self)@
            }),
    {
        proof {
            lemma_views_push(self.operations@, operation);
        }
        self.operations.push(operation);
        self
    }

    /// The SQL script of this migration for `dialect`, with `created_at` as
    /// the creation time written in its header.
    pub fn render_sql<D: Dialect + ?Sized>(&self, dialect: &D, created_at: &str) -> (r: String)
        ensures
            r@ == migration_sql(dialect, self@, created_at@),
    {
        let ghost items = self@.operations.map_values(
            |op: SpecOperation| operation_block(dialect, op),
        );
        let mut sql = owned("-- Migration: ");
        sql.append(self.id.as_str());
        sql.append("\n");
        sql.append("-- Created at: ");
        sql.append(created_at);
        sql.append("\n\n");
        sql.append("BEGIN;\n\n");
        let ghost head = sql@;
        let mut body = String::new();
        let mut i: usize = 0;
        while i < self.operations.len()
            invariant
                i <= self.operations.len(),
                items == self@.operations.map_values(
                    |op: SpecOperation| operation_block(dialect, op),
                ),
                body@ == concat(items.take(i as int)),
            decreases self.operations.len() - i,
        {
            let ghost prev = body@;
            let stmt = self.operations[i].to_sql(dialect);
            body.append(stmt.as_str());
            body.append("\n\n");
            proof {
                assert(body@ =~= prev + items[i as int]);
                lemma_concat_push(items.take(i as int), items[i as int]);
                assert(items.take(i + 1) =~= items.take(i as int).push(items[i as int]));
            }
            i = i + 1;
        }
        assert(items.take(self.operations.len() as int) =~= items);
        sql.append(body.as_str());
        sql.append("INSERT INTO _kohori_migrations (id, name, applied_at) VALUES ('");
        sql.append(self.id.as_str());
        sql.append("', '");
        sql.append(self.name.as_str());
        sql.append("', CURRENT_TIMESTAMP);\n\n");
        sql.append("COMMIT;\n");
        assert(sql@ =~= migration_sql(dialect, self@, created_at@));
        sql
    }

    /// Generate SQL for this migration using the provided dialect
    pub fn to_sql<D: Dialect + ?Sized>(&self, dialect: &D) -> (r: String)
        ensures
            r@ == migration_sql(
                dialect,
                self@,
                chrono_display(self@.timestamp.0, self@.timestamp.1),
            ),
    {
        let created_at = self.timestamp.display();
        self.render_sql(dialect, created_at.as_str())
    }

    /// The name of the file this migration is written to
    pub fn file_name(&self) -> (r: String)
        ensures
            r@ == migration_file_name_of(self@),
    {
        let stamp = self.timestamp.compact_stamp();
        migration_file_name(stamp.as_str(), self.name.as_str())
    }

    /// Compute a checksum for this migration and record it. The checksum
    /// covers the JSON object of the migration's name, its operations and its
    /// RFC 3339 timestamp; `operations_json` is the operations as serde_json
    /// serializes them (through `serde_json::Value`).
    pub fn compute_checksum(&mut self, operations_json: &str) -> (r: String)
        ensures
            r@ == migration_checksum(old(self)@.name, old(self)@.timestamp, operations_json@),
            final(self)@ == (SpecMigration { checksum: Some(r@), ..old(self)@ }),
    {
        let name_json = json_quote(self.name.as_str());
        let stamp = self.timestamp.rfc3339();
        let stamp_json = json_quote(stamp.as_str());
        let payload = checksum_payload(name_json.as_str(), operations_json, stamp_json.as_str());
        let mut hasher = DefaultHasher::new();
        hash_text(&mut hasher, payload.as_str());
        assert(hasher@ =~= str_hash_writes(payload@));
        let hash = hasher.finish();
        let checksum = checksum_text(hash);
        self.checksum = Some(checksum.clone());
        checksum
    }
}

/// A migration's script opens with its identifier, its creation time and
/// `BEGIN;`, ends with `COMMIT;`, and holds the SQL of every operation.
pub proof fn law_migration_script<D: Dialect + ?Sized>(
    dialect: &D,
    m: SpecMigration,
    created_at: Seq<char>,
    i: int,
)
    ensures
        ("-- Migration: "@ + m.id + "\n"@ + "-- Created at: "@ + created_at + "\n\n"@
            + "BEGIN;\n\n"@).is_prefix_of(migration_sql(dialect, m, created_at)),
        "COMMIT;\n"@.is_suffix_of(migration_sql(dialect, m, created_at)),
        0 <= i < m.operations.len() ==> occurs_in(
            operation_sql(dialect, m.operations[i]),
            migration_sql(dialect, m, created_at),
        ),
{
    let head = "-- Migration: "@ + m.id + "\n"@ + "-- Created at: "@ + created_at + "\n\n"@
        + "BEGIN;\n\n"@;
    let blocks = m.operations.map_values(|op: SpecOperation| operation_block(dialect, op));
    let body = concat(blocks);
    let tail = "INSERT INTO _kohori_migrations (id, name, applied_at) VALUES ('"@ + m.id + "', '"@
        + m.name + "', CURRENT_TIMESTAMP);\n\n"@;
    let sql = migration_sql(dialect, m, created_at);
    assert(sql =~= head + body + tail + "COMMIT;\n"@);
    assert(sql.subrange(0, head.len() as int) =~= head);
    assert(sql.subrange(sql.len() - "COMMIT;\n"@.len(), sql.len() as int) =~= "COMMIT;\n"@);
    if 0 <= i < m.operations.len() {
        let op_sql = operation_sql(dialect, m.operations[i]);
        lemma_occurs_suffix(Seq::empty(), op_sql);
        assert(Seq::<char>::empty() + op_sql =~= op_sql);
        lemma_occurs_append(op_sql, op_sql, "\n\n"@);
        lemma_occurs_in_concat(blocks, i);
        lemma_occurs_trans(op_sql, blocks[i], body);
        lemma_occurs_suffix(head, body);
        lemma_occurs_trans(op_sql, body, head + body);
        lemma_occurs_append(op_sql, head + body, tail);
        lemma_occurs_append(op_sql, head + body + tail, "COMMIT;\n"@);
    }
}

/// A PostgreSQL dialect with an empty schema name and one for schema
/// `public` (the default) write the same SQL for every operation.
pub proof fn law_public_schema_is_default(a: PostgreSQL, b: PostgreSQL, op: SpecOperation)
    requires
        a.schema@ == Seq::<char>::empty(),
        b.schema@ == "public"@,
    ensures
        operation_sql(&a, op) == operation_sql(&b, op),
{
    assert forall|x: Seq<char>| #[trigger] qualified_name(a.schema@, x) == qualified_name(
        b.schema@,
        x,
    ) by {
        lemma_public_is_unqualified(x);
    }
    match op {
        SpecOperation::CreateTable { table } => {
            lemma_same_qualification(a.schema@, b.schema@, table, Seq::empty(), Seq::empty());
        },
        SpecOperation::AlterTable { table, changes } => {
            lemma_same_qualification(
                a.schema@,
                b.schema@,
                SpecTable {
                    name: Seq::empty(),
                    columns: Seq::empty(),
                    constraints: Seq::empty(),
                    indexes: Seq::empty(),
                    rls_enabled: false,
                    rls_policies: Seq::empty(),
                    comment: None,
                },
                table,
                changes,
            );
        },
        SpecOperation::DropTable { table, cascade } => {
            assert(qualified_name(a.schema@, table) == qualified_name(b.schema@, table));
        },
        SpecOperation::CreateRLSPolicy { table, policy } => {
            assert(qualified_name(a.schema@, table) == qualified_name(b.schema@, table));
        },
        SpecOperation::DropRLSPolicy { table, policy } => {
            assert(qualified_name(a.schema@, table) == qualified_name(b.schema@, table));
        },
        SpecOperation::EnableRLS { table, force } => {
            assert(qualified_name(a.schema@, table) == qualified_name(b.schema@, table));
        },
        SpecOperation::DisableRLS { table } => {
            assert(qualified_name(a.schema@, table) == qualified_name(b.schema@, table));
        },
        SpecOperation::RawSQL { .. } => {},
    }
}

/// A migration whose identifier is the one that `new`, `new_at` and the
/// generators give it is written to the file named by that identifier and
/// `.sql`.
pub proof fn law_file_name_is_id(m: SpecMigration)
    requires
        m.id == migration_id_of(m.timestamp, m.name),
    ensures
        migration_file_name_of(m) == m.id + ".sql"@,
{
    assert(migration_file_name_of(m) =~= m.id + ".sql"@);
}

/// A checksum depends on the migration's name, its timestamp and its
/// operations alone: migrations that agree on them get the same checksum,
/// whatever their identifiers, schemas or earlier checksums; so computing
/// again the checksum that a plan recorded gives that checksum.
pub proof fn law_checksum_is_determined(
    m1: SpecMigration,
    m2: SpecMigration,
    operations_json: Seq<char>,
)
    requires
        m1.name == m2.name,
        m1.timestamp == m2.timestamp,
        m1.operations == m2.operations,
        m1.checksum == Some(migration_checksum(m1.name, m1.timestamp, operations_json)),
    ensures
        migration_checksum(m2.name, m2.timestamp, operations_json) == m1.checksum.unwrap(),
{
}

/// A checksum is sixteen lower-case hexadecimal digits.
pub proof fn law_checksum_shape(name: Seq<char>, timestamp: (i64, u32), operations_json: Seq<char>)
    ensures
        migration_checksum(name, timestamp, operations_json).len() == 16,
        forall|i: int|
            0 <= i < 16 ==> ('0' <= #[trigger] migration_checksum(name, timestamp, operations_json)[i]
                <= '9' || 'a' <= migration_checksum(name, timestamp, operations_json)[i] <= 'f'),
{
    let payload = checksum_payload_text(
        json_string(name),
        operations_json,
        json_string(chrono_rfc3339(timestamp.0, timestamp.1)),
    );
    crate::text::law_hex_fixed_shape(DefaultHasher::spec_finish(str_hash_writes(payload)) as nat, 16);
}

/// Whether one of `tables` is named `name`.
pub open spec fn has_table_named(tables: Seq<SpecTable>, name: Seq<char>) -> bool {
    exists|i: int| 0 <= i < tables.len() && #[trigger] tables[i].name == name
}

/// A `CreateTable` for each table of `to` that `from` has no table of the
/// same name for, in `to`'s order.
pub open spec fn created_tables(from: Seq<SpecTable>, to: Seq<SpecTable>) -> Seq<SpecOperation>
    decreases to.len(),
{
    if to.len() == 0 {
        Seq::empty()
    } else {
        let prev = created_tables(from, to.drop_last());
        if has_table_named(from, to.last().name) {
            prev
        } else {
            prev.push(SpecOperation::CreateTable { table: to.last() })
        }
    }
}

/// A `DropTable` (without `CASCADE`) for each table of `from` that `to` has
/// no table of the same name for, in `from`'s order.
pub open spec fn dropped_tables(to: Seq<SpecTable>, from: Seq<SpecTable>) -> Seq<SpecOperation>
    decreases from.len(),
{
    if from.len() == 0 {
        Seq::empty()
    } else {
        let prev = dropped_tables(to, from.drop_last());
        if has_table_named(to, from.last().name) {
            prev
        } else {
            prev.push(SpecOperation::DropTable { table: from.last().name, cascade: false })
        }
    }
}

/// The operations that take a schema with tables `from` to one with tables
/// `to`: the tables to create, then the tables to drop.
pub open spec fn schema_diff(from: Seq<SpecTable>, to: Seq<SpecTable>) -> Seq<SpecOperation> {
    created_tables(from, to) + dropped_tables(to, from)
}

/// Tables that all have a namesake in `from` need no `CreateTable`.
proof fn lemma_created_none(from: Seq<SpecTable>, to: Seq<SpecTable>)
    requires
        forall|k: int| 0 <= k < to.len() ==> has_table_named(from, #[trigger] to[k].name),
    ensures
        created_tables(from, to) == Seq::<SpecOperation>::empty(),
    decreases to.len(),
{
    if to.len() > 0 {
        let rest = to.drop_last();
        assert forall|k: int| 0 <= k < rest.len() implies has_table_named(from, #[trigger] rest[k].name) by {
            assert(rest[k] == to[k]);
        }
        lemma_created_none(from, rest);
        assert(has_table_named(from, to[to.len() - 1].name));
    }
}

/// Tables that all have a namesake in `to` need no `DropTable`.
proof fn lemma_dropped_none(to: Seq<SpecTable>, from: Seq<SpecTable>)
    requires
        forall|k: int| 0 <= k < from.len() ==> has_table_named(to, #[trigger] from[k].name),
    ensures
        dropped_tables(to, from) == Seq::<SpecOperation>::empty(),
    decreases from.len(),
{
    if from.len() > 0 {
        let rest = from.drop_last();
        assert forall|k: int| 0 <= k < rest.len() implies has_table_named(to, #[trigger] rest[k].name) by {
            assert(rest[k] == from[k]);
        }
        lemma_dropped_none(to, rest);
        assert(has_table_named(to, from[from.len() - 1].name));
    }
}

/// A table of `to` without a namesake in `from` gets its `CreateTable`.
proof fn lemma_created_contains(from: Seq<SpecTable>, to: Seq<SpecTable>, i: int)
    requires
        0 <= i < to.len(),
        !has_table_named(from, to[i].name),
    ensures
        created_tables(from, to).contains(SpecOperation::CreateTable { table: to[i] }),
    decreases to.len(),
{
    let op = SpecOperation::CreateTable { table: to[i] };
    let prev = created_tables(from, to.drop_last());
    if i == to.len() - 1 {
        assert(prev.push(op)[prev.len() as int] == op);
    } else {
        assert(to.drop_last()[i] == to[i]);
        lemma_created_contains(from, to.drop_last(), i);
        let k = choose|k: int| 0 <= k < prev.len() && prev[k] == op;
        if !has_table_named(from, to.last().name) {
            assert(prev.push(SpecOperation::CreateTable { table: to.last() })[k] == op);
        }
    }
}

/// A table of `from` without a namesake in `to` gets its `DropTable`.
proof fn lemma_dropped_contains(to: Seq<SpecTable>, from: Seq<SpecTable>, j: int)
    requires
        0 <= j < from.len(),
        !has_table_named(to, from[j].name),
    ensures
        dropped_tables(to, from).contains(SpecOperation::DropTable { table: from[j].name, cascade: false }),
    decreases from.len(),
{
    let op = SpecOperation::DropTable { table: from[j].name, cascade: false };
    let prev = dropped_tables(to, from.drop_last());
    if j == from.len() - 1 {
        assert(prev.push(op)[prev.len() as int] == op);
    } else {
        assert(from.drop_last()[j] == from[j]);
        lemma_dropped_contains(to, from.drop_last(), j);
        let k = choose|k: int| 0 <= k < prev.len() && prev[k] == op;
        if !has_table_named(to, from.last().name) {
            assert(prev.push(SpecOperation::DropTable { table: from.last().name, cascade: false })[k] == op);
        }
    }
}

/// Diffing a schema against one with the same tables gives no operation;
/// a table only in the target schema is created, and a table only in the
/// source schema is dropped.
pub proof fn law_schema_diff(from: Seq<SpecTable>, to: Seq<SpecTable>, i: int, j: int)
    ensures
        from == to ==> schema_diff(from, to).len() == 0,
        0 <= i < to.len() && !has_table_named(from, to[i].name) ==> schema_diff(from, to).contains(
            SpecOperation::CreateTable { table: to[i] },
        ),
        0 <= j < from.len() && !has_table_named(to, from[j].name) ==> schema_diff(from, to).contains(
            SpecOperation::DropTable { table: from[j].name, cascade: false },
        ),
{
    let created = created_tables(from, to);
    let dropped = dropped_tables(to, from);
    if from == to {
        assert forall|k: int| 0 <= k < to.len() implies has_table_named(from, #[trigger] to[k].name) by {
            assert(from[k].name == to[k].name);
        }
        lemma_created_none(from, to);
        lemma_dropped_none(to, from);
        assert(schema_diff(from, to) =~= Seq::<SpecOperation>::empty());
    }
    if 0 <= i < to.len() && !has_table_named(from, to[i].name) {
        let op = SpecOperation::CreateTable { table: to[i] };
        lemma_created_contains(from, to, i);
        let k = choose|k: int| 0 <= k < created.len() && created[k] == op;
        assert((created + dropped)[k] == op);
    }
    if 0 <= j < from.len() && !has_table_named(to, from[j].name) {
        let op = SpecOperation::DropTable { table: from[j].name, cascade: false };
        lemma_dropped_contains(to, from, j);
        let k = choose|k: int| 0 <= k < dropped.len() && dropped[k] == op;
        assert((created + dropped)[created.len() + k] == op);
    }
}

/// Whether one of `tables` is named `name`.
fn has_table_named_exec(tables: &Vec<Table>, name: &String) -> (r: bool)
    ensures
        r == has_table_named(views(tables@), name@),
{
    let mut i: usize = 0;
    while i < tables.len()
        invariant
            i <= tables.len(),
            forall|k: int| 0 <= k < i ==> #[trigger] views(tables@)[k].name != name@,
        decreases tables.len() - i,
    {
        if tables[i].name == *name {
            assert(views(tables@)[i as int].name == name@);
            return true;
        }
        i = i + 1;
    }
    false
}

/// A migration plan
#[derive(Debug)]
pub struct MigrationPlan {
    pub name: String,
    pub operations: Vec<MigrationOperation>,
}

/// The model of a [`MigrationPlan`].
pub struct SpecMigrationPlan {
    pub name: Seq<char>,
    pub operations: Seq<SpecOperation>,
}

impl View for MigrationPlan {
    type V = SpecMigrationPlan;

    open spec fn view(&self) -> SpecMigrationPlan {
        SpecMigrationPlan { name: self.name@, operations: views(self.operations@) }
    }
}

impl MigrationPlan {
    /// Create a new migration plan
    pub fn new(name: &str) -> (r: Self)
        ensures
            r@ == (SpecMigrationPlan { name: name@, operations: Seq::empty() }),
    {
        let r = MigrationPlan { name: owned(name), operations: Vec::new() };
        assert(views(r.operations@) =~= Seq::<SpecOperation>::empty());
        r
    }

    /// Add an operation to the plan
    pub fn add_operation(&mut self, operation: MigrationOperation) -> (r: &mut Self)
        ensures
            *final(self) == *final(r),
            r@ == (SpecMigrationPlan {
                operations: old(self)@.operations.push(operation@),
                ..old(self)@
            }),
    {
        proof {
            lemma_views_push(self.operations@, operation);
        }
        self.operations.push(operation);
        self
    }

    /// Convert this plan to a migration stamped with `timestamp`, with the
    /// plan's operations and their checksum (`operations_json` being those
    /// operations as serde_json serializes them)
    pub fn to_migration_at(&self, schema: Schema, timestamp: Timestamp, operations_json: &str) -> (r:
        Migration)
        ensures
            r@ == (SpecMigration {
                id: migration_id_of(timestamp@, self@.name),
                name: self@.name,
                timestamp: timestamp@,
                schema: schema@,
                operations: self@.operations,
                checksum: Some(migration_checksum(self@.name, timestamp@, operations_json@)),
                applied: false,
            }),
    {
        let mut migration = Migration::new_at(self.name.clone(), schema, timestamp);
        let operations = self.operations.clone();
        assert(views(operations@) =~= views(self.operations@));
        migration.operations = operations;
        migration.compute_checksum(operations_json);
        migration
    }

    /// Convert this plan to a migration stamped with the current time, with
    /// the plan's operations and their checksum (`operations_json` being
    /// those operations as serde_json serializes them)
    pub fn to_migration(&self, schema: Schema, operations_json: &str) -> (r: Migration)
        ensures
            r@ == (SpecMigration {
                id: migration_id_of(r@.timestamp, self@.name),
                name: self@.name,
                timestamp: r@.timestamp,
                schema: schema@,
                operations: self@.operations,
                checksum: Some(migration_checksum(self@.name, r@.timestamp, operations_json@)),
                applied: false,
            }),
    {
        self.to_migration_at(schema, Timestamp::now(), operations_json)
    }
}

/// std's `PathBuf`, carried through as it is.
#[verifier::external_type_specification]
#[verifier::external_body]
pub struct ExPathBuf(PathBuf);

/// A migration manager
#[derive(Debug)]
pub struct MigrationManager<D: Dialect + ?Sized> {
    migrations_dir: PathBuf,
    applied_migrations: HashMap<String, Timestamp>,
    dialect: Box<D>,
}

impl<D: Dialect + ?Sized> MigrationManager<D> {
    /// The directory that holds the migration files.
    pub closed spec fn dir(&self) -> PathBuf {
        self.migrations_dir
    }

    /// The dialect that writes the SQL.
    pub closed spec fn dialect(&self) -> &D {
        &*self.dialect
    }

    /// The migrations recorded as applied, by identifier.
    pub closed spec fn applied(&self) -> Map<String, Timestamp> {
        self.applied_migrations@
    }

    /// Create a new migration manager
    pub fn new(migrations_dir: PathBuf, dialect: Box<D>) -> (r: Self)
        ensures
            r.dir() == migrations_dir,
            r.dialect() == &*dialect,
            r.applied() == Map::<String, Timestamp>::empty(),
    {
        MigrationManager { migrations_dir, applied_migrations: HashMap::new(), dialect }
    }

    /// The directory that holds the migration files
    pub fn migrations_dir(&self) -> (r: &PathBuf)
        ensures
            *r == self.dir(),
    {
        &self.migrations_dir
    }

    /// Create a new migration, stamped with the current time
    pub fn create_migration(&self, name: &str, schema: Schema) -> (r: Migration)
        ensures
            r@ == (SpecMigration {
                id: migration_id_of(r@.timestamp, name@),
                name: name@,
                timestamp: r@.timestamp,
                schema: schema@,
                operations: Seq::empty(),
                checksum: None,
                applied: false,
            }),
    {
        Migration::new(owned(name), schema)
    }

    /// Generate SQL for a migration with this manager's dialect
    pub fn generate_sql(&self, migration: &Migration) -> (r: String)
        ensures
            r@ == migration_sql(
                self.dialect(),
                migration@,
                chrono_display(migration@.timestamp.0, migration@.timestamp.1),
            ),
    {
        migration.to_sql(&*self.dialect)
    }

    /// Diff two schemas and generate migration operations: a `CreateTable`
    /// for each table of `to` whose name no table of `from` has (in `to`'s
    /// order), then a `DropTable` (without `CASCADE`) for each table of
    /// `from` whose name no table of `to` has (in `from`'s order). Tables
    /// present in both under the same name are not compared.
    pub fn diff_schemas(&self, from: &Schema, to: &Schema) -> (r: Vec<MigrationOperation>)
        ensures
            views(r@) == schema_diff(from@.tables, to@.tables),
    {
        let mut ops: Vec<MigrationOperation> = Vec::new();
        let mut i: usize = 0;
        while i < to.tables.len()
            invariant
                i <= to.tables.len(),
                views(ops@) == created_tables(from@.tables, to@.tables.take(i as int)),
            decreases to.tables.len() - i,
        {
            assert(to@.tables.take(i + 1).drop_last() =~= to@.tables.take(i as int));
            if !has_table_named_exec(&from.tables, &to.tables[i].name) {
                let op = MigrationOperation::CreateTable { table: to.tables[i].clone() };
                proof {
                    lemma_views_push(ops@, op);
                }
                ops.push(op);
            }
            i = i + 1;
        }
        assert(to@.tables.take(to.tables.len() as int) =~= to@.tables);
        let ghost created = views(ops@);
        let mut j: usize = 0;
        while j < from.tables.len()
            invariant
                j <= from.tables.len(),
                views(ops@) == created + dropped_tables(to@.tables, from@.tables.take(j as int)),
            decreases from.tables.len() - j,
        {
            assert(from@.tables.take(j + 1).drop_last() =~= from@.tables.take(j as int));
            if !has_table_named_exec(&to.tables, &from.tables[j].name) {
                let op = MigrationOperation::DropTable {
                    table: from.tables[j].name.clone(),
                    cascade: false,
                };
                proof {
                    lemma_views_push(ops@, op);
                }
                ops.push(op);
                assert(created + dropped_tables(to@.tables, from@.tables.take(j + 1)) =~= (created
                    + dropped_tables(to@.tables, from@.tables.take(j as int))).push(op@));
            }
            j = j + 1;
        }
        assert(from@.tables.take(from.tables.len() as int) =~= from@.tables);
        ops
    }
}


/// Each operation's SQL is the dialect's statement for that operation,
/// built from the operation's own fields: the table, the changes, the
/// policy, and the `cascade` and `force` flags it carries. Raw SQL ends with
/// its text.
pub proof fn law_operation_sql_is_the_dialects<D: Dialect + ?Sized>(dialect: &D, op: SpecOperation)
    ensures
        op matches SpecOperation::CreateTable { table } ==> operation_sql(dialect, op)
            == dialect.create_table_spec(table),
        op matches SpecOperation::AlterTable { table, changes } ==> operation_sql(dialect, op)
            == dialect.alter_table_spec(table, changes),
        op matches SpecOperation::DropTable { table, cascade } ==> operation_sql(dialect, op)
            == dialect.drop_table_spec(table, cascade),
        op matches SpecOperation::CreateRLSPolicy { table, policy } ==> operation_sql(dialect, op)
            == dialect.create_rls_policy_spec(table, policy),
        op matches SpecOperation::DropRLSPolicy { table, policy } ==> operation_sql(dialect, op)
            == dialect.drop_rls_policy_spec(table, policy),
        op matches SpecOperation::EnableRLS { table, force } ==> operation_sql(dialect, op)
            == dialect.enable_rls_spec(table, force),
        op matches SpecOperation::DisableRLS { table } ==> operation_sql(dialect, op)
            == dialect.disable_rls_spec(table),
        op matches SpecOperation::RawSQL { sql, description } ==> sql.is_suffix_of(
            operation_sql(dialect, op),
        ),
{
    if let SpecOperation::RawSQL { sql, description } = op {
        let head = wrap_opt("-- "@, description, "\n"@);
        assert((head + sql).subrange(head.len() as int, (head + sql).len() as int) =~= sql);
    }
}

/// With PostgreSQL, a migration that enables row level security on a table
/// enables it in its script, and, when the operation forces it, forces it
/// too (`FORCE ROW LEVEL SECURITY`, which also binds the table's owner).
pub proof fn law_migration_enables_and_forces_rls(
    dialect: PostgreSQL,
    m: SpecMigration,
    created_at: Seq<char>,
    i: int,
)
    ensures
        0 <= i < m.operations.len() ==> (m.operations[i] matches SpecOperation::EnableRLS {
            table,
            force,
        } ==> {
            let q = qualified_name(dialect.schema@, table);
            let script = migration_sql(&dialect, m, created_at);
            &&& occurs_in("ALTER TABLE "@ + q + " ENABLE ROW LEVEL SECURITY;\n"@, script)
            &&& force ==> occurs_in("ALTER TABLE "@ + q + " FORCE ROW LEVEL SECURITY;\n"@, script)
        }),
{
    if 0 <= i < m.operations.len() {
        if let SpecOperation::EnableRLS { table, force } = m.operations[i] {
            let q = qualified_name(dialect.schema@, table);
            let script = migration_sql(&dialect, m, created_at);
            let op_sql = operation_sql(&dialect, m.operations[i]);
            law_migration_script(&dialect, m, created_at, i);
            let enable = "ALTER TABLE "@ + q + " ENABLE ROW LEVEL SECURITY;\n"@;
            let forced = crate::dialect::when(force, "ALTER TABLE "@ + q + " FORCE ROW LEVEL SECURITY;\n"@);
            assert(op_sql == enable + forced);
            lemma_occurs_middle(Seq::<char>::empty(), enable, forced);
            assert(Seq::<char>::empty() + enable + forced =~= op_sql);
            lemma_occurs_trans(enable, op_sql, script);
            if force {
                lemma_occurs_suffix(enable, forced);
                lemma_occurs_trans(forced, op_sql, script);
            }
        }
    }
}

} // verus!

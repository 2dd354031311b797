use std::collections::hash_map::DefaultHasher;
use std::hash::{Hash, Hasher};
use std::path::PathBuf;

use kohori::dialect::{Dialect, PostgreSQL};
use kohori::migration::{
    checksum_payload, checksum_text, migration_file_name, migration_id, Migration,
    MigrationManager, MigrationOperation, MigrationPlan,
};
use kohori::rls::{Policy, PolicyState, PolicyTarget, RLSConfig, SecurityContext};
use kohori::schema::{Column, DataType, Index, ReferentialAction, Table};
use kohori::text::{decimal_string, escape_quotes_string, hex_fixed_string, join_strings};
use kohori::timestamp::{Timestamp, MAX_UNIX_SECS, MIN_UNIX_SECS};
use kohori::Schema;

fn epoch() -> Timestamp {
    Timestamp::from_unix(0, 0).unwrap()
}

fn two_table_schema() -> Schema {
    let mut schema = Schema::new("public");
    schema
        .add_table(Table::new("a").column(Column::new("id", DataType::Integer).primary_key()))
        .add_table(
            Table::new("b")
                .column(Column::new("x", DataType::Boolean))
                .rls_policy(Policy::new("b_read").target(PolicyTarget::Select)),
        );
    schema
}

#[test]
fn timestamp_range() {
    assert!(Timestamp::from_unix(MIN_UNIX_SECS, 0).is_some());
    assert!(Timestamp::from_unix(MAX_UNIX_SECS, 999_999_999).is_some());
    assert!(Timestamp::from_unix(MIN_UNIX_SECS - 1, 0).is_none());
    assert!(Timestamp::from_unix(MAX_UNIX_SECS + 1, 0).is_none());
    assert!(Timestamp::from_unix(0, 1_000_000_000).is_none());
    let t = Timestamp::from_unix(42, 7).unwrap();
    assert_eq!(t.unix_secs(), 42);
    assert_eq!(t.subsec_nanos(), 7);
}

#[test]
fn timestamp_texts() {
    let t = Timestamp::from_unix(1431648000, 0).unwrap();
    assert_eq!(t.compact_stamp(), "20150515000000");
    assert_eq!(t.display(), "2015-05-15 00:00:00 UTC");
    assert_eq!(t.rfc3339(), "2015-05-15T00:00:00+00:00");
    let odd = Timestamp::from_unix(-1, 500_000_000).unwrap();
    let reference = chrono::DateTime::from_timestamp(-1, 500_000_000).unwrap();
    assert_eq!(odd.display(), reference.to_string());
    assert_eq!(odd.rfc3339(), reference.to_rfc3339());
    assert_eq!(odd.compact_stamp(), reference.format("%Y%m%d%H%M%S").to_string());
    assert_eq!(odd.compact_stamp(), "19691231235959");
    let edge = Timestamp::from_unix(MAX_UNIX_SECS, 0).unwrap();
    let edge_reference = chrono::DateTime::from_timestamp(MAX_UNIX_SECS, 0).unwrap();
    assert_eq!(edge.display(), edge_reference.to_string());
    assert_eq!(edge.compact_stamp(), edge_reference.format("%Y%m%d%H%M%S").to_string());
    let first = Timestamp::from_unix(MIN_UNIX_SECS, 999_999_999).unwrap();
    let first_reference = chrono::DateTime::from_timestamp(MIN_UNIX_SECS, 999_999_999).unwrap();
    assert_eq!(first.display(), first_reference.to_string());
    assert_eq!(first.rfc3339(), first_reference.to_rfc3339());
    assert!(chrono::DateTime::from_timestamp(MIN_UNIX_SECS - 1, 0).is_none());
    assert!(chrono::DateTime::from_timestamp(MAX_UNIX_SECS + 1, 0).is_none());
}

#[test]
fn now_is_after_2020() {
    let now = Timestamp::now();
    assert!(now.unix_secs() > 1_577_836_800);
}

#[test]
fn migration_at_fixed_time() {
    let schema = Schema::new("public");
    let m = Migration::new_at("init".to_string(), schema, epoch());
    assert_eq!(m.id, "19700101000000_init");
    assert_eq!(m.name, "init");
    assert!(m.operations.is_empty());
    assert_eq!(m.checksum, None);
    assert!(!m.applied);
    assert_eq!(m.file_name(), "19700101000000_init.sql");
    let sql = m.to_sql(&PostgreSQL::default());
    assert_eq!(
        sql,
        "-- Migration: 19700101000000_init\n\
         -- Created at: 1970-01-01 00:00:00 UTC\n\n\
         BEGIN;\n\n\
         INSERT INTO _kohori_migrations (id, name, applied_at) VALUES ('19700101000000_init', 'init', CURRENT_TIMESTAMP);\n\n\
         COMMIT;\n"
    );
}

#[test]
fn migration_with_operations() {
    let mut m = Migration::new_at("drop".to_string(), Schema::new("public"), epoch());
    m.add_operation(MigrationOperation::DropTable { table: "old".to_string(), cascade: false })
        .add_operation(MigrationOperation::RawSQL { sql: "SELECT 1;".to_string(), description: None });
    let sql = m.render_sql(&PostgreSQL::default(), "then");
    assert_eq!(
        sql,
        "-- Migration: 19700101000000_drop\n-- Created at: then\n\nBEGIN;\n\n\
         DROP TABLE old;\n\n\n\
         SELECT 1;\n\n\
         INSERT INTO _kohori_migrations (id, name, applied_at) VALUES ('19700101000000_drop', 'drop', CURRENT_TIMESTAMP);\n\n\
         COMMIT;\n"
    );
    assert!(sql.starts_with("-- Migration: 19700101000000_drop\n-- Created at: then\n\nBEGIN;\n\n"));
    assert!(sql.ends_with("COMMIT;\n"));
}

#[test]
fn generated_migration_creates_every_table() {
    let schema = two_table_schema();
    let m = schema.generate_migration_at("create", epoch());
    assert_eq!(m.operations.len(), 2);
    assert_eq!(m.schema.tables.len(), 2);
    assert_eq!(m.id, "19700101000000_create");
    let pg = PostgreSQL::default();
    let sql = m.to_sql(&pg);
    assert!(sql.contains("CREATE TABLE a (\n    id INTEGER PRIMARY KEY\n);\n"));
    assert!(sql.contains("CREATE TABLE b (\n"));
    assert!(sql.contains("ALTER TABLE b ENABLE ROW LEVEL SECURITY;"));
    assert!(!sql.contains("ALTER TABLE a ENABLE ROW LEVEL SECURITY;"));
    assert!(sql.contains("CREATE POLICY b_read ON b FOR SELECT;"));
    let a_pos = sql.find("CREATE TABLE a").unwrap();
    let b_pos = sql.find("CREATE TABLE b").unwrap();
    assert!(a_pos < b_pos);
    let now = schema.generate_migration("create");
    assert!(now.id.ends_with("_create"));
    assert_eq!(now.id.len(), "19700101000000_create".len());
}

#[test]
fn schema_clone_and_add_table() {
    let schema = two_table_schema();
    let copy = schema.clone();
    assert_eq!(copy.name, "public");
    assert_eq!(copy.tables.len(), 2);
    assert_eq!(copy.tables[1].rls_policies[0].name, "b_read");
    let pg = PostgreSQL::default();
    assert_eq!(pg.create_table(&copy.tables[1]), pg.create_table(&schema.tables[1]));
}

#[test]
fn plan_to_migration_and_checksum() {
    let mut plan = MigrationPlan::new("plan");
    plan.add_operation(MigrationOperation::DisableRLS { table: "t".to_string() });
    assert_eq!(plan.operations.len(), 1);
    let ops_json = "[{\"DisableRLS\":{\"table\":\"t\"}}]";
    let m = plan.to_migration_at(Schema::new("public"), epoch(), ops_json);
    assert_eq!(m.name, "plan");
    assert_eq!(m.id, "19700101000000_plan");
    assert_eq!(m.operations.len(), 1);
    let payload = "{\"name\":\"plan\",\"operations\":[{\"DisableRLS\":{\"table\":\"t\"}}],\"timestamp\":\"1970-01-01T00:00:00+00:00\"}";
    let mut hasher = DefaultHasher::new();
    payload.to_string().hash(&mut hasher);
    let expected = format!("{:016x}", hasher.finish());
    assert_eq!(m.checksum, Some(expected.clone()));
    assert_eq!(expected.len(), 16);
    let mut again = Migration::new_at("plan".to_string(), Schema::new("public"), epoch());
    assert_eq!(again.compute_checksum(ops_json), expected);
    assert_eq!(again.checksum, Some(expected));
    let fresh = plan.to_migration(Schema::new("public"), ops_json);
    assert_eq!(fresh.checksum.as_ref().map(|c| c.len()), Some(16));
}

#[test]
fn checksum_payload_quotes_the_name() {
    let payload = checksum_payload("\"a\\\"b\"", "[]", "\"x\"");
    assert_eq!(payload, "{\"name\":\"a\\\"b\",\"operations\":[],\"timestamp\":\"x\"}");
    let mut m = Migration::new_at("a\"b".to_string(), Schema::new("public"), epoch());
    let checksum = m.compute_checksum("[]");
    let expected_payload =
        "{\"name\":\"a\\\"b\",\"operations\":[],\"timestamp\":\"1970-01-01T00:00:00+00:00\"}";
    let mut hasher = DefaultHasher::new();
    expected_payload.to_string().hash(&mut hasher);
    assert_eq!(checksum, format!("{:016x}", hasher.finish()));
}

#[test]
fn checksum_and_identifier_texts() {
    assert_eq!(checksum_text(0), "0000000000000000");
    assert_eq!(checksum_text(255), "00000000000000ff");
    assert_eq!(checksum_text(u64::MAX), "ffffffffffffffff");
    assert_eq!(checksum_text(0x0123456789abcdef), "0123456789abcdef");
    assert_eq!(migration_id("20240101120000", "users"), "20240101120000_users");
    assert_eq!(migration_file_name("20240101120000", "users"), "20240101120000_users.sql");
}

#[test]
fn manager_generates_with_its_dialect() {
    let manager = MigrationManager::new(
        PathBuf::from("./migrations"),
        Box::new(PostgreSQL::with_schema("app")),
    );
    assert_eq!(manager.migrations_dir(), &PathBuf::from("./migrations"));
    let mut m = Migration::new_at("x".to_string(), Schema::new("public"), epoch());
    m.add_operation(MigrationOperation::DropTable { table: "t".to_string(), cascade: false });
    let sql = manager.generate_sql(&m);
    assert_eq!(sql, m.to_sql(&PostgreSQL::with_schema("app")));
    assert!(sql.contains("DROP TABLE app.t;\n"));
    let created = manager.create_migration("y", Schema::new("public"));
    assert!(created.id.ends_with("_y"));
    assert!(created.operations.is_empty());
    let a = two_table_schema();
    assert!(manager.diff_schemas(&a, &two_table_schema()).is_empty());
}

#[test]
fn diff_creates_and_drops_tables() {
    let manager = MigrationManager::new(PathBuf::from("./migrations"), Box::new(PostgreSQL::default()));
    let empty = Schema::new("public");
    let two = two_table_schema();
    let created = manager.diff_schemas(&empty, &two);
    assert_eq!(created.len(), 2);
    assert!(matches!(&created[0], MigrationOperation::CreateTable { table } if table.name == "a"));
    assert!(matches!(&created[1], MigrationOperation::CreateTable { table } if table.name == "b" && table.rls_enabled));
    let dropped = manager.diff_schemas(&two, &empty);
    assert_eq!(dropped.len(), 2);
    assert!(matches!(&dropped[0], MigrationOperation::DropTable { table, cascade: false } if table == "a"));
    assert!(matches!(&dropped[1], MigrationOperation::DropTable { table, cascade: false } if table == "b"));
    let mut other = Schema::new("public");
    other
        .add_table(Table::new("b").column(Column::new("y", DataType::Text)))
        .add_table(Table::new("c"));
    let both = manager.diff_schemas(&two, &other);
    assert_eq!(both.len(), 2);
    assert!(matches!(&both[0], MigrationOperation::CreateTable { table } if table.name == "c"));
    assert!(matches!(&both[1], MigrationOperation::DropTable { table, cascade: false } if table == "a"));
    let sql = both[0].to_sql(&PostgreSQL::default());
    assert!(sql.starts_with("CREATE TABLE c ("));
}

#[test]
fn checksum_depends_on_name_time_and_operations() {
    let ops_json = "[{\"DisableRLS\":{\"table\":\"t\"}}]";
    let mut first = Migration::new_at("same".to_string(), Schema::new("public"), epoch());
    let mut second = Migration::new_at("same".to_string(), two_table_schema(), epoch());
    second.id = "another".to_string();
    let a = first.compute_checksum(ops_json);
    assert_eq!(second.compute_checksum(ops_json), a);
    assert_eq!(first.compute_checksum(ops_json), a);
    let later = Timestamp::from_unix(1, 0).unwrap();
    let mut third = Migration::new_at("same".to_string(), Schema::new("public"), later);
    assert_ne!(third.compute_checksum(ops_json), a);
    let mut renamed = Migration::new_at("other".to_string(), Schema::new("public"), epoch());
    assert_ne!(renamed.compute_checksum(ops_json), a);
    assert_ne!(first.compute_checksum("[]"), a);
    let mut plan = MigrationPlan::new("same");
    plan.add_operation(MigrationOperation::DisableRLS { table: "t".to_string() });
    let mut m = plan.to_migration_at(Schema::new("public"), epoch(), ops_json);
    let recorded = m.checksum.clone().unwrap();
    assert_eq!(recorded, a);
    assert_eq!(m.compute_checksum(ops_json), recorded);
}

#[test]
fn leap_second_timestamps() {
    let leap = Timestamp::from_unix(59, 1_500_000_000).unwrap();
    assert_eq!(leap.subsec_nanos(), 1_500_000_000);
    let reference = chrono::DateTime::from_timestamp(59, 1_500_000_000).unwrap();
    assert_eq!(leap.display(), reference.to_string());
    assert_eq!(leap.rfc3339(), reference.to_rfc3339());
    assert_eq!(leap.compact_stamp(), reference.format("%Y%m%d%H%M%S").to_string());
    assert!(Timestamp::from_unix(58, 1_500_000_000).is_none());
    assert!(Timestamp::from_unix(59, 2_000_000_000).is_none());
    assert!(Timestamp::from_unix(-1, 1_999_999_999).is_some());
    assert!(chrono::DateTime::from_timestamp(-1, 1_999_999_999).is_some());
    assert!(Timestamp::from_unix(-2, 1_000_000_000).is_none());
    assert!(chrono::DateTime::from_timestamp(-2, 1_000_000_000).is_none());
    assert!(Timestamp::from_unix(MIN_UNIX_SECS + 59, 1_000_000_000).is_some());
    assert!(chrono::DateTime::from_timestamp(MIN_UNIX_SECS + 59, 1_000_000_000).is_some());
}

#[test]
fn policies_enable_rls_through_builders() {
    let t = Table::new("t")
        .column(Column::new("id", DataType::Integer))
        .rls_policy(Policy::new("p"))
        .comment("c")
        .index(Index::new("i", vec!["id".to_string()]));
    assert!(t.rls_enabled);
    assert_eq!(t.rls_policies.len(), 1);
    assert!(!Table::new("u").column(Column::new("id", DataType::Integer)).rls_enabled);
}

#[test]
fn file_name_is_id_and_sql() {
    let m = Migration::new_at("users".to_string(), Schema::new("public"), epoch());
    assert_eq!(m.file_name(), format!("{}.sql", m.id));
    assert_eq!(m.file_name(), "19700101000000_users.sql");
}

#[test]
fn rls_config_clone() {
    let mut config = RLSConfig::default();
    config.enabled = true;
    config.role_mappings.insert("app".to_string(), "authenticated".to_string());
    let copy = config.clone();
    assert!(copy.enabled);
    assert_eq!(copy.role_mappings.get("app").map(|s| s.as_str()), Some("authenticated"));
}

#[test]
fn builders_record_their_settings() {
    let col = Column::new("id", DataType::UUID).primary_key();
    assert!(col.is_primary_key);
    assert!(!col.is_nullable);
    let col = Column::new("n", DataType::Integer).unique().default("1").comment("c").check("n > 0");
    assert!(col.is_nullable && col.is_unique);
    assert_eq!(col.default_value, Some("1".to_string()));
    assert_eq!(col.comment, Some("c".to_string()));
    assert_eq!(col.check_constraints, vec!["n > 0".to_string()]);
    let col = Column::new("u", DataType::UUID).references("users", "id");
    let r = col.references.unwrap();
    assert_eq!((r.table.as_str(), r.column.as_str()), ("users", "id"));
    assert_eq!(r.on_delete, ReferentialAction::NoAction);
    assert_eq!(r.on_update, ReferentialAction::NoAction);
    let table = Table::new("t");
    assert!(!table.rls_enabled);
    let table = table.rls_policy(Policy::new("p"));
    assert!(table.rls_enabled);
    assert_eq!(table.rls_policies.len(), 1);
    let idx = Index::new("i", vec!["a".to_string()]).unique().method("gin");
    assert!(idx.is_unique);
    assert_eq!(idx.method, Some("gin".to_string()));
    let p = Policy::new("p");
    assert_eq!(p.target, PolicyTarget::All);
    assert_eq!(p.security_context, SecurityContext::Public);
    assert_eq!(p.state, PolicyState::Enabled);
    assert!(p.roles.is_empty() && p.using_expr.is_none() && p.check_expr.is_none());
    let p = p.roles(vec!["a".to_string()]).roles(vec!["b".to_string()]);
    assert_eq!(p.roles, vec!["a".to_string(), "b".to_string()]);
    let p = p.security_context(SecurityContext::Role(vec!["admin".to_string()]));
    assert_eq!(p.security_context.clone(), SecurityContext::Role(vec!["admin".to_string()]));
}

#[test]
fn rls_config_default() {
    let config = RLSConfig::default();
    assert!(!config.enabled);
    assert!(!config.force_all_tables);
    assert!(config.default_policies.is_empty());
    assert!(config.role_mappings.is_empty());
}

#[test]
fn text_helpers() {
    assert_eq!(escape_quotes_string("it's"), "it''s");
    assert_eq!(escape_quotes_string("''"), "''''");
    assert_eq!(escape_quotes_string("plain é"), "plain é");
    assert_eq!(escape_quotes_string(""), "");
    assert_eq!(decimal_string(0), "0");
    assert_eq!(decimal_string(7), "7");
    assert_eq!(decimal_string(1000), "1000");
    assert_eq!(decimal_string(u32::MAX), "4294967295");
    assert_eq!(hex_fixed_string(0xabc, 4), "0abc");
    assert_eq!(hex_fixed_string(0x12345, 4), "2345");
    assert_eq!(join_strings(&vec![], ", "), "");
    assert_eq!(join_strings(&vec!["a".to_string()], ", "), "a");
    assert_eq!(join_strings(&vec!["a".to_string(), "b".to_string(), "c".to_string()], "-"), "a-b-c");
}

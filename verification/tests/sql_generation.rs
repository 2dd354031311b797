use kohori::dialect::{Dialect, PostgreSQL};
use kohori::migration::{ColumnChange, MigrationOperation, TableChange};
use kohori::rls::{
    generate_enable_rls_sql, generate_force_rls_sql, generate_policy_sql, Policy, PolicyState,
    PolicyTarget,
};
use kohori::schema::{
    Column, Constraint, ConstraintType, DataType, Index, ReferentialAction, Table,
};

fn strings(items: &[&str]) -> Vec<String> {
    items.iter().map(|s| s.to_string()).collect()
}

fn posts_table() -> Table {
    Table::new("posts")
        .column(Column::new("id", DataType::UUID).primary_key().default("gen_random_uuid()"))
        .column(Column::new("user_id", DataType::UUID).not_null().references("users", "id"))
        .column(
            Column::new("title", DataType::VarChar(Some(200)))
                .not_null()
                .unique()
                .check("length(title) > 0")
                .comment("Post's title"),
        )
        .constraint(Constraint::new(
            "posts_title_unique",
            ConstraintType::Unique(strings(&["title", "user_id"])),
        ))
        .index(Index::new("posts_user_idx", strings(&["user_id"])).method("btree"))
        .comment("All posts")
        .rls_policy(Policy::new("posts_owner").using("auth.uid() = user_id"))
}

#[test]
fn data_type_names() {
    assert_eq!(DataType::SmallInt.sql_name(), "SMALLINT");
    assert_eq!(DataType::DoublePrecision.sql_name(), "DOUBLE PRECISION");
    assert_eq!(DataType::Decimal { precision: Some(10), scale: Some(2) }.sql_name(), "DECIMAL(10, 2)");
    assert_eq!(DataType::Decimal { precision: Some(5), scale: None }.sql_name(), "DECIMAL(5)");
    assert_eq!(DataType::Decimal { precision: None, scale: Some(2) }.sql_name(), "DECIMAL");
    assert_eq!(DataType::Numeric { precision: Some(0), scale: Some(255) }.sql_name(), "NUMERIC(0, 255)");
    assert_eq!(DataType::Char(None).sql_name(), "CHAR");
    assert_eq!(DataType::Char(Some(1)).sql_name(), "CHAR(1)");
    assert_eq!(DataType::VarChar(Some(255)).sql_name(), "VARCHAR(255)");
    assert_eq!(DataType::VarChar(Some(4294967295)).sql_name(), "VARCHAR(4294967295)");
    assert_eq!(DataType::TimestampTZ.sql_name(), "TIMESTAMPTZ");
    assert_eq!(DataType::JSONB.sql_name(), "JSONB");
    assert_eq!(DataType::Array(Box::new(DataType::Integer)).sql_name(), "INTEGER[]");
    assert_eq!(
        DataType::Array(Box::new(DataType::Array(Box::new(DataType::Text)))).sql_name(),
        "TEXT[][]"
    );
    assert_eq!(DataType::Custom("citext".to_string()).sql_name(), "citext");
}

#[test]
fn create_table_full_output() {
    let sql = PostgreSQL::default().create_table(&posts_table());
    let expected = "CREATE TABLE posts (\n\
        \x20   id UUID PRIMARY KEY DEFAULT gen_random_uuid(),\n\
        \x20   user_id UUID NOT NULL REFERENCES users(id),\n\
        \x20   title VARCHAR(200) NOT NULL UNIQUE CHECK (length(title) > 0),\n\
        \x20   CONSTRAINT posts_title_unique UNIQUE (title, user_id)\n);\n\
        \nCOMMENT ON TABLE posts IS 'All posts';\n\
        \nCOMMENT ON COLUMN posts.title IS 'Post''s title';\n\
        \nCREATE INDEX posts_user_idx ON posts USING btree (user_id);\n\
        \nALTER TABLE posts ENABLE ROW LEVEL SECURITY;\n\
        \nCREATE POLICY posts_owner ON posts USING (auth.uid() = user_id);\n";
    assert_eq!(sql, expected);
}

#[test]
fn create_table_with_schema_and_foreign_keys() {
    let mut author = Column::new("author", DataType::BigInt).references("people", "id");
    if let Some(r) = author.references.as_mut() {
        r.on_delete = ReferentialAction::Restrict;
        r.on_update = ReferentialAction::SetDefault;
    }
    let table = Table::new("books")
        .column(author)
        .constraint(Constraint::new(
            "books_pk",
            ConstraintType::PrimaryKey(strings(&["author", "title"])),
        ))
        .constraint(Constraint::new(
            "books_shelf_fk",
            ConstraintType::ForeignKey {
                columns: strings(&["shelf_id", "room_id"]),
                referenced_table: "shelves".to_string(),
                referenced_columns: strings(&["id", "room"]),
                on_delete: ReferentialAction::Cascade,
                on_update: ReferentialAction::SetNull,
            },
        ))
        .constraint(Constraint::new("books_year", ConstraintType::Check("year > 0".to_string())))
        .index(Index::new("books_title_idx", strings(&["title"])).unique());
    let sql = PostgreSQL::with_schema("library").create_table(&table);
    let expected = "CREATE TABLE library.books (\n\
        \x20   author BIGINT REFERENCES library.people(id) ON DELETE RESTRICT ON UPDATE SET DEFAULT,\n\
        \x20   CONSTRAINT books_pk PRIMARY KEY (author, title),\n\
        \x20   CONSTRAINT books_shelf_fk FOREIGN KEY (shelf_id, room_id) REFERENCES library.shelves(id, room) ON DELETE CASCADE ON UPDATE SET NULL,\n\
        \x20   CONSTRAINT books_year CHECK (year > 0)\n);\n\
        \nCREATE UNIQUE INDEX books_title_idx ON library.books (title);\n";
    assert_eq!(sql, expected);
}

#[test]
fn create_table_without_rls_has_no_rls_statement() {
    let table = Table::new("notes").column(Column::new("body", DataType::Text));
    let sql = PostgreSQL::new().create_table(&table);
    assert_eq!(sql, "CREATE TABLE notes (\n    body TEXT\n);\n");
    let enabled = PostgreSQL::new().create_table(&table.clone().enable_rls());
    assert_eq!(
        enabled,
        "CREATE TABLE notes (\n    body TEXT\n);\n\nALTER TABLE notes ENABLE ROW LEVEL SECURITY;\n"
    );
}

#[test]
fn alter_table_every_change() {
    let changes = vec![
        TableChange::AddColumn(
            Column::new("bio", DataType::Text).not_null().default("''").unique().comment("About"),
        ),
        TableChange::DropColumn { name: "old".to_string(), cascade: true },
        TableChange::AlterColumn {
            name: "age".to_string(),
            change: ColumnChange::SetDataType(DataType::BigInt),
        },
        TableChange::AlterColumn { name: "age".to_string(), change: ColumnChange::SetNotNull },
        TableChange::AlterColumn { name: "age".to_string(), change: ColumnChange::DropNotNull },
        TableChange::AlterColumn {
            name: "age".to_string(),
            change: ColumnChange::SetDefault("0".to_string()),
        },
        TableChange::AlterColumn { name: "age".to_string(), change: ColumnChange::DropDefault },
        TableChange::AddConstraint(Constraint::new(
            "people_pk",
            ConstraintType::PrimaryKey(strings(&["id"])),
        )),
        TableChange::AddConstraint(Constraint::new(
            "age_positive",
            ConstraintType::Check("age > 0".to_string()),
        )),
        TableChange::AddConstraint(Constraint::new(
            "people_org_fk",
            ConstraintType::ForeignKey {
                columns: strings(&["org"]),
                referenced_table: "orgs".to_string(),
                referenced_columns: strings(&["id"]),
                on_delete: ReferentialAction::NoAction,
                on_update: ReferentialAction::Cascade,
            },
        )),
        TableChange::DropConstraint { name: "old_check".to_string(), cascade: false },
        TableChange::RenameTable { new_name: "persons".to_string() },
        TableChange::RenameColumn { old_name: "nm".to_string(), new_name: "name".to_string() },
    ];
    let sql = PostgreSQL::default().alter_table("people", &changes);
    let expected = "ALTER TABLE people ADD COLUMN bio TEXT NOT NULL DEFAULT '' UNIQUE;\n\
        COMMENT ON COLUMN people.bio IS 'About';\n\
        ALTER TABLE people DROP COLUMN old CASCADE;\n\
        ALTER TABLE people ALTER COLUMN age TYPE BIGINT;\n\
        ALTER TABLE people ALTER COLUMN age SET NOT NULL;\n\
        ALTER TABLE people ALTER COLUMN age DROP NOT NULL;\n\
        ALTER TABLE people ALTER COLUMN age SET DEFAULT 0;\n\
        ALTER TABLE people ALTER COLUMN age DROP DEFAULT;\n\
        ALTER TABLE people ADD CONSTRAINT people_pk PRIMARY KEY (id);\n\
        ALTER TABLE people ADD CONSTRAINT age_positive CHECK (age > 0);\n\
        ALTER TABLE people ADD CONSTRAINT people_org_fk FOREIGN KEY (org) REFERENCES orgs(id) ON UPDATE CASCADE;\n\
        ALTER TABLE people DROP CONSTRAINT old_check;\n\
        ALTER TABLE people RENAME TO persons;\n\
        ALTER TABLE people RENAME COLUMN nm TO name;\n";
    assert_eq!(sql, expected);
    assert_eq!(PostgreSQL::default().alter_table("people", &[]), "");
}

#[test]
fn add_column_ignores_primary_key_and_checks() {
    let changes = vec![TableChange::AddColumn(
        Column::new("code", DataType::Char(Some(3))).primary_key().check("code <> ''"),
    )];
    let sql = PostgreSQL::with_schema("s").alter_table("t", &changes);
    assert_eq!(sql, "ALTER TABLE s.t ADD COLUMN code CHAR(3) NOT NULL;\n");
}

#[test]
fn simple_statements() {
    let pg = PostgreSQL::default();
    assert_eq!(pg.drop_table("users", false), "DROP TABLE users;\n");
    assert_eq!(pg.drop_table("users", true), "DROP TABLE users CASCADE;\n");
    assert_eq!(pg.drop_rls_policy("users", "p1"), "DROP POLICY p1 ON users;\n");
    assert_eq!(pg.enable_rls("users", false), "ALTER TABLE users ENABLE ROW LEVEL SECURITY;\n");
    assert_eq!(
        pg.enable_rls("users", true),
        "ALTER TABLE users ENABLE ROW LEVEL SECURITY;\nALTER TABLE users FORCE ROW LEVEL SECURITY;\n"
    );
    assert_eq!(pg.disable_rls("users"), "ALTER TABLE users DISABLE ROW LEVEL SECURITY;\n");
    let other = PostgreSQL::with_schema("auth");
    assert_eq!(other.drop_table("users", false), "DROP TABLE auth.users;\n");
    assert_eq!(other.disable_rls("users"), "ALTER TABLE auth.users DISABLE ROW LEVEL SECURITY;\n");
    assert_eq!(
        other.create_rls_policy("users", &Policy::new("p")),
        "CREATE POLICY p ON auth.users;"
    );
}

#[test]
fn enable_rls_is_made_of_the_generated_statements() {
    let pg = PostgreSQL::with_schema("app");
    let expected = format!(
        "{}\n{}\n",
        generate_enable_rls_sql("app.users"),
        generate_force_rls_sql("app.users")
    );
    assert_eq!(pg.enable_rls("users", true), expected);
    assert_eq!(generate_enable_rls_sql("t"), "ALTER TABLE t ENABLE ROW LEVEL SECURITY;");
    assert_eq!(generate_force_rls_sql("t"), "ALTER TABLE t FORCE ROW LEVEL SECURITY;");
}

#[test]
fn public_schema_writes_like_the_default() {
    assert_eq!(PostgreSQL::default().schema, "public");
    assert_eq!(PostgreSQL::new().schema, "public");
    let default = PostgreSQL::with_schema("");
    let public = PostgreSQL::default();
    let table = posts_table();
    assert_eq!(default.create_table(&table), public.create_table(&table));
    assert_eq!(default.drop_table("posts", true), public.drop_table("posts", true));
    assert_eq!(default.enable_rls("posts", true), public.enable_rls("posts", true));
    let op = MigrationOperation::CreateTable { table };
    assert_eq!(op.to_sql(&default), op.to_sql(&public));
}

#[test]
fn policy_sql_every_clause() {
    let policy = Policy::new("p")
        .check("x > 0")
        .target(PolicyTarget::Insert)
        .roles(strings(&["a", "b"]))
        .comment("it's")
        .state(PolicyState::Disabled);
    assert_eq!(
        generate_policy_sql("t", &policy),
        "CREATE POLICY p ON t FOR INSERT TO a, b WITH CHECK (x > 0);\n\
         COMMENT ON POLICY p ON t IS 'it''s';\n\
         \nALTER POLICY p ON t DISABLE;\n"
    );
    let testing = Policy::new("q")
        .using("true")
        .check("false")
        .target(PolicyTarget::All)
        .state(PolicyState::Testing);
    assert_eq!(
        generate_policy_sql("t", &testing),
        "CREATE POLICY q ON t USING (true) WITH CHECK (false);\n-- Policy q is in TESTING mode\n"
    );
    assert_eq!(generate_policy_sql("t", &Policy::new("r")), "CREATE POLICY r ON t;");
}

#[test]
fn policy_targets_and_keywords() {
    assert_eq!(PolicyTarget::All.keyword(), "ALL");
    assert_eq!(PolicyTarget::Select.keyword(), "SELECT");
    assert_eq!(PolicyTarget::Insert.keyword(), "INSERT");
    assert_eq!(PolicyTarget::Update.keyword(), "UPDATE");
    assert_eq!(PolicyTarget::Delete.keyword(), "DELETE");
    let delete = Policy::new("d").target(PolicyTarget::Delete);
    assert_eq!(generate_policy_sql("t", &delete), "CREATE POLICY d ON t FOR DELETE;");
}

#[test]
fn raw_sql_operation() {
    let pg = PostgreSQL::default();
    let with_description = MigrationOperation::RawSQL {
        sql: "SELECT 1;".to_string(),
        description: Some("Check".to_string()),
    };
    assert_eq!(with_description.to_sql(&pg), "-- Check\nSELECT 1;");
    let bare = MigrationOperation::RawSQL { sql: "SELECT 2;".to_string(), description: None };
    assert_eq!(bare.to_sql(&pg), "SELECT 2;");
    let dynamic: &dyn Dialect = &pg;
    assert_eq!(bare.to_sql(dynamic), "SELECT 2;");
}

#[test]
fn every_operation_kind_dispatches_to_the_dialect() {
    let pg = PostgreSQL::with_schema("x");
    let ops = vec![
        (MigrationOperation::DropTable { table: "t".to_string(), cascade: true }, "DROP TABLE x.t CASCADE;\n"),
        (
            MigrationOperation::CreateRLSPolicy {
                table: "t".to_string(),
                policy: Policy::new("p").target(PolicyTarget::Update),
            },
            "CREATE POLICY p ON x.t FOR UPDATE;",
        ),
        (
            MigrationOperation::DropRLSPolicy { table: "t".to_string(), policy: "p".to_string() },
            "DROP POLICY p ON x.t;\n",
        ),
        (
            MigrationOperation::EnableRLS { table: "t".to_string(), force: false },
            "ALTER TABLE x.t ENABLE ROW LEVEL SECURITY;\n",
        ),
        (
            MigrationOperation::DisableRLS { table: "t".to_string() },
            "ALTER TABLE x.t DISABLE ROW LEVEL SECURITY;\n",
        ),
        (
            MigrationOperation::AlterTable {
                table: "t".to_string(),
                changes: vec![TableChange::RenameTable { new_name: "u".to_string() }],
            },
            "ALTER TABLE x.t RENAME TO u;\n",
        ),
        (
            MigrationOperation::CreateTable { table: Table::new("t").column(Column::new("a", DataType::Date)) },
            "CREATE TABLE x.t (\n    a DATE\n);\n",
        ),
    ];
    for (op, expected) in ops {
        assert_eq!(op.to_sql(&pg), expected);
    }
}

#[test]
fn alter_table_writes_changes_one_after_another() {
    let pg = PostgreSQL::with_schema("s");
    let first = vec![TableChange::RenameColumn { old_name: "a".to_string(), new_name: "b".to_string() }];
    let second = vec![
        TableChange::DropConstraint { name: "c".to_string(), cascade: true },
        TableChange::AlterColumn { name: "b".to_string(), change: ColumnChange::SetNotNull },
    ];
    let mut both = first.clone();
    both.extend(second.clone());
    assert_eq!(
        pg.alter_table("t", &both),
        format!("{}{}", pg.alter_table("t", &first), pg.alter_table("t", &second))
    );
    assert_eq!(
        pg.alter_table("t", &second),
        "ALTER TABLE s.t DROP CONSTRAINT c CASCADE;\nALTER TABLE s.t ALTER COLUMN b SET NOT NULL;\n"
    );
}

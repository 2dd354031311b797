//! SQL dialects: the statements each one writes for the schema and
//! migration operations, and the PostgreSQL dialect.
use vstd::prelude::*;
use crate::migration::{ColumnChange, SpecColumnChange, SpecTableChange, TableChange};
use crate::rls::{
    enable_rls_statement, force_rls_statement, generate_policy_sql, policy_sql, Policy,
    SpecPolicy,
};
use crate::schema::{
    data_type_sql, Column, ConstraintType, Index, ReferentialAction, SpecColumn,
    SpecConstraint, SpecConstraintType, SpecIndex, SpecReference, SpecTable, Table,
    Constraint, Reference,
};
use crate::text::{
    concat, escape_quotes, escape_quotes_string, join, join_strings, lemma_concat_append,
    lemma_concat_push,
    lemma_occurs_append, lemma_occurs_in_concat, lemma_occurs_in_join, lemma_occurs_middle,
    lemma_occurs_suffix, lemma_occurs_trans, lemma_views_push, occurs_in, owned, views, wrap_opt,
    wrap_opt_string,
};

verus! {

broadcast use vstd::string::group_string_axioms;

/// A database dialect
pub trait Dialect: std::fmt::Debug {
    /// The text of [`Dialect::create_table`] for a table.
    spec fn create_table_spec(&self, table: SpecTable) -> Seq<char>;

    /// The text of [`Dialect::alter_table`].
    spec fn alter_table_spec(&self, table: Seq<char>, changes: Seq<SpecTableChange>) -> Seq<char>;

    /// The text of [`Dialect::drop_table`].
    spec fn drop_table_spec(&self, table: Seq<char>, cascade: bool) -> Seq<char>;

    /// The text of [`Dialect::create_rls_policy`].
    spec fn create_rls_policy_spec(&self, table: Seq<char>, policy: SpecPolicy) -> Seq<char>;

    /// The text of [`Dialect::drop_rls_policy`].
    spec fn drop_rls_policy_spec(&self, table: Seq<char>, policy: Seq<char>) -> Seq<char>;

    /// The text of [`Dialect::enable_rls`].
    spec fn enable_rls_spec(&self, table: Seq<char>, force: bool) -> Seq<char>;

    /// The text of [`Dialect::disable_rls`].
    spec fn disable_rls_spec(&self, table: Seq<char>) -> Seq<char>;

    /// Generate SQL to create a table
    fn create_table(&self, table: &Table) -> (r: String)
        ensures
            r@ == self.create_table_spec(table@),
    ;

    /// Generate SQL to alter a table
    fn alter_table(&self, table: &str, changes: &[TableChange]) -> (r: String)
        ensures
            r@ == self.alter_table_spec(table@, views(changes@)),
    ;

    /// Generate SQL to drop a table
    fn drop_table(&self, table: &str, cascade: bool) -> (r: String)
        ensures
            r@ == self.drop_table_spec(table@, cascade),
    ;

    /// Generate SQL to create an RLS policy
    fn create_rls_policy(&self, table: &str, policy: &Policy) -> (r: String)
        ensures
            r@ == self.create_rls_policy_spec(table@, policy@),
    ;

    /// Generate SQL to drop an RLS policy
    fn drop_rls_policy(&self, table: &str, policy: &str) -> (r: String)
        ensures
            r@ == self.drop_rls_policy_spec(table@, policy@),
    ;

    /// Generate SQL to enable RLS on a table
    fn enable_rls(&self, table: &str, force: bool) -> (r: String)
        ensures
            r@ == self.enable_rls_spec(table@, force),
    ;

    /// Generate SQL to disable RLS on a table
    fn disable_rls(&self, table: &str) -> (r: String)
        ensures
            r@ == self.disable_rls_spec(table@),
    ;
}

/// The PostgreSQL dialect
#[derive(Debug)]
pub struct PostgreSQL {
    /// Schema name (default: "public")
    pub schema: String,
}

impl Default for PostgreSQL {
    fn default() -> (r: Self)
        ensures
            r.schema@ == "public"@,
    {
        PostgreSQL { schema: owned("public") }
    }
}

/// `table`, prefixed by `schema.` unless the schema is empty or `public`.
pub open spec fn qualified_name(schema: Seq<char>, table: Seq<char>) -> Seq<char> {
    if schema.len() == 0 || schema == "public"@ {
        table
    } else {
        schema + "."@ + table
    }
}

/// The SQL words of a referential action (empty for no action).
pub open spec fn action_sql(a: ReferentialAction) -> Seq<char> {
    match a {
        ReferentialAction::NoAction => Seq::empty(),
        ReferentialAction::Restrict => "RESTRICT"@,
        ReferentialAction::Cascade => "CASCADE"@,
        ReferentialAction::SetNull => "SET NULL"@,
        ReferentialAction::SetDefault => "SET DEFAULT"@,
    }
}

/// ` ON DELETE <action>`, or nothing for no action.
pub open spec fn on_delete_clause(a: ReferentialAction) -> Seq<char> {
    if a == ReferentialAction::NoAction {
        Seq::empty()
    } else {
        " ON DELETE "@ + action_sql(a)
    }
}

/// ` ON UPDATE <action>`, or nothing for no action.
pub open spec fn on_update_clause(a: ReferentialAction) -> Seq<char> {
    if a == ReferentialAction::NoAction {
        Seq::empty()
    } else {
        " ON UPDATE "@ + action_sql(a)
    }
}

/// ` REFERENCES <table>(<columns>)` with the referential actions.
pub open spec fn references_target(
    schema: Seq<char>,
    table: Seq<char>,
    columns: Seq<char>,
    on_delete: ReferentialAction,
    on_update: ReferentialAction,
) -> Seq<char> {
    " REFERENCES "@ + qualified_name(schema, table) + "("@ + columns + ")"@ + on_delete_clause(
        on_delete,
    ) + on_update_clause(on_update)
}

/// The foreign key clause of a column, when it references another table.
pub open spec fn column_references(schema: Seq<char>, r: Option<SpecReference>) -> Seq<char> {
    match r {
        Some(r) => references_target(schema, r.table, r.column, r.on_delete, r.on_update),
        None => Seq::empty(),
    }
}

/// ` CHECK (<expr>)`.
pub open spec fn check_clause(expr: Seq<char>) -> Seq<char> {
    " CHECK ("@ + expr + ")"@
}

/// A column's check constraints, each as a ` CHECK (...)` clause.
pub open spec fn checks_sql(checks: Seq<Seq<char>>) -> Seq<char> {
    concat(checks.map_values(|c: Seq<char>| check_clause(c)))
}

/// `text` when `b` holds, nothing otherwise.
pub open spec fn when(b: bool, text: Seq<char>) -> Seq<char> {
    if b {
        text
    } else {
        Seq::empty()
    }
}

/// A column's definition inside `CREATE TABLE`.
pub open spec fn column_definition(schema: Seq<char>, c: SpecColumn) -> Seq<char> {
    "    "@ + c.name + " "@ + data_type_sql(c.data_type) + when(c.is_primary_key, " PRIMARY KEY"@)
        + when(!c.is_nullable && !c.is_primary_key, " NOT NULL"@) + when(
        c.is_unique && !c.is_primary_key,
        " UNIQUE"@,
    ) + wrap_opt(" DEFAULT "@, c.default_value, Seq::empty()) + column_references(
        schema,
        c.references,
    ) + checks_sql(c.check_constraints)
}

/// A named constraint, from `CONSTRAINT` on.
pub open spec fn constraint_body(schema: Seq<char>, k: SpecConstraint) -> Seq<char> {
    match k.constraint_type {
        SpecConstraintType::PrimaryKey(cols) => "CONSTRAINT "@ + k.name + " PRIMARY KEY ("@ + join(
            cols,
            ", "@,
        ) + ")"@,
        SpecConstraintType::ForeignKey {
            columns,
            referenced_table,
            referenced_columns,
            on_delete,
            on_update,
        } => "CONSTRAINT "@ + k.name + " FOREIGN KEY ("@ + join(columns, ", "@) + ")"@
            + references_target(
            schema,
            referenced_table,
            join(referenced_columns, ", "@),
            on_delete,
            on_update,
        ),
        SpecConstraintType::Unique(cols) => "CONSTRAINT "@ + k.name + " UNIQUE ("@ + join(
            cols,
            ", "@,
        ) + ")"@,
        SpecConstraintType::Check(expr) => "CONSTRAINT "@ + k.name + check_clause(expr),
    }
}

/// A constraint's definition inside `CREATE TABLE`.
pub open spec fn constraint_definition(schema: Seq<char>, k: SpecConstraint) -> Seq<char> {
    "    "@ + constraint_body(schema, k)
}

/// The column definitions, then the constraint definitions, of a table.
pub open spec fn table_definitions(schema: Seq<char>, t: SpecTable) -> Seq<Seq<char>> {
    t.columns.map_values(|c: SpecColumn| column_definition(schema, c)) + t.constraints.map_values(
        |k: SpecConstraint| constraint_definition(schema, k),
    )
}

/// `'<text>'` as an SQL string literal.
pub open spec fn sql_literal(text: Seq<char>) -> Seq<char> {
    "'"@ + escape_quotes(text) + "'"@
}

/// The `COMMENT ON TABLE` statement of a table with a comment.
pub open spec fn table_comment_sql(q: Seq<char>, comment: Option<Seq<char>>) -> Seq<char> {
    match comment {
        Some(c) => "\nCOMMENT ON TABLE "@ + q + " IS "@ + sql_literal(c) + ";\n"@,
        None => Seq::empty(),
    }
}

/// The `COMMENT ON COLUMN` statement of a column with a comment, inside
/// `CREATE TABLE` output.
pub open spec fn column_comment_sql(q: Seq<char>, c: SpecColumn) -> Seq<char> {
    match c.comment {
        Some(cm) => "\nCOMMENT ON COLUMN "@ + q + "."@ + c.name + " IS "@ + sql_literal(cm) + ";\n"@,
        None => Seq::empty(),
    }
}

/// The `CREATE INDEX` statement of an index on table `q`.
pub open spec fn index_sql(q: Seq<char>, ix: SpecIndex) -> Seq<char> {
    "\nCREATE"@ + when(ix.is_unique, " UNIQUE"@) + " INDEX "@ + ix.name + " ON "@ + q + wrap_opt(
        " USING "@,
        ix.method,
        Seq::empty(),
    ) + " ("@ + join(ix.columns, ", "@) + ");\n"@
}

/// A policy statement of `CREATE TABLE` output, on lines of its own.
pub open spec fn table_policy_sql(q: Seq<char>, p: SpecPolicy) -> Seq<char> {
    "\n"@ + policy_sql(q, p) + "\n"@
}

/// PostgreSQL's `CREATE TABLE` script for table `t` in `schema`: the table
/// with its column and constraint definitions, then the table and column
/// comments, the indexes, RLS activation and the policies.
pub open spec fn create_table_sql(schema: Seq<char>, t: SpecTable) -> Seq<char> {
    let q = qualified_name(schema, t.name);
    "CREATE TABLE "@ + q + " (\n"@ + join(table_definitions(schema, t), ",\n"@) + "\n);\n"@
        + table_comment_sql(q, t.comment) + concat(
        t.columns.map_values(|c: SpecColumn| column_comment_sql(q, c)),
    ) + concat(t.indexes.map_values(|ix: SpecIndex| index_sql(q, ix))) + when(
        t.rls_enabled,
        "\nALTER TABLE "@ + q + " ENABLE ROW LEVEL SECURITY;\n"@,
    ) + concat(t.rls_policies.map_values(|p: SpecPolicy| table_policy_sql(q, p)))
}

/// The `COMMENT ON COLUMN` statement of an added column with a comment.
pub open spec fn added_column_comment_sql(q: Seq<char>, c: SpecColumn) -> Seq<char> {
    match c.comment {
        Some(cm) => "COMMENT ON COLUMN "@ + q + "."@ + c.name + " IS "@ + sql_literal(cm) + ";\n"@,
        None => Seq::empty(),
    }
}

/// The `ALTER TABLE ... ADD COLUMN` statement for column `c` of table `q`,
/// then its comment.
pub open spec fn add_column_sql(schema: Seq<char>, q: Seq<char>, c: SpecColumn) -> Seq<char> {
    "ALTER TABLE "@ + q + " ADD COLUMN "@ + c.name + " "@ + data_type_sql(c.data_type) + when(
        !c.is_nullable,
        " NOT NULL"@,
    ) + wrap_opt(" DEFAULT "@, c.default_value, Seq::empty()) + when(c.is_unique, " UNIQUE"@)
        + column_references(schema, c.references) + ";\n"@ + added_column_comment_sql(q, c)
}

/// What an `ALTER COLUMN` does, after the column's name.
pub open spec fn column_change_action(ch: SpecColumnChange) -> Seq<char> {
    match ch {
        SpecColumnChange::SetDataType(d) => " TYPE "@ + data_type_sql(d),
        SpecColumnChange::SetNotNull => " SET NOT NULL"@,
        SpecColumnChange::DropNotNull => " DROP NOT NULL"@,
        SpecColumnChange::SetDefault(v) => " SET DEFAULT "@ + v,
        SpecColumnChange::DropDefault => " DROP DEFAULT"@,
    }
}

/// The statement for one change to table `q`.
pub open spec fn table_change_sql(schema: Seq<char>, q: Seq<char>, ch: SpecTableChange) -> Seq<char> {
    match ch {
        SpecTableChange::AddColumn(c) => add_column_sql(schema, q, c),
        SpecTableChange::DropColumn { name, cascade } => "ALTER TABLE "@ + q + " DROP COLUMN "@
            + name + when(cascade, " CASCADE"@) + ";\n"@,
        SpecTableChange::AlterColumn { name, change } => "ALTER TABLE "@ + q + " ALTER COLUMN "@
            + name + column_change_action(change) + ";\n"@,
        SpecTableChange::AddConstraint(k) => "ALTER TABLE "@ + q + " ADD "@ + constraint_body(
            schema,
            k,
        ) + ";\n"@,
        SpecTableChange::DropConstraint { name, cascade } => "ALTER TABLE "@ + q
            + " DROP CONSTRAINT "@ + name + when(cascade, " CASCADE"@) + ";\n"@,
        SpecTableChange::RenameTable { new_name } => "ALTER TABLE "@ + q + " RENAME TO "@ + new_name
            + ";\n"@,
        SpecTableChange::RenameColumn { old_name, new_name } => "ALTER TABLE "@ + q
            + " RENAME COLUMN "@ + old_name + " TO "@ + new_name + ";\n"@,
    }
}

/// PostgreSQL's statements for `changes` to `table`, one after another.
pub open spec fn alter_table_sql(schema: Seq<char>, table: Seq<char>, changes: Seq<SpecTableChange>) -> Seq<char> {
    let q = qualified_name(schema, table);
    concat(changes.map_values(|ch: SpecTableChange| table_change_sql(schema, q, ch)))
}

/// PostgreSQL's `DROP TABLE` statement.
pub open spec fn drop_table_sql(schema: Seq<char>, table: Seq<char>, cascade: bool) -> Seq<char> {
    "DROP TABLE "@ + qualified_name(schema, table) + when(cascade, " CASCADE"@) + ";\n"@
}

/// PostgreSQL's `DROP POLICY` statement.
pub open spec fn drop_policy_sql(schema: Seq<char>, table: Seq<char>, policy: Seq<char>) -> Seq<char> {
    "DROP POLICY "@ + policy + " ON "@ + qualified_name(schema, table) + ";\n"@
}

/// PostgreSQL's statements that enable (and, with `force`, force) RLS.
pub open spec fn enable_rls_sql(schema: Seq<char>, table: Seq<char>, force: bool) -> Seq<char> {
    let q = qualified_name(schema, table);
    "ALTER TABLE "@ + q + " ENABLE ROW LEVEL SECURITY;\n"@ + when(
        force,
        "ALTER TABLE "@ + q + " FORCE ROW LEVEL SECURITY;\n"@,
    )
}

/// PostgreSQL's statement that disables RLS.
pub open spec fn disable_rls_sql(schema: Seq<char>, table: Seq<char>) -> Seq<char> {
    "ALTER TABLE "@ + qualified_name(schema, table) + " DISABLE ROW LEVEL SECURITY;\n"@
}

fn action_clauses(on_delete: ReferentialAction, on_update: ReferentialAction) -> (r: String)
    ensures
        r@ == on_delete_clause(on_delete) + on_update_clause(on_update),
{
    let mut s = String::new();
    match on_delete {
        ReferentialAction::NoAction => {},
        ReferentialAction::Restrict => s.append(" ON DELETE RESTRICT"),
        ReferentialAction::Cascade => s.append(" ON DELETE CASCADE"),
        ReferentialAction::SetNull => s.append(" ON DELETE SET NULL"),
        ReferentialAction::SetDefault => s.append(" ON DELETE SET DEFAULT"),
    }
    let ghost mid = s@;
    proof {
        reveal_strlit(" ON DELETE RESTRICT");
        reveal_strlit(" ON DELETE CASCADE");
        reveal_strlit(" ON DELETE SET NULL");
        reveal_strlit(" ON DELETE SET DEFAULT");
        reveal_strlit(" ON DELETE ");
        reveal_strlit("RESTRICT");
        reveal_strlit("CASCADE");
        reveal_strlit("SET NULL");
        reveal_strlit("SET DEFAULT");
        assert(mid =~= on_delete_clause(on_delete));
    }
    match on_update {
        ReferentialAction::NoAction => {},
        ReferentialAction::Restrict => s.append(" ON UPDATE RESTRICT"),
        ReferentialAction::Cascade => s.append(" ON UPDATE CASCADE"),
        ReferentialAction::SetNull => s.append(" ON UPDATE SET NULL"),
        ReferentialAction::SetDefault => s.append(" ON UPDATE SET DEFAULT"),
    }
    proof {
        reveal_strlit(" ON UPDATE RESTRICT");
        reveal_strlit(" ON UPDATE CASCADE");
        reveal_strlit(" ON UPDATE SET NULL");
        reveal_strlit(" ON UPDATE SET DEFAULT");
        reveal_strlit(" ON UPDATE ");
        assert(s@ =~= mid + on_update_clause(on_update));
    }
    s
}

fn checks_string(checks: &Vec<String>) -> (r: String)
    ensures
        r@ == checks_sql(views(checks@)),
{
    let mut s = String::new();
    let mut i: usize = 0;
    while i < checks.len()
        invariant
            i <= checks.len(),
            s@ == concat(views(checks@).take(i as int).map_values(|c: Seq<char>| check_clause(c))),
        decreases checks.len() - i,
    {
        let ghost prev = views(checks@).take(i as int).map_values(|c: Seq<char>| check_clause(c));
        s.append(" CHECK (");
        s.append(checks[i].as_str());
        s.append(")");
        proof {
            lemma_concat_push(prev, check_clause(checks@[i as int]@));
            assert(views(checks@).take(i + 1).map_values(|c: Seq<char>| check_clause(c)) =~= prev.push(
                check_clause(checks@[i as int]@),
            ));
        }
        i = i + 1;
    }
    assert(views(checks@).take(checks.len() as int) =~= views(checks@));
    s
}

fn comment_literal(text: &str) -> (r: String)
    ensures
        r@ == sql_literal(text@),
{
    let escaped = escape_quotes_string(text);
    let mut s = owned("'");
    s.append(escaped.as_str());
    s.append("'");
    s
}

impl PostgreSQL {
    /// Create a new PostgreSQL dialect with the default schema
    pub fn new() -> (r: Self)
        ensures
            r.schema@ == "public"@,
    {
        Self::default()
    }

    /// Create a new PostgreSQL dialect with the given schema
    pub fn with_schema(schema: &str) -> (r: Self)
        ensures
            r.schema@ == schema@,
    {
        PostgreSQL { schema: owned(schema) }
    }

    /// Get the fully qualified table name (schema.table)
    fn qualified_table_name(&self, table: &str) -> (r: String)
        ensures
            r@ == qualified_name(self.schema@, table@),
    {
        let public = owned("public");
        if self.schema.as_str().is_empty() || self.schema == public {
            owned(table)
        } else {
            let mut s = self.schema.clone();
            s.append(".");
            s.append(table);
            s
        }
    }

    fn references_target_string(
        &self,
        table: &str,
        columns: &str,
        on_delete: ReferentialAction,
        on_update: ReferentialAction,
    ) -> (r: String)
        ensures
            r@ == references_target(self.schema@, table@, columns@, on_delete, on_update),
    {
        let q = self.qualified_table_name(table);
        let actions = action_clauses(on_delete, on_update);
        let mut s = owned(" REFERENCES ");
        s.append(q.as_str());
        s.append("(");
        s.append(columns);
        s.append(")");
        s.append(actions.as_str());
        s
    }

    fn column_references_string(&self, r: &Option<Reference>) -> (out: String)
        ensures
            out@ == column_references(self.schema@, crate::schema::opt_reference_view(*r)),
    {
        match r {
            Some(r) => self.references_target_string(
                r.table.as_str(),
                r.column.as_str(),
                r.on_delete,
                r.on_update,
            ),
            None => String::new(),
        }
    }

    fn column_definition_string(&self, c: &Column) -> (r: String)
        ensures
            r@ == column_definition(self.schema@, c@),
    {
        let type_text = c.data_type.sql_name();
        let mut s = owned("    ");
        s.append(c.name.as_str());
        s.append(" ");
        s.append(type_text.as_str());
        if c.is_primary_key {
            s.append(" PRIMARY KEY");
        }
        if !c.is_nullable && !c.is_primary_key {
            s.append(" NOT NULL");
        }
        if c.is_unique && !c.is_primary_key {
            s.append(" UNIQUE");
        }
        let default_clause = wrap_opt_string(" DEFAULT ", &c.default_value, "");
        s.append(default_clause.as_str());
        let refs = self.column_references_string(&c.references);
        s.append(refs.as_str());
        let checks = checks_string(&c.check_constraints);
        s.append(checks.as_str());
        proof {
            reveal_strlit("");
        }
        assert(s@ =~= column_definition(self.schema@, c@));
        s
    }

    fn constraint_body_string(&self, k: &Constraint) -> (r: String)
        ensures
            r@ == constraint_body(self.schema@, k@),
    {
        let mut s = owned("CONSTRAINT ");
        s.append(k.name.as_str());
        match &k.constraint_type {
            ConstraintType::PrimaryKey(cols) => {
                let list = join_strings(cols, ", ");
                s.append(" PRIMARY KEY (");
                s.append(list.as_str());
                s.append(")");
            },
            ConstraintType::ForeignKey {
                columns,
                referenced_table,
                referenced_columns,
                on_delete,
                on_update,
            } => {
                let list = join_strings(columns, ", ");
                let targets = join_strings(referenced_columns, ", ");
                let target = self.references_target_string(
                    referenced_table.as_str(),
                    targets.as_str(),
                    *on_delete,
                    *on_update,
                );
                s.append(" FOREIGN KEY (");
                s.append(list.as_str());
                s.append(")");
                s.append(target.as_str());
            },
            ConstraintType::Unique(cols) => {
                let list = join_strings(cols, ", ");
                s.append(" UNIQUE (");
                s.append(list.as_str());
                s.append(")");
            },
            ConstraintType::Check(expr) => {
                s.append(" CHECK (");
                s.append(expr.as_str());
                s.append(")");
            },
        }
        assert(s@ =~= constraint_body(self.schema@, k@));
        s
    }

    fn definitions_block(&self, t: &Table) -> (r: String)
        ensures
            r@ == join(table_definitions(self.schema@, t@), ",\n"@),
    {
        let ghost schema = self.schema@;
        let ghost col_defs = t@.columns.map_values(|c: SpecColumn| column_definition(schema, c));
        let ghost con_defs = t@.constraints.map_values(
            |k: SpecConstraint| constraint_definition(schema, k),
        );
        let mut defs: Vec<String> = Vec::new();
        let mut i: usize = 0;
        while i < t.columns.len()
            invariant
                i <= t.columns.len(),
                schema == self.schema@,
                col_defs == t@.columns.map_values(|c: SpecColumn| column_definition(schema, c)),
                views(defs@) =~= col_defs.take(i as int),
            decreases t.columns.len() - i,
        {
            let d = self.column_definition_string(&t.columns[i]);
            proof {
                lemma_views_push(defs@, d);
            }
            defs.push(d);
            assert(col_defs.take(i + 1) =~= col_defs.take(i as int).push(col_defs[i as int]));
            i = i + 1;
        }
        assert(col_defs.take(t.columns.len() as int) =~= col_defs);
        let mut j: usize = 0;
        while j < t.constraints.len()
            invariant
                j <= t.constraints.len(),
                schema == self.schema@,
                con_defs == t@.constraints.map_values(
                    |k: SpecConstraint| constraint_definition(schema, k),
                ),
                views(defs@) =~= col_defs + con_defs.take(j as int),
            decreases t.constraints.len() - j,
        {
            let body = self.constraint_body_string(&t.constraints[j]);
            let mut d = owned("    ");
            d.append(body.as_str());
            proof {
                lemma_views_push(defs@, d);
            }
            defs.push(d);
            assert(col_defs + con_defs.take(j + 1) =~= (col_defs + con_defs.take(j as int)).push(
                con_defs[j as int],
            ));
            j = j + 1;
        }
        assert(con_defs.take(t.constraints.len() as int) =~= con_defs);
        assert(views(defs@) =~= table_definitions(self.schema@, t@));
        join_strings(&defs, ",\n")
    }

    fn column_comments(q: &str, columns: &Vec<Column>) -> (r: String)
        ensures
            r@ == concat(views(columns@).map_values(|c: SpecColumn| column_comment_sql(q@, c))),
    {
        let ghost items = views(columns@).map_values(|c: SpecColumn| column_comment_sql(q@, c));
        let mut s = String::new();
        let mut i: usize = 0;
        while i < columns.len()
            invariant
                i <= columns.len(),
                items == views(columns@).map_values(|c: SpecColumn| column_comment_sql(q@, c)),
                s@ == concat(items.take(i as int)),
            decreases columns.len() - i,
        {
            let ghost prev = s@;
            match &columns[i].comment {
                Some(cm) => {
                    let lit = comment_literal(cm.as_str());
                    s.append("\nCOMMENT ON COLUMN ");
                    s.append(q);
                    s.append(".");
                    s.append(columns[i].name.as_str());
                    s.append(" IS ");
                    s.append(lit.as_str());
                    s.append(";\n");
                },
                None => {},
            }
            proof {
                assert(s@ =~= prev + items[i as int]);
                lemma_concat_push(items.take(i as int), items[i as int]);
                assert(items.take(i + 1) =~= items.take(i as int).push(items[i as int]));
            }
            i = i + 1;
        }
        assert(items.take(columns.len() as int) =~= items);
        s
    }

    fn index_statement(q: &str, ix: &Index) -> (r: String)
        ensures
            r@ == index_sql(q@, ix@),
    {
        let mut s = owned("\nCREATE");
        if ix.is_unique {
            s.append(" UNIQUE");
        }
        s.append(" INDEX ");
        s.append(ix.name.as_str());
        s.append(" ON ");
        s.append(q);
        let method = wrap_opt_string(" USING ", &ix.method, "");
        s.append(method.as_str());
        let cols = join_strings(&ix.columns, ", ");
        s.append(" (");
        s.append(cols.as_str());
        s.append(");\n");
        proof {
            reveal_strlit("");
        }
        assert(s@ =~= index_sql(q@, ix@));
        s
    }

    fn index_statements(q: &str, indexes: &Vec<Index>) -> (r: String)
        ensures
            r@ == concat(views(indexes@).map_values(|ix: SpecIndex| index_sql(q@, ix))),
    {
        let ghost items = views(indexes@).map_values(|ix: SpecIndex| index_sql(q@, ix));
        let mut s = String::new();
        let mut i: usize = 0;
        while i < indexes.len()
            invariant
                i <= indexes.len(),
                items == views(indexes@).map_values(|ix: SpecIndex| index_sql(q@, ix)),
                s@ == concat(items.take(i as int)),
            decreases indexes.len() - i,
        {
            let stmt = Self::index_statement(q, &indexes[i]);
            proof {
                lemma_concat_push(items.take(i as int), items[i as int]);
                assert(items.take(i + 1) =~= items.take(i as int).push(items[i as int]));
            }
            s.append(stmt.as_str());
            i = i + 1;
        }
        assert(items.take(indexes.len() as int) =~= items);
        s
    }

    fn policy_statements(q: &str, policies: &Vec<Policy>) -> (r: String)
        ensures
            r@ == concat(views(policies@).map_values(|p: SpecPolicy| table_policy_sql(q@, p))),
    {
        let ghost items = views(policies@).map_values(|p: SpecPolicy| table_policy_sql(q@, p));
        let mut s = String::new();
        let mut i: usize = 0;
        while i < policies.len()
            invariant
                i <= policies.len(),
                items == views(policies@).map_values(|p: SpecPolicy| table_policy_sql(q@, p)),
                s@ == concat(items.take(i as int)),
            decreases policies.len() - i,
        {
            let ghost prev = s@;
            let stmt = generate_policy_sql(q, &policies[i]);
            s.append("\n");
            s.append(stmt.as_str());
            s.append("\n");
            proof {
                assert(s@ =~= prev + items[i as int]);
                lemma_concat_push(items.take(i as int), items[i as int]);
                assert(items.take(i + 1) =~= items.take(i as int).push(items[i as int]));
            }
            i = i + 1;
        }
        assert(items.take(policies.len() as int) =~= items);
        s
    }
}

impl PostgreSQL {
    fn add_column_string(&self, q: &str, c: &Column) -> (r: String)
        ensures
            r@ == add_column_sql(self.schema@, q@, c@),
    {
        let type_text = c.data_type.sql_name();
        let mut s = owned("ALTER TABLE ");
        s.append(q);
        s.append(" ADD COLUMN ");
        s.append(c.name.as_str());
        s.append(" ");
        s.append(type_text.as_str());
        if !c.is_nullable {
            s.append(" NOT NULL");
        }
        let default_clause = wrap_opt_string(" DEFAULT ", &c.default_value, "");
        s.append(default_clause.as_str());
        if c.is_unique {
            s.append(" UNIQUE");
        }
        let refs = self.column_references_string(&c.references);
        s.append(refs.as_str());
        s.append(";\n");
        let ghost before_comment = s@;
        match &c.comment {
            Some(cm) => {
                let lit = comment_literal(cm.as_str());
                s.append("COMMENT ON COLUMN ");
                s.append(q);
                s.append(".");
                s.append(c.name.as_str());
                s.append(" IS ");
                s.append(lit.as_str());
                s.append(";\n");
            },
            None => {},
        }
        proof {
            reveal_strlit("");
        }
        assert(s@ =~= before_comment + added_column_comment_sql(q@, c@));
        assert(s@ =~= add_column_sql(self.schema@, q@, c@));
        s
    }

    fn table_change_string(&self, q: &str, change: &TableChange) -> (r: String)
        ensures
            r@ == table_change_sql(self.schema@, q@, change@),
    {
        match change {
            TableChange::AddColumn(column) => self.add_column_string(q, column),
            TableChange::DropColumn { name, cascade } => {
                let mut s = owned("ALTER TABLE ");
                s.append(q);
                s.append(" DROP COLUMN ");
                s.append(name.as_str());
                if *cascade {
                    s.append(" CASCADE");
                }
                s.append(";\n");
                assert(s@ =~= table_change_sql(self.schema@, q@, change@));
                s
            },
            TableChange::AlterColumn { name, change: column_change } => {
                let mut s = owned("ALTER TABLE ");
                s.append(q);
                s.append(" ALTER COLUMN ");
                s.append(name.as_str());
                match column_change {
                    ColumnChange::SetDataType(data_type) => {
                        let type_text = data_type.sql_name();
                        s.append(" TYPE ");
                        s.append(type_text.as_str());
                    },
                    ColumnChange::SetNotNull => s.append(" SET NOT NULL"),
                    ColumnChange::DropNotNull => s.append(" DROP NOT NULL"),
                    ColumnChange::SetDefault(value) => {
                        s.append(" SET DEFAULT ");
                        s.append(value.as_str());
                    },
                    ColumnChange::DropDefault => s.append(" DROP DEFAULT"),
                }
                s.append(";\n");
                assert(s@ =~= table_change_sql(self.schema@, q@, change@));
                s
            },
            TableChange::AddConstraint(constraint) => {
                let body = self.constraint_body_string(constraint);
                let mut s = owned("ALTER TABLE ");
                s.append(q);
                s.append(" ADD ");
                s.append(body.as_str());
                s.append(";\n");
                assert(s@ =~= table_change_sql(self.schema@, q@, change@));
                s
            },
            TableChange::DropConstraint { name, cascade } => {
                let mut s = owned("ALTER TABLE ");
                s.append(q);
                s.append(" DROP CONSTRAINT ");
                s.append(name.as_str());
                if *cascade {
                    s.append(" CASCADE");
                }
                s.append(";\n");
                assert(s@ =~= table_change_sql(self.schema@, q@, change@));
                s
            },
            TableChange::RenameTable { new_name } => {
                let mut s = owned("ALTER TABLE ");
                s.append(q);
                s.append(" RENAME TO ");
                s.append(new_name.as_str());
                s.append(";\n");
                assert(s@ =~= table_change_sql(self.schema@, q@, change@));
                s
            },
            TableChange::RenameColumn { old_name, new_name } => {
                let mut s = owned("ALTER TABLE ");
                s.append(q);
                s.append(" RENAME COLUMN ");
                s.append(old_name.as_str());
                s.append(" TO ");
                s.append(new_name.as_str());
                s.append(";\n");
                assert(s@ =~= table_change_sql(self.schema@, q@, change@));
                s
            },
        }
    }
}

impl Dialect for PostgreSQL {
    open spec fn create_table_spec(&self, table: SpecTable) -> Seq<char> {
        create_table_sql(self.schema@, table)
    }

    open spec fn alter_table_spec(&self, table: Seq<char>, changes: Seq<SpecTableChange>) -> Seq<char> {
        alter_table_sql(self.schema@, table, changes)
    }

    open spec fn drop_table_spec(&self, table: Seq<char>, cascade: bool) -> Seq<char> {
        drop_table_sql(self.schema@, table, cascade)
    }

    open spec fn create_rls_policy_spec(&self, table: Seq<char>, policy: SpecPolicy) -> Seq<char> {
        policy_sql(qualified_name(self.schema@, table), policy)
    }

    open spec fn drop_rls_policy_spec(&self, table: Seq<char>, policy: Seq<char>) -> Seq<char> {
        drop_policy_sql(self.schema@, table, policy)
    }

    open spec fn enable_rls_spec(&self, table: Seq<char>, force: bool) -> Seq<char> {
        enable_rls_sql(self.schema@, table, force)
    }

    open spec fn disable_rls_spec(&self, table: Seq<char>) -> Seq<char> {
        disable_rls_sql(self.schema@, table)
    }

    fn create_table(&self, table: &Table) -> (r: String) {
        let q = self.qualified_table_name(table.name.as_str());
        let defs = self.definitions_block(table);
        let mut sql = owned("CREATE TABLE ");
        sql.append(q.as_str());
        sql.append(" (\n");
        sql.append(defs.as_str());
        sql.append("\n);\n");
        let ghost before_comment = sql@;
        match &table.comment {
            Some(comment) => {
                let lit = comment_literal(comment.as_str());
                sql.append("\nCOMMENT ON TABLE ");
                sql.append(q.as_str());
                sql.append(" IS ");
                sql.append(lit.as_str());
                sql.append(";\n");
            },
            None => {},
        }
        assert(sql@ =~= before_comment + table_comment_sql(q@, table@.comment));
        let column_comments = Self::column_comments(q.as_str(), &table.columns);
        sql.append(column_comments.as_str());
        let indexes = Self::index_statements(q.as_str(), &table.indexes);
        sql.append(indexes.as_str());
        let ghost before_rls = sql@;
        if table.rls_enabled {
            sql.append("\nALTER TABLE ");
            sql.append(q.as_str());
            sql.append(" ENABLE ROW LEVEL SECURITY;\n");
        }
        assert(sql@ =~= before_rls + when(
            table@.rls_enabled,
            "\nALTER TABLE "@ + q@ + " ENABLE ROW LEVEL SECURITY;\n"@,
        ));
        let policies = Self::policy_statements(q.as_str(), &table.rls_policies);
        sql.append(policies.as_str());
        assert(sql@ =~= create_table_sql(self.schema@, table@));
        sql
    }

    fn alter_table(&self, table: &str, changes: &[TableChange]) -> (r: String) {
        let q = self.qualified_table_name(table);
        let ghost schema = self.schema@;
        let ghost items = views(changes@).map_values(
            |ch: SpecTableChange| table_change_sql(schema, q@, ch),
        );
        let mut sql = String::new();
        let mut i: usize = 0;
        while i < changes.len()
            invariant
                i <= changes.len(),
                schema == self.schema@,
                items == views(changes@).map_values(
                    |ch: SpecTableChange| table_change_sql(schema, q@, ch),
                ),
                sql@ == concat(items.take(i as int)),
            decreases changes.len() - i,
        {
            let stmt = self.table_change_string(q.as_str(), &changes[i]);
            proof {
                lemma_concat_push(items.take(i as int), items[i as int]);
                assert(items.take(i + 1) =~= items.take(i as int).push(items[i as int]));
            }
            sql.append(stmt.as_str());
            i = i + 1;
        }
        assert(items.take(changes.len() as int) =~= items);
        sql
    }

    fn drop_table(&self, table: &str, cascade: bool) -> (r: String) {
        let q = self.qualified_table_name(table);
        let mut sql = owned("DROP TABLE ");
        sql.append(q.as_str());
        if cascade {
            sql.append(" CASCADE");
        }
        sql.append(";\n");
        assert(sql@ =~= drop_table_sql(self.schema@, table@, cascade));
        sql
    }

    fn create_rls_policy(&self, table: &str, policy: &Policy) -> (r: String) {
        let q = self.qualified_table_name(table);
        generate_policy_sql(q.as_str(), policy)
    }

    fn drop_rls_policy(&self, table: &str, policy: &str) -> (r: String) {
        let q = self.qualified_table_name(table);
        let mut sql = owned("DROP POLICY ");
        sql.append(policy);
        sql.append(" ON ");
        sql.append(q.as_str());
        sql.append(";\n");
        sql
    }

    fn enable_rls(&self, table: &str, force: bool) -> (r: String) {
        let q = self.qualified_table_name(table);
        let mut sql = owned("ALTER TABLE ");
        sql.append(q.as_str());
        sql.append(" ENABLE ROW LEVEL SECURITY;\n");
        if force {
            sql.append("ALTER TABLE ");
            sql.append(q.as_str());
            sql.append(" FORCE ROW LEVEL SECURITY;\n");
        }
        assert(sql@ =~= enable_rls_sql(self.schema@, table@, force));
        sql
    }

    fn disable_rls(&self, table: &str) -> (r: String) {
        let q = self.qualified_table_name(table);
        let mut sql = owned("ALTER TABLE ");
        sql.append(q.as_str());
        sql.append(" DISABLE ROW LEVEL SECURITY;\n");
        sql
    }
}

/// `CREATE TABLE` output opens with `CREATE TABLE <name> (` and holds the
/// definition of every column and of every constraint.
pub proof fn law_create_table_defines_everything(schema: Seq<char>, t: SpecTable, i: int, j: int)
    ensures
        ("CREATE TABLE "@ + qualified_name(schema, t.name) + " (\n"@).is_prefix_of(
            create_table_sql(schema, t),
        ),
        0 <= i < t.columns.len() ==> occurs_in(
            column_definition(schema, t.columns[i]),
            create_table_sql(schema, t),
        ),
        0 <= j < t.constraints.len() ==> occurs_in(
            constraint_definition(schema, t.constraints[j]),
            create_table_sql(schema, t),
        ),
{
    let q = qualified_name(schema, t.name);
    let head = "CREATE TABLE "@ + q + " (\n"@;
    let defs = table_definitions(schema, t);
    let block = join(defs, ",\n"@);
    let a = "\n);\n"@ + table_comment_sql(q, t.comment) + concat(
        t.columns.map_values(|c: SpecColumn| column_comment_sql(q, c)),
    ) + concat(t.indexes.map_values(|ix: SpecIndex| index_sql(q, ix))) + when(
        t.rls_enabled,
        "\nALTER TABLE "@ + q + " ENABLE ROW LEVEL SECURITY;\n"@,
    ) + concat(t.rls_policies.map_values(|p: SpecPolicy| table_policy_sql(q, p)));
    let sql = create_table_sql(schema, t);
    assert(sql =~= head + block + a);
    assert(sql.subrange(0, head.len() as int) =~= head);
    lemma_occurs_suffix(head, block);
    lemma_occurs_append(block, head + block, a);
    let ncols = t.columns.len() as int;
    if 0 <= i < ncols {
        assert(defs[i] == column_definition(schema, t.columns[i]));
        lemma_occurs_in_join(defs, ",\n"@, i);
        lemma_occurs_trans(defs[i], block, sql);
    }
    if 0 <= j < t.constraints.len() {
        assert(defs[ncols + j] == constraint_definition(schema, t.constraints[j]));
        lemma_occurs_in_join(defs, ",\n"@, ncols + j);
        lemma_occurs_trans(defs[ncols + j], block, sql);
    }
}

/// `CREATE TABLE` output for a table with RLS enabled (which every table
/// with a policy has) enables row level security on it, and holds the SQL
/// of each of its policies.
pub proof fn law_create_table_rls(schema: Seq<char>, t: SpecTable, i: int)
    ensures
        t.rls_enabled ==> occurs_in(
            "ALTER TABLE "@ + qualified_name(schema, t.name) + " ENABLE ROW LEVEL SECURITY;"@,
            create_table_sql(schema, t),
        ),
        0 <= i < t.rls_policies.len() ==> occurs_in(
            policy_sql(qualified_name(schema, t.name), t.rls_policies[i]),
            create_table_sql(schema, t),
        ),
{
    let q = qualified_name(schema, t.name);
    let before = "CREATE TABLE "@ + q + " (\n"@ + join(table_definitions(schema, t), ",\n"@)
        + "\n);\n"@ + table_comment_sql(q, t.comment) + concat(
        t.columns.map_values(|c: SpecColumn| column_comment_sql(q, c)),
    ) + concat(t.indexes.map_values(|ix: SpecIndex| index_sql(q, ix)));
    let enable = when(t.rls_enabled, "\nALTER TABLE "@ + q + " ENABLE ROW LEVEL SECURITY;\n"@);
    let policies = t.rls_policies.map_values(|p: SpecPolicy| table_policy_sql(q, p));
    let sql = create_table_sql(schema, t);
    assert(sql == before + enable + concat(policies));
    if t.rls_enabled {
        let needle = "ALTER TABLE "@ + q + " ENABLE ROW LEVEL SECURITY;"@;
        reveal_strlit("\nALTER TABLE ");
        reveal_strlit("ALTER TABLE ");
        reveal_strlit(" ENABLE ROW LEVEL SECURITY;\n");
        reveal_strlit(" ENABLE ROW LEVEL SECURITY;");
        reveal_strlit("\n");
        assert(enable =~= "\n"@ + needle + "\n"@);
        lemma_occurs_middle("\n"@, needle, "\n"@);
        lemma_occurs_suffix(before, enable);
        lemma_occurs_trans(needle, enable, before + enable);
        lemma_occurs_append(needle, before + enable, concat(policies));
    }
    if 0 <= i < t.rls_policies.len() {
        let ps = policy_sql(q, t.rls_policies[i]);
        lemma_occurs_middle("\n"@, ps, "\n"@);
        lemma_occurs_in_concat(policies, i);
        lemma_occurs_trans(ps, policies[i], concat(policies));
        lemma_occurs_suffix(before + enable, concat(policies));
        lemma_occurs_trans(ps, concat(policies), sql);
    }
}

/// Adding a policy to a table (which enables RLS on it) makes its
/// `CREATE TABLE` output enable row level security and create the policy.
pub proof fn law_added_policy_is_created(schema: Seq<char>, t: SpecTable, p: SpecPolicy)
    ensures
        ({
            let with_policy = SpecTable {
                rls_enabled: true,
                rls_policies: t.rls_policies.push(p),
                ..t
            };
            let q = qualified_name(schema, t.name);
            &&& occurs_in(
                "ALTER TABLE "@ + q + " ENABLE ROW LEVEL SECURITY;"@,
                create_table_sql(schema, with_policy),
            )
            &&& occurs_in(policy_sql(q, p), create_table_sql(schema, with_policy))
        }),
{
    let with_policy = SpecTable { rls_enabled: true, rls_policies: t.rls_policies.push(p), ..t };
    law_create_table_rls(schema, with_policy, t.rls_policies.len() as int);
}

/// The statements for a list of changes are those for its first part
/// followed by those for the rest: each change is written on its own, in
/// order.
pub proof fn law_alter_table_concatenates(
    schema: Seq<char>,
    table: Seq<char>,
    a: Seq<SpecTableChange>,
    b: Seq<SpecTableChange>,
)
    ensures
        alter_table_sql(schema, table, a + b) == alter_table_sql(schema, table, a)
            + alter_table_sql(schema, table, b),
{
    let q = qualified_name(schema, table);
    let f = |ch: SpecTableChange| table_change_sql(schema, q, ch);
    assert((a + b).map_values(f) =~= a.map_values(f) + b.map_values(f));
    lemma_concat_append(a.map_values(f), b.map_values(f));
}

/// The statements with which the dialect enables RLS are those of
/// `generate_enable_rls_sql` and, when forced, `generate_force_rls_sql`,
/// each on a line of its own.
pub proof fn law_enable_rls_statements(schema: Seq<char>, table: Seq<char>, force: bool)
    ensures
        enable_rls_sql(schema, table, force) == enable_rls_statement(qualified_name(schema, table))
            + "\n"@ + when(force, force_rls_statement(qualified_name(schema, table)) + "\n"@),
{
    reveal_strlit(" ENABLE ROW LEVEL SECURITY;\n");
    reveal_strlit(" ENABLE ROW LEVEL SECURITY;");
    reveal_strlit(" FORCE ROW LEVEL SECURITY;\n");
    reveal_strlit(" FORCE ROW LEVEL SECURITY;");
    reveal_strlit("\n");
    let q = qualified_name(schema, table);
    assert("ALTER TABLE "@ + q + " ENABLE ROW LEVEL SECURITY;\n"@ =~= enable_rls_statement(q)
        + "\n"@);
    assert("ALTER TABLE "@ + q + " FORCE ROW LEVEL SECURITY;\n"@ =~= force_rls_statement(q)
        + "\n"@);
}

/// Two schema names that qualify every table name alike give the same
/// `CREATE TABLE` output and the same `ALTER TABLE` statements.
pub proof fn lemma_same_qualification(
    s1: Seq<char>,
    s2: Seq<char>,
    t: SpecTable,
    table: Seq<char>,
    changes: Seq<SpecTableChange>,
)
    requires
        forall|x: Seq<char>| #[trigger] qualified_name(s1, x) == qualified_name(s2, x),
    ensures
        create_table_sql(s1, t) == create_table_sql(s2, t),
        alter_table_sql(s1, table, changes) == alter_table_sql(s2, table, changes),
{
    assert forall|c: SpecColumn| column_definition(s1, c) == column_definition(s2, c) by {
        match c.references {
            Some(r) => {
                assert(qualified_name(s1, r.table) == qualified_name(s2, r.table));
            },
            None => {},
        }
    }
    assert forall|k: SpecConstraint| constraint_body(s1, k) == constraint_body(s2, k) by {
        match k.constraint_type {
            SpecConstraintType::ForeignKey { referenced_table, .. } => {
                assert(qualified_name(s1, referenced_table) == qualified_name(s2, referenced_table));
            },
            _ => {},
        }
    }
    assert(table_definitions(s1, t) =~= table_definitions(s2, t));
    assert(qualified_name(s1, t.name) == qualified_name(s2, t.name));
    let q = qualified_name(s1, table);
    assert(q == qualified_name(s2, table));
    assert forall|ch: SpecTableChange| table_change_sql(s1, q, ch) == table_change_sql(s2, q, ch) by {
        match ch {
            SpecTableChange::AddColumn(c) => {
                match c.references {
                    Some(r) => {
                        assert(qualified_name(s1, r.table) == qualified_name(s2, r.table));
                    },
                    None => {},
                }
            },
            _ => {},
        }
    }
    assert(changes.map_values(|ch: SpecTableChange| table_change_sql(s1, q, ch))
        =~= changes.map_values(|ch: SpecTableChange| table_change_sql(s2, q, ch)));
}

/// The empty schema name and `public` leave every table name unqualified.
pub proof fn lemma_public_is_unqualified(x: Seq<char>)
    ensures
        qualified_name(Seq::empty(), x) == x,
        qualified_name("public"@, x) == x,
{
}


/// The foreign key clause names the referenced table (schema-qualified) and
/// columns, then writes each referential action other than `NO ACTION` in
/// PostgreSQL's own words: `ON DELETE` first, then `ON UPDATE`.
pub proof fn law_references_clause_words(
    schema: Seq<char>,
    table: Seq<char>,
    columns: Seq<char>,
    on_delete: ReferentialAction,
    on_update: ReferentialAction,
)
    ensures
        references_target(schema, table, columns, on_delete, on_update) == " REFERENCES "@
            + qualified_name(schema, table) + "("@ + columns + ")"@ + (match on_delete {
            ReferentialAction::NoAction => Seq::<char>::empty(),
            ReferentialAction::Restrict => " ON DELETE RESTRICT"@,
            ReferentialAction::Cascade => " ON DELETE CASCADE"@,
            ReferentialAction::SetNull => " ON DELETE SET NULL"@,
            ReferentialAction::SetDefault => " ON DELETE SET DEFAULT"@,
        }) + (match on_update {
            ReferentialAction::NoAction => Seq::<char>::empty(),
            ReferentialAction::Restrict => " ON UPDATE RESTRICT"@,
            ReferentialAction::Cascade => " ON UPDATE CASCADE"@,
            ReferentialAction::SetNull => " ON UPDATE SET NULL"@,
            ReferentialAction::SetDefault => " ON UPDATE SET DEFAULT"@,
        }),
{
    reveal_strlit(" ON DELETE ");
    reveal_strlit(" ON UPDATE ");
    reveal_strlit("RESTRICT");
    reveal_strlit("CASCADE");
    reveal_strlit("SET NULL");
    reveal_strlit("SET DEFAULT");
    reveal_strlit(" ON DELETE RESTRICT");
    reveal_strlit(" ON DELETE CASCADE");
    reveal_strlit(" ON DELETE SET NULL");
    reveal_strlit(" ON DELETE SET DEFAULT");
    reveal_strlit(" ON UPDATE RESTRICT");
    reveal_strlit(" ON UPDATE CASCADE");
    reveal_strlit(" ON UPDATE SET NULL");
    reveal_strlit(" ON UPDATE SET DEFAULT");
    let d = on_delete_clause(on_delete);
    let u = on_update_clause(on_update);
    assert(d =~= (match on_delete {
        ReferentialAction::NoAction => Seq::<char>::empty(),
        ReferentialAction::Restrict => " ON DELETE RESTRICT"@,
        ReferentialAction::Cascade => " ON DELETE CASCADE"@,
        ReferentialAction::SetNull => " ON DELETE SET NULL"@,
        ReferentialAction::SetDefault => " ON DELETE SET DEFAULT"@,
    }));
    assert(u =~= (match on_update {
        ReferentialAction::NoAction => Seq::<char>::empty(),
        ReferentialAction::Restrict => " ON UPDATE RESTRICT"@,
        ReferentialAction::Cascade => " ON UPDATE CASCADE"@,
        ReferentialAction::SetNull => " ON UPDATE SET NULL"@,
        ReferentialAction::SetDefault => " ON UPDATE SET DEFAULT"@,
    }));
}


/// `CREATE TABLE` output carries every foreign key: each column that
/// references another table has its `REFERENCES` clause with its actions,
/// and each `FOREIGN KEY` constraint has its columns and that clause.
pub proof fn law_create_table_foreign_keys(schema: Seq<char>, t: SpecTable, i: int, j: int)
    ensures
        0 <= i < t.columns.len() ==> (t.columns[i].references matches Some(r) ==> occurs_in(
            references_target(schema, r.table, r.column, r.on_delete, r.on_update),
            create_table_sql(schema, t),
        )),
        0 <= j < t.constraints.len() ==> (t.constraints[j].constraint_type matches SpecConstraintType::ForeignKey {
            columns,
            referenced_table,
            referenced_columns,
            on_delete,
            on_update,
        } ==> occurs_in(
            " FOREIGN KEY ("@ + join(columns, ", "@) + ")"@ + references_target(
                schema,
                referenced_table,
                join(referenced_columns, ", "@),
                on_delete,
                on_update,
            ),
            create_table_sql(schema, t),
        )),
{
    law_create_table_defines_everything(schema, t, i, j);
    if 0 <= i < t.columns.len() {
        let c = t.columns[i];
        if let Some(r) = c.references {
            let refs = column_references(schema, c.references);
            let before = "    "@ + c.name + " "@ + data_type_sql(c.data_type) + when(
                c.is_primary_key,
                " PRIMARY KEY"@,
            ) + when(!c.is_nullable && !c.is_primary_key, " NOT NULL"@) + when(
                c.is_unique && !c.is_primary_key,
                " UNIQUE"@,
            ) + wrap_opt(" DEFAULT "@, c.default_value, Seq::empty());
            assert(column_definition(schema, c) == before + refs + checks_sql(c.check_constraints));
            lemma_occurs_middle(before, refs, checks_sql(c.check_constraints));
            lemma_occurs_trans(refs, column_definition(schema, c), create_table_sql(schema, t));
        }
    }
    if 0 <= j < t.constraints.len() {
        let k = t.constraints[j];
        if let SpecConstraintType::ForeignKey {
            columns,
            referenced_table,
            referenced_columns,
            on_delete,
            on_update,
        } = k.constraint_type {
            let fk = " FOREIGN KEY ("@ + join(columns, ", "@) + ")"@ + references_target(
                schema,
                referenced_table,
                join(referenced_columns, ", "@),
                on_delete,
                on_update,
            );
            let before = "    "@ + "CONSTRAINT "@ + k.name;
            assert(constraint_definition(schema, k) =~= before + fk + Seq::<char>::empty());
            lemma_occurs_middle(before, fk, Seq::<char>::empty());
            lemma_occurs_trans(fk, constraint_definition(schema, k), create_table_sql(schema, t));
        }
    }
}

/// `ALTER TABLE` output keeps every foreign key it adds: an added column
/// that references another table has its `REFERENCES` clause, with its
/// actions, right before the statement's `;`, and an added `FOREIGN KEY`
/// constraint likewise ends its statement with its clause.
pub proof fn law_alter_table_foreign_keys(
    schema: Seq<char>,
    table: Seq<char>,
    changes: Seq<SpecTableChange>,
    i: int,
)
    ensures
        0 <= i < changes.len() ==> (changes[i] matches SpecTableChange::AddColumn(c) ==> (
        c.references matches Some(r) ==> occurs_in(
            references_target(schema, r.table, r.column, r.on_delete, r.on_update) + ";\n"@,
            alter_table_sql(schema, table, changes),
        ))),
        0 <= i < changes.len() ==> (changes[i] matches SpecTableChange::AddConstraint(k) ==> (
        k.constraint_type matches SpecConstraintType::ForeignKey {
            columns,
            referenced_table,
            referenced_columns,
            on_delete,
            on_update,
        } ==> occurs_in(
            " FOREIGN KEY ("@ + join(columns, ", "@) + ")"@ + references_target(
                schema,
                referenced_table,
                join(referenced_columns, ", "@),
                on_delete,
                on_update,
            ) + ";\n"@,
            alter_table_sql(schema, table, changes),
        ))),
{
    if 0 <= i < changes.len() {
        let q = qualified_name(schema, table);
        let parts = changes.map_values(|ch: SpecTableChange| table_change_sql(schema, q, ch));
        let sql = alter_table_sql(schema, table, changes);
        assert(sql == concat(parts));
        lemma_occurs_in_concat(parts, i);
        assert(parts[i] == table_change_sql(schema, q, changes[i]));
        match changes[i] {
            SpecTableChange::AddColumn(c) => {
                if let Some(r) = c.references {
                    let needle = references_target(schema, r.table, r.column, r.on_delete, r.on_update)
                        + ";\n"@;
                    lemma_added_column_references(schema, q, c);
                    lemma_occurs_trans(needle, parts[i], sql);
                }
            },
            SpecTableChange::AddConstraint(k) => {
                if let SpecConstraintType::ForeignKey {
                    columns,
                    referenced_table,
                    referenced_columns,
                    on_delete,
                    on_update,
                } = k.constraint_type {
                    let needle = " FOREIGN KEY ("@ + join(columns, ", "@) + ")"@ + references_target(
                        schema,
                        referenced_table,
                        join(referenced_columns, ", "@),
                        on_delete,
                        on_update,
                    ) + ";\n"@;
                    lemma_added_constraint_references(schema, q, k);
                    lemma_occurs_trans(needle, parts[i], sql);
                }
            },
            _ => {},
        }
    }
}

proof fn lemma_added_column_references(schema: Seq<char>, q: Seq<char>, c: SpecColumn)
    ensures
        c.references matches Some(r) ==> occurs_in(
            references_target(schema, r.table, r.column, r.on_delete, r.on_update) + ";\n"@,
            table_change_sql(schema, q, SpecTableChange::AddColumn(c)),
        ),
{
    if let Some(r) = c.references {
        let needle = references_target(schema, r.table, r.column, r.on_delete, r.on_update) + ";\n"@;
        let before = "ALTER TABLE "@ + q + " ADD COLUMN "@ + c.name + " "@ + data_type_sql(
            c.data_type,
        ) + when(!c.is_nullable, " NOT NULL"@) + wrap_opt(" DEFAULT "@, c.default_value, Seq::empty())
            + when(c.is_unique, " UNIQUE"@);
        let after = added_column_comment_sql(q, c);
        assert(add_column_sql(schema, q, c) =~= before + needle + after);
        lemma_occurs_middle(before, needle, after);
    }
}

proof fn lemma_added_constraint_references(schema: Seq<char>, q: Seq<char>, k: SpecConstraint)
    ensures
        k.constraint_type matches SpecConstraintType::ForeignKey {
            columns,
            referenced_table,
            referenced_columns,
            on_delete,
            on_update,
        } ==> occurs_in(
            " FOREIGN KEY ("@ + join(columns, ", "@) + ")"@ + references_target(
                schema,
                referenced_table,
                join(referenced_columns, ", "@),
                on_delete,
                on_update,
            ) + ";\n"@,
            table_change_sql(schema, q, SpecTableChange::AddConstraint(k)),
        ),
{
    if let SpecConstraintType::ForeignKey {
        columns,
        referenced_table,
        referenced_columns,
        on_delete,
        on_update,
    } = k.constraint_type {
        let needle = " FOREIGN KEY ("@ + join(columns, ", "@) + ")"@ + references_target(
            schema,
            referenced_table,
            join(referenced_columns, ", "@),
            on_delete,
            on_update,
        ) + ";\n"@;
        let before = "ALTER TABLE "@ + q + " ADD "@ + "CONSTRAINT "@ + k.name;
        assert(table_change_sql(schema, q, SpecTableChange::AddConstraint(k)) =~= before + needle
            + Seq::<char>::empty());
        lemma_occurs_middle(before, needle, Seq::<char>::empty());
    }
}


/// `CREATE TABLE` output defines each column by its name and SQL type,
/// followed by the clauses its settings ask for: `PRIMARY KEY`; `NOT NULL`
/// and `UNIQUE` unless it is the primary key (which implies them); its
/// default; and each of its checks.
pub proof fn law_create_table_column_clauses(schema: Seq<char>, t: SpecTable, i: int, k: int)
    ensures
        0 <= i < t.columns.len() ==> {
            let c = t.columns[i];
            let sql = create_table_sql(schema, t);
            &&& occurs_in("    "@ + c.name + " "@ + data_type_sql(c.data_type), sql)
            &&& c.is_primary_key ==> occurs_in(" PRIMARY KEY"@, sql)
            &&& !c.is_nullable && !c.is_primary_key ==> occurs_in(" NOT NULL"@, sql)
            &&& c.is_unique && !c.is_primary_key ==> occurs_in(" UNIQUE"@, sql)
            &&& c.default_value matches Some(v) ==> occurs_in(" DEFAULT "@ + v, sql)
            &&& 0 <= k < c.check_constraints.len() ==> occurs_in(
                " CHECK ("@ + c.check_constraints[k] + ")"@,
                sql,
            )
        },
{
    if 0 <= i < t.columns.len() {
        let c = t.columns[i];
        let sql = create_table_sql(schema, t);
        let def = column_definition(schema, c);
        law_create_table_defines_everything(schema, t, i, -1);
        lemma_column_definition_clauses(schema, c, k);
        lemma_occurs_trans("    "@ + c.name + " "@ + data_type_sql(c.data_type), def, sql);
        if c.is_primary_key {
            lemma_occurs_trans(" PRIMARY KEY"@, def, sql);
        }
        if !c.is_nullable && !c.is_primary_key {
            lemma_occurs_trans(" NOT NULL"@, def, sql);
        }
        if c.is_unique && !c.is_primary_key {
            lemma_occurs_trans(" UNIQUE"@, def, sql);
        }
        if let Some(v) = c.default_value {
            lemma_occurs_trans(" DEFAULT "@ + v, def, sql);
        }
        if 0 <= k < c.check_constraints.len() {
            lemma_occurs_trans(" CHECK ("@ + c.check_constraints[k] + ")"@, def, sql);
        }
    }
}

proof fn lemma_column_definition_clauses(schema: Seq<char>, c: SpecColumn, k: int)
    ensures
        ({
            let def = column_definition(schema, c);
            &&& occurs_in("    "@ + c.name + " "@ + data_type_sql(c.data_type), def)
            &&& c.is_primary_key ==> occurs_in(" PRIMARY KEY"@, def)
            &&& !c.is_nullable && !c.is_primary_key ==> occurs_in(" NOT NULL"@, def)
            &&& c.is_unique && !c.is_primary_key ==> occurs_in(" UNIQUE"@, def)
            &&& c.default_value matches Some(v) ==> occurs_in(" DEFAULT "@ + v, def)
            &&& 0 <= k < c.check_constraints.len() ==> occurs_in(
                " CHECK ("@ + c.check_constraints[k] + ")"@,
                def,
            )
        }),
{
    let def = column_definition(schema, c);
    let head = "    "@ + c.name + " "@ + data_type_sql(c.data_type);
    let pk = when(c.is_primary_key, " PRIMARY KEY"@);
    let nn = when(!c.is_nullable && !c.is_primary_key, " NOT NULL"@);
    let un = when(c.is_unique && !c.is_primary_key, " UNIQUE"@);
    let df = wrap_opt(" DEFAULT "@, c.default_value, Seq::empty());
    let refs = column_references(schema, c.references);
    let cs = checks_sql(c.check_constraints);
    assert(def == head + pk + nn + un + df + refs + cs);
    let e = Seq::<char>::empty();
    // Each part occurs where it stands: after the parts before it, then
    // followed by those after it.
    assert(e + head =~= head);
    lemma_occurs_suffix(e, head);
    lemma_occurs_append(head, head, pk);
    lemma_occurs_append(head, head + pk, nn);
    lemma_occurs_append(head, head + pk + nn, un);
    lemma_occurs_append(head, head + pk + nn + un, df);
    lemma_occurs_append(head, head + pk + nn + un + df, refs);
    lemma_occurs_append(head, head + pk + nn + un + df + refs, cs);
    lemma_occurs_suffix(head, pk);
    lemma_occurs_append(pk, head + pk, nn);
    lemma_occurs_append(pk, head + pk + nn, un);
    lemma_occurs_append(pk, head + pk + nn + un, df);
    lemma_occurs_append(pk, head + pk + nn + un + df, refs);
    lemma_occurs_append(pk, head + pk + nn + un + df + refs, cs);
    lemma_occurs_suffix(head + pk, nn);
    lemma_occurs_append(nn, head + pk + nn, un);
    lemma_occurs_append(nn, head + pk + nn + un, df);
    lemma_occurs_append(nn, head + pk + nn + un + df, refs);
    lemma_occurs_append(nn, head + pk + nn + un + df + refs, cs);
    lemma_occurs_suffix(head + pk + nn, un);
    lemma_occurs_append(un, head + pk + nn + un, df);
    lemma_occurs_append(un, head + pk + nn + un + df, refs);
    lemma_occurs_append(un, head + pk + nn + un + df + refs, cs);
    lemma_occurs_suffix(head + pk + nn + un, df);
    lemma_occurs_append(df, head + pk + nn + un + df, refs);
    lemma_occurs_append(df, head + pk + nn + un + df + refs, cs);
    if let Some(v) = c.default_value {
        assert(df =~= e + (" DEFAULT "@ + v) + e);
        lemma_occurs_middle(e, " DEFAULT "@ + v, e);
        lemma_occurs_trans(" DEFAULT "@ + v, df, def);
    }
    if 0 <= k < c.check_constraints.len() {
        let checks = c.check_constraints.map_values(|x: Seq<char>| check_clause(x));
        lemma_occurs_in_concat(checks, k);
        assert(checks[k] == " CHECK ("@ + c.check_constraints[k] + ")"@);
        lemma_occurs_suffix(head + pk + nn + un + df + refs, cs);
        lemma_occurs_trans(checks[k], cs, def);
    }
}

} // verus!

//! Tables, columns, constraints, indexes and column types.
use vstd::prelude::*;
use crate::rls::{Policy, SpecPolicy};
use crate::text::{
    clone_opt_string, clone_strings, decimal, decimal_string, lemma_views_push, opt_string_view,
    owned, views,
};

verus! {

broadcast use vstd::string::group_string_axioms;

/// Represents a database table
#[derive(Debug)]
pub struct Table {
    pub name: String,
    pub columns: Vec<Column>,
    pub constraints: Vec<Constraint>,
    pub indexes: Vec<Index>,
    pub rls_enabled: bool,
    pub rls_policies: Vec<Policy>,
    pub comment: Option<String>,
}

/// Represents a column in a database table
#[derive(Debug)]
pub struct Column {
    pub name: String,
    pub data_type: DataType,
    pub is_primary_key: bool,
    pub is_nullable: bool,
    pub is_unique: bool,
    pub default_value: Option<String>,
    pub comment: Option<String>,
    pub check_constraints: Vec<String>,
    pub references: Option<Reference>,
}

/// Represents a database constraint
#[derive(Debug)]
pub struct Constraint {
    pub name: String,
    pub constraint_type: ConstraintType,
}

/// Types of constraints in a database
#[derive(Debug)]
pub enum ConstraintType {
    /// Primary key constraint
    PrimaryKey(Vec<String>),
    /// Foreign key constraint
    ForeignKey {
        columns: Vec<String>,
        referenced_table: String,
        referenced_columns: Vec<String>,
        on_delete: ReferentialAction,
        on_update: ReferentialAction,
    },
    /// Unique constraint
    Unique(Vec<String>),
    /// Check constraint
    Check(String),
}

/// Represents a database index
#[derive(Debug)]
pub struct Index {
    pub name: String,
    pub columns: Vec<String>,
    pub is_unique: bool,
    pub method: Option<String>,
}

/// Represents a foreign key reference
#[derive(Debug)]
pub struct Reference {
    pub table: String,
    pub column: String,
    pub on_delete: ReferentialAction,
    pub on_update: ReferentialAction,
}

/// Types of referential actions (ON DELETE, ON UPDATE)
#[derive(Debug, Clone, Copy, PartialEq, Eq, Structural)]
pub enum ReferentialAction {
    NoAction,
    Restrict,
    Cascade,
    SetNull,
    SetDefault,
}

/// Supported data types
#[derive(Debug, PartialEq, Eq)]
pub enum DataType {
    // Numeric types
    SmallInt,
    Integer,
    BigInt,
    Decimal { precision: Option<u8>, scale: Option<u8> },
    Numeric { precision: Option<u8>, scale: Option<u8> },
    Real,
    DoublePrecision,
    // Character types
    Char(Option<u32>),
    VarChar(Option<u32>),
    Text,
    // Binary types
    ByteA,
    // Date/Time types
    Date,
    Time,
    Timestamp,
    TimestampTZ,
    // Boolean type
    Boolean,
    // UUID type
    UUID,
    // JSON types
    JSON,
    JSONB,
    // Array type
    Array(Box<DataType>),
    // Custom type
    Custom(String),
}

/// The model of a [`DataType`].
pub enum SpecDataType {
    SmallInt,
    Integer,
    BigInt,
    Decimal { precision: Option<u8>, scale: Option<u8> },
    Numeric { precision: Option<u8>, scale: Option<u8> },
    Real,
    DoublePrecision,
    Char(Option<u32>),
    VarChar(Option<u32>),
    Text,
    ByteA,
    Date,
    Time,
    Timestamp,
    TimestampTZ,
    Boolean,
    UUID,
    JSON,
    JSONB,
    Array(Box<SpecDataType>),
    Custom(Seq<char>),
}

/// The model of a [`Reference`].
pub struct SpecReference {
    pub table: Seq<char>,
    pub column: Seq<char>,
    pub on_delete: ReferentialAction,
    pub on_update: ReferentialAction,
}

/// The model of a [`Column`].
pub struct SpecColumn {
    pub name: Seq<char>,
    pub data_type: SpecDataType,
    pub is_primary_key: bool,
    pub is_nullable: bool,
    pub is_unique: bool,
    pub default_value: Option<Seq<char>>,
    pub comment: Option<Seq<char>>,
    pub check_constraints: Seq<Seq<char>>,
    pub references: Option<SpecReference>,
}

/// The model of a [`ConstraintType`].
pub enum SpecConstraintType {
    PrimaryKey(Seq<Seq<char>>),
    ForeignKey {
        columns: Seq<Seq<char>>,
        referenced_table: Seq<char>,
        referenced_columns: Seq<Seq<char>>,
        on_delete: ReferentialAction,
        on_update: ReferentialAction,
    },
    Unique(Seq<Seq<char>>),
    Check(Seq<char>),
}

/// The model of a [`Constraint`].
pub struct SpecConstraint {
    pub name: Seq<char>,
    pub constraint_type: SpecConstraintType,
}

/// The model of an [`Index`].
pub struct SpecIndex {
    pub name: Seq<char>,
    pub columns: Seq<Seq<char>>,
    pub is_unique: bool,
    pub method: Option<Seq<char>>,
}

/// The model of a [`Table`].
pub struct SpecTable {
    pub name: Seq<char>,
    pub columns: Seq<SpecColumn>,
    pub constraints: Seq<SpecConstraint>,
    pub indexes: Seq<SpecIndex>,
    pub rls_enabled: bool,
    pub rls_policies: Seq<SpecPolicy>,
    pub comment: Option<Seq<char>>,
}

/// The model of a data type.
pub open spec fn data_type_view(d: DataType) -> SpecDataType
    decreases d,
{
    match d {
        DataType::SmallInt => SpecDataType::SmallInt,
        DataType::Integer => SpecDataType::Integer,
        DataType::BigInt => SpecDataType::BigInt,
        DataType::Decimal { precision, scale } => SpecDataType::Decimal { precision, scale },
        DataType::Numeric { precision, scale } => SpecDataType::Numeric { precision, scale },
        DataType::Real => SpecDataType::Real,
        DataType::DoublePrecision => SpecDataType::DoublePrecision,
        DataType::Char(n) => SpecDataType::Char(n),
        DataType::VarChar(n) => SpecDataType::VarChar(n),
        DataType::Text => SpecDataType::Text,
        DataType::ByteA => SpecDataType::ByteA,
        DataType::Date => SpecDataType::Date,
        DataType::Time => SpecDataType::Time,
        DataType::Timestamp => SpecDataType::Timestamp,
        DataType::TimestampTZ => SpecDataType::TimestampTZ,
        DataType::Boolean => SpecDataType::Boolean,
        DataType::UUID => SpecDataType::UUID,
        DataType::JSON => SpecDataType::JSON,
        DataType::JSONB => SpecDataType::JSONB,
        DataType::Array(inner) => SpecDataType::Array(Box::new(data_type_view(*inner))),
        DataType::Custom(name) => SpecDataType::Custom(name@),
    }
}

impl View for DataType {
    type V = SpecDataType;

    open spec fn view(&self) -> SpecDataType {
        data_type_view(*self)
    }
}

impl View for Reference {
    type V = SpecReference;

    open spec fn view(&self) -> SpecReference {
        SpecReference {
            table: self.table@,
            column: self.column@,
            on_delete: self.on_delete,
            on_update: self.on_update,
        }
    }
}

/// The model of an optional reference.
pub open spec fn opt_reference_view(o: Option<Reference>) -> Option<SpecReference> {
    match o {
        Some(r) => Some(r@),
        None => None,
    }
}

impl View for Column {
    type V = SpecColumn;

    open spec fn view(&self) -> SpecColumn {
        SpecColumn {
            name: self.name@,
            data_type: self.data_type@,
            is_primary_key: self.is_primary_key,
            is_nullable: self.is_nullable,
            is_unique: self.is_unique,
            default_value: opt_string_view(self.default_value),
            comment: opt_string_view(self.comment),
            check_constraints: views(self.check_constraints@),
            references: opt_reference_view(self.references),
        }
    }
}

impl View for ConstraintType {
    type V = SpecConstraintType;

    open spec fn view(&self) -> SpecConstraintType {
        match self {
            ConstraintType::PrimaryKey(cols) => SpecConstraintType::PrimaryKey(views(cols@)),
            ConstraintType::ForeignKey {
                columns,
                referenced_table,
                referenced_columns,
                on_delete,
                on_update,
            } => SpecConstraintType::ForeignKey {
                columns: views(columns@),
                referenced_table: referenced_table@,
                referenced_columns: views(referenced_columns@),
                on_delete: *on_delete,
                on_update: *on_update,
            },
            ConstraintType::Unique(cols) => SpecConstraintType::Unique(views(cols@)),
            ConstraintType::Check(expr) => SpecConstraintType::Check(expr@),
        }
    }
}

impl View for Constraint {
    type V = SpecConstraint;

    open spec fn view(&self) -> SpecConstraint {
        SpecConstraint { name: self.name@, constraint_type: self.constraint_type@ }
    }
}

impl View for Index {
    type V = SpecIndex;

    open spec fn view(&self) -> SpecIndex {
        SpecIndex {
            name: self.name@,
            columns: views(self.columns@),
            is_unique: self.is_unique,
            method: opt_string_view(self.method),
        }
    }
}

impl View for Table {
    type V = SpecTable;

    open spec fn view(&self) -> SpecTable {
        SpecTable {
            name: self.name@,
            columns: views(self.columns@),
            constraints: views(self.constraints@),
            indexes: views(self.indexes@),
            rls_enabled: self.rls_enabled,
            rls_policies: views(self.rls_policies@),
            comment: opt_string_view(self.comment),
        }
    }
}

/// `kw`, followed by the precision and scale in parentheses when given.
pub open spec fn precision_sql(kw: Seq<char>, precision: Option<u8>, scale: Option<u8>) -> Seq<char> {
    match (precision, scale) {
        (Some(p), Some(s)) => kw + "("@ + decimal(p as nat) + ", "@ + decimal(s as nat) + ")"@,
        (Some(p), None) => kw + "("@ + decimal(p as nat) + ")"@,
        _ => kw,
    }
}

/// `kw`, followed by the length in parentheses when given.
pub open spec fn length_sql(kw: Seq<char>, size: Option<u32>) -> Seq<char> {
    match size {
        Some(n) => kw + "("@ + decimal(n as nat) + ")"@,
        None => kw,
    }
}

/// The SQL spelling of a data type.
pub open spec fn data_type_sql(d: SpecDataType) -> Seq<char>
    decreases d,
{
    match d {
        SpecDataType::SmallInt => "SMALLINT"@,
        SpecDataType::Integer => "INTEGER"@,
        SpecDataType::BigInt => "BIGINT"@,
        SpecDataType::Decimal { precision, scale } => precision_sql("DECIMAL"@, precision, scale),
        SpecDataType::Numeric { precision, scale } => precision_sql("NUMERIC"@, precision, scale),
        SpecDataType::Real => "REAL"@,
        SpecDataType::DoublePrecision => "DOUBLE PRECISION"@,
        SpecDataType::Char(n) => length_sql("CHAR"@, n),
        SpecDataType::VarChar(n) => length_sql("VARCHAR"@, n),
        SpecDataType::Text => "TEXT"@,
        SpecDataType::ByteA => "BYTEA"@,
        SpecDataType::Date => "DATE"@,
        SpecDataType::Time => "TIME"@,
        SpecDataType::Timestamp => "TIMESTAMP"@,
        SpecDataType::TimestampTZ => "TIMESTAMPTZ"@,
        SpecDataType::Boolean => "BOOLEAN"@,
        SpecDataType::UUID => "UUID"@,
        SpecDataType::JSON => "JSON"@,
        SpecDataType::JSONB => "JSONB"@,
        SpecDataType::Array(inner) => data_type_sql(*inner) + "[]"@,
        SpecDataType::Custom(name) => name,
    }
}

fn precision_string(kw: &str, precision: Option<u8>, scale: Option<u8>) -> (r: String)
    ensures
        r@ == precision_sql(kw@, precision, scale),
{
    let mut s = owned(kw);
    match (precision, scale) {
        (Some(p), Some(sc)) => {
            let ps = decimal_string(p as u32);
            let ss = decimal_string(sc as u32);
            s.append("(");
            s.append(ps.as_str());
            s.append(", ");
            s.append(ss.as_str());
            s.append(")");
        },
        (Some(p), None) => {
            let ps = decimal_string(p as u32);
            s.append("(");
            s.append(ps.as_str());
            s.append(")");
        },
        _ => {},
    }
    s
}

fn length_string(kw: &str, size: Option<u32>) -> (r: String)
    ensures
        r@ == length_sql(kw@, size),
{
    let mut s = owned(kw);
    match size {
        Some(n) => {
            let ns = decimal_string(n);
            s.append("(");
            s.append(ns.as_str());
            s.append(")");
        },
        None => {},
    }
    s
}

impl DataType {
    /// The SQL spelling of this type, e.g. `VARCHAR(255)` or `INTEGER[]`.
    pub fn sql_name(&self) -> (r: String)
        ensures
            r@ == data_type_sql(self@),
        decreases self,
    {
        match self {
            DataType::SmallInt => owned("SMALLINT"),
            DataType::Integer => owned("INTEGER"),
            DataType::BigInt => owned("BIGINT"),
            DataType::Decimal { precision, scale } => precision_string("DECIMAL", *precision, *scale),
            DataType::Numeric { precision, scale } => precision_string("NUMERIC", *precision, *scale),
            DataType::Real => owned("REAL"),
            DataType::DoublePrecision => owned("DOUBLE PRECISION"),
            DataType::Char(n) => length_string("CHAR", *n),
            DataType::VarChar(n) => length_string("VARCHAR", *n),
            DataType::Text => owned("TEXT"),
            DataType::ByteA => owned("BYTEA"),
            DataType::Date => owned("DATE"),
            DataType::Time => owned("TIME"),
            DataType::Timestamp => owned("TIMESTAMP"),
            DataType::TimestampTZ => owned("TIMESTAMPTZ"),
            DataType::Boolean => owned("BOOLEAN"),
            DataType::UUID => owned("UUID"),
            DataType::JSON => owned("JSON"),
            DataType::JSONB => owned("JSONB"),
            DataType::Array(inner) => {
                let mut s = inner.sql_name();
                s.append("[]");
                s
            },
            DataType::Custom(name) => name.clone(),
        }
    }
}

fn clone_data_type(d: &DataType) -> (r: DataType)
    ensures
        r@ == d@,
    decreases d,
{
    match d {
        DataType::SmallInt => DataType::SmallInt,
        DataType::Integer => DataType::Integer,
        DataType::BigInt => DataType::BigInt,
        DataType::Decimal { precision, scale } => DataType::Decimal {
            precision: *precision,
            scale: *scale,
        },
        DataType::Numeric { precision, scale } => DataType::Numeric {
            precision: *precision,
            scale: *scale,
        },
        DataType::Real => DataType::Real,
        DataType::DoublePrecision => DataType::DoublePrecision,
        DataType::Char(n) => DataType::Char(*n),
        DataType::VarChar(n) => DataType::VarChar(*n),
        DataType::Text => DataType::Text,
        DataType::ByteA => DataType::ByteA,
        DataType::Date => DataType::Date,
        DataType::Time => DataType::Time,
        DataType::Timestamp => DataType::Timestamp,
        DataType::TimestampTZ => DataType::TimestampTZ,
        DataType::Boolean => DataType::Boolean,
        DataType::UUID => DataType::UUID,
        DataType::JSON => DataType::JSON,
        DataType::JSONB => DataType::JSONB,
        DataType::Array(inner) => DataType::Array(Box::new(clone_data_type(inner))),
        DataType::Custom(name) => DataType::Custom(name.clone()),
    }
}

impl Clone for DataType {
    fn clone(&self) -> (r: Self)
        ensures
            r@ == self@,
    {
        clone_data_type(self)
    }
}

impl Clone for Reference {
    fn clone(&self) -> (r: Self)
        ensures
            r@ == self@,
    {
        Reference {
            table: self.table.clone(),
            column: self.column.clone(),
            on_delete: self.on_delete,
            on_update: self.on_update,
        }
    }
}

impl Clone for Column {
    fn clone(&self) -> (r: Self)
        ensures
            r@ == self@,
    {
        let references = match &self.references {
            Some(r) => Some(r.clone()),
            None => None,
        };
        Column {
            name: self.name.clone(),
            data_type: self.data_type.clone(),
            is_primary_key: self.is_primary_key,
            is_nullable: self.is_nullable,
            is_unique: self.is_unique,
            default_value: clone_opt_string(&self.default_value),
            comment: clone_opt_string(&self.comment),
            check_constraints: clone_strings(&self.check_constraints),
            references,
        }
    }
}

impl Clone for ConstraintType {
    fn clone(&self) -> (r: Self)
        ensures
            r@ == self@,
    {
        match self {
            ConstraintType::PrimaryKey(cols) => ConstraintType::PrimaryKey(clone_strings(cols)),
            ConstraintType::ForeignKey {
                columns,
                referenced_table,
                referenced_columns,
                on_delete,
                on_update,
            } => ConstraintType::ForeignKey {
                columns: clone_strings(columns),
                referenced_table: referenced_table.clone(),
                referenced_columns: clone_strings(referenced_columns),
                on_delete: *on_delete,
                on_update: *on_update,
            },
            ConstraintType::Unique(cols) => ConstraintType::Unique(clone_strings(cols)),
            ConstraintType::Check(expr) => ConstraintType::Check(expr.clone()),
        }
    }
}

impl Clone for Constraint {
    fn clone(&self) -> (r: Self)
        ensures
            r@ == self@,
    {
        Constraint { name: self.name.clone(), constraint_type: self.constraint_type.clone() }
    }
}

impl Clone for Index {
    fn clone(&self) -> (r: Self)
        ensures
            r@ == self@,
    {
        Index {
            name: self.name.clone(),
            columns: clone_strings(&self.columns),
            is_unique: self.is_unique,
            method: clone_opt_string(&self.method),
        }
    }
}

impl Clone for Table {
    fn clone(&self) -> (r: Self)
        ensures
            r@ == self@,
    {
        let columns = self.columns.clone();
        let constraints = self.constraints.clone();
        let indexes = self.indexes.clone();
        let rls_policies = self.rls_policies.clone();
        assert(views(columns@) =~= views(self.columns@));
        assert(views(constraints@) =~= views(self.constraints@));
        assert(views(indexes@) =~= views(self.indexes@));
        assert(views(rls_policies@) =~= views(self.rls_policies@));
        Table {
            name: self.name.clone(),
            columns,
            constraints,
            indexes,
            rls_enabled: self.rls_enabled,
            rls_policies,
            comment: clone_opt_string(&self.comment),
        }
    }
}

/// One call of a [`Table`] builder method, with its argument's model.
pub enum SpecTableStep {
    Column(SpecColumn),
    Constraint(SpecConstraint),
    Index(SpecIndex),
    EnableRls,
    RlsPolicy(SpecPolicy),
    Comment(Seq<char>),
}

/// The table that one builder call makes of `t`.
pub open spec fn table_step(t: SpecTable, step: SpecTableStep) -> SpecTable {
    match step {
        SpecTableStep::Column(c) => SpecTable { columns: t.columns.push(c), ..t },
        SpecTableStep::Constraint(c) => SpecTable { constraints: t.constraints.push(c), ..t },
        SpecTableStep::Index(i) => SpecTable { indexes: t.indexes.push(i), ..t },
        SpecTableStep::EnableRls => SpecTable { rls_enabled: true, ..t },
        SpecTableStep::RlsPolicy(p) => SpecTable {
            rls_enabled: true,
            rls_policies: t.rls_policies.push(p),
            ..t
        },
        SpecTableStep::Comment(c) => SpecTable { comment: Some(c), ..t },
    }
}

/// The table that `Table::new(name)` followed by the builder calls `steps`
/// makes.
pub open spec fn built_table(name: Seq<char>, steps: Seq<SpecTableStep>) -> SpecTable
    decreases steps.len(),
{
    if steps.len() == 0 {
        SpecTable {
            name,
            columns: Seq::empty(),
            constraints: Seq::empty(),
            indexes: Seq::empty(),
            rls_enabled: false,
            rls_policies: Seq::empty(),
            comment: None,
        }
    } else {
        table_step(built_table(name, steps.drop_last()), steps.last())
    }
}

/// A table built with `Table::new` and any builder calls has row level
/// security enabled whenever it has a policy: `rls_policy` enables it, and
/// no builder call disables it.
pub proof fn law_policies_enable_rls(name: Seq<char>, steps: Seq<SpecTableStep>)
    ensures
        built_table(name, steps).rls_policies.len() > 0 ==> built_table(name, steps).rls_enabled,
    decreases steps.len(),
{
    if steps.len() > 0 {
        law_policies_enable_rls(name, steps.drop_last());
    }
}

impl Table {
    /// Create a new table with the given name
    pub fn new(name: &str) -> (r: Self)
        ensures
            r@ == (SpecTable {
                name: name@,
                columns: Seq::empty(),
                constraints: Seq::empty(),
                indexes: Seq::empty(),
                rls_enabled: false,
                rls_policies: Seq::empty(),
                comment: None,
            }),
            r@ == built_table(name@, Seq::empty()),
    {
        let r = Table {
            name: owned(name),
            columns: Vec::new(),
            constraints: Vec::new(),
            indexes: Vec::new(),
            rls_enabled: false,
            rls_policies: Vec::new(),
            comment: None,
        };
        assert(views(r.columns@) =~= Seq::<SpecColumn>::empty());
        assert(views(r.constraints@) =~= Seq::<SpecConstraint>::empty());
        assert(views(r.indexes@) =~= Seq::<SpecIndex>::empty());
        assert(views(r.rls_policies@) =~= Seq::<SpecPolicy>::empty());
        r
    }

    /// Add a column to the table
    pub fn column(self, column: Column) -> (r: Self)
        ensures
            r@ == (SpecTable { columns: self@.columns.push(column@), ..self@ }),
            r@ == table_step(self@, SpecTableStep::Column(column@)),
    {
        let mut t = self;
        proof {
            lemma_views_push(t.columns@, column);
        }
        t.columns.push(column);
        t
    }

    /// Add a constraint to the table
    pub fn constraint(self, constraint: Constraint) -> (r: Self)
        ensures
            r@ == (SpecTable { constraints: self@.constraints.push(constraint@), ..self@ }),
            r@ == table_step(self@, SpecTableStep::Constraint(constraint@)),
    {
        let mut t = self;
        proof {
            lemma_views_push(t.constraints@, constraint);
        }
        t.constraints.push(constraint);
        t
    }

    /// Add an index to the table
    pub fn index(self, index: Index) -> (r: Self)
        ensures
            r@ == (SpecTable { indexes: self@.indexes.push(index@), ..self@ }),
            r@ == table_step(self@, SpecTableStep::Index(index@)),
    {
        let mut t = self;
        proof {
            lemma_views_push(t.indexes@, index);
        }
        t.indexes.push(index);
        t
    }

    /// Enable RLS on the table
    pub fn enable_rls(self) -> (r: Self)
        ensures
            r@ == (SpecTable { rls_enabled: true, ..self@ }),
            r@ == table_step(self@, SpecTableStep::EnableRls),
    {
        let mut t = self;
        t.rls_enabled = true;
        t
    }

    /// Add an RLS policy to the table; this also enables RLS on it
    pub fn rls_policy(self, policy: Policy) -> (r: Self)
        ensures
            r@ == (SpecTable {
                rls_enabled: true,
                rls_policies: self@.rls_policies.push(policy@),
                ..self@
            }),
            r@ == table_step(self@, SpecTableStep::RlsPolicy(policy@)),
    {
        let mut t = self;
        t.rls_enabled = true;
        proof {
            lemma_views_push(t.rls_policies@, policy);
        }
        t.rls_policies.push(policy);
        t
    }

    /// Add a comment to the table
    pub fn comment(self, comment: &str) -> (r: Self)
        ensures
            r@ == (SpecTable { comment: Some(comment@), ..self@ }),
            r@ == table_step(self@, SpecTableStep::Comment(comment@)),
    {
        let mut t = self;
        t.comment = Some(owned(comment));
        t
    }
}

impl Column {
    /// Create a new column with the given name and data type
    pub fn new(name: &str, data_type: DataType) -> (r: Self)
        ensures
            r@ == (SpecColumn {
                name: name@,
                data_type: data_type@,
                is_primary_key: false,
                is_nullable: true,
                is_unique: false,
                default_value: None,
                comment: None,
                check_constraints: Seq::empty(),
                references: None,
            }),
    {
        let r = Column {
            name: owned(name),
            data_type,
            is_primary_key: false,
            is_nullable: true,
            is_unique: false,
            default_value: None,
            comment: None,
            check_constraints: Vec::new(),
            references: None,
        };
        assert(views(r.check_constraints@) =~= Seq::<Seq<char>>::empty());
        r
    }

    /// Mark column as primary key (which also makes it not nullable)
    pub fn primary_key(self) -> (r: Self)
        ensures
            r@ == (SpecColumn { is_primary_key: true, is_nullable: false, ..self@ }),
    {
        let mut c = self;
        c.is_primary_key = true;
        c.is_nullable = false;
        c
    }

    /// Mark column as not nullable
    pub fn not_null(self) -> (r: Self)
        ensures
            r@ == (SpecColumn { is_nullable: false, ..self@ }),
    {
        let mut c = self;
        c.is_nullable = false;
        c
    }

    /// Mark column as unique
    pub fn unique(self) -> (r: Self)
        ensures
            r@ == (SpecColumn { is_unique: true, ..self@ }),
    {
        let mut c = self;
        c.is_unique = true;
        c
    }

    /// Set a default value for the column
    pub fn default(self, value: &str) -> (r: Self)
        ensures
            r@ == (SpecColumn { default_value: Some(value@), ..self@ }),
    {
        let mut c = self;
        c.default_value = Some(owned(value));
        c
    }

    /// Add a comment to the column
    pub fn comment(self, comment: &str) -> (r: Self)
        ensures
            r@ == (SpecColumn { comment: Some(comment@), ..self@ }),
    {
        let mut c = self;
        c.comment = Some(owned(comment));
        c
    }

    /// Add a check constraint to the column
    pub fn check(self, constraint: &str) -> (r: Self)
        ensures
            r@ == (SpecColumn {
                check_constraints: self@.check_constraints.push(constraint@),
                ..self@
            }),
    {
        let mut c = self;
        let s = owned(constraint);
        proof {
            lemma_views_push(c.check_constraints@, s);
        }
        c.check_constraints.push(s);
        c
    }

    /// Add a foreign key reference, with no action on delete or update
    pub fn references(self, table: &str, column: &str) -> (r: Self)
        ensures
            r@ == (SpecColumn {
                references: Some(
                    SpecReference {
                        table: table@,
                        column: column@,
                        on_delete: ReferentialAction::NoAction,
                        on_update: ReferentialAction::NoAction,
                    },
                ),
                ..self@
            }),
    {
        let mut c = self;
        c.references = Some(
            Reference {
                table: owned(table),
                column: owned(column),
                on_delete: ReferentialAction::NoAction,
                on_update: ReferentialAction::NoAction,
            },
        );
        c
    }
}

impl Constraint {
    /// Create a new constraint
    pub fn new(name: &str, constraint_type: ConstraintType) -> (r: Self)
        ensures
            r@ == (SpecConstraint { name: name@, constraint_type: constraint_type@ }),
    {
        Constraint { name: owned(name), constraint_type }
    }
}

impl Index {
    /// Create a new index
    pub fn new(name: &str, columns: Vec<String>) -> (r: Self)
        ensures
            r@ == (SpecIndex {
                name: name@,
                columns: views(columns@),
                is_unique: false,
                method: None,
            }),
    {
        Index { name: owned(name), columns, is_unique: false, method: None }
    }

    /// Mark index as unique
    pub fn unique(self) -> (r: Self)
        ensures
            r@ == (SpecIndex { is_unique: true, ..self@ }),
    {
        let mut i = self;
        i.is_unique = true;
        i
    }

    /// Set the index method (e.g., "btree", "hash", "gin", etc.)
    pub fn method(self, method: &str) -> (r: Self)
        ensures
            r@ == (SpecIndex { method: Some(method@), ..self@ }),
    {
        let mut i = self;
        i.method = Some(owned(method));
        i
    }
}


/// Whether a data type is spelled by a keyword alone: one without
/// parameters, or a sized or precise type given none.
pub open spec fn is_keyword_type(d: SpecDataType) -> bool {
    match d {
        SpecDataType::Decimal { precision, scale } => precision is None && scale is None,
        SpecDataType::Numeric { precision, scale } => precision is None && scale is None,
        SpecDataType::Char(n) => n is None,
        SpecDataType::VarChar(n) => n is None,
        SpecDataType::Array(_) => false,
        SpecDataType::Custom(_) => false,
        _ => true,
    }
}

/// Each data type spelled by a keyword alone has PostgreSQL's keyword for
/// it, and no two such types share a spelling (a timestamp is not a
/// timestamp with time zone); sizes and precisions follow the keyword in
/// parentheses, and an array is its element type followed by `[]`.
pub proof fn law_data_type_keywords(d1: SpecDataType, d2: SpecDataType, n: u32, p: u8, q: u8)
    ensures
        data_type_sql(SpecDataType::SmallInt) == "SMALLINT"@,
        data_type_sql(SpecDataType::Integer) == "INTEGER"@,
        data_type_sql(SpecDataType::BigInt) == "BIGINT"@,
        data_type_sql(SpecDataType::Decimal { precision: None, scale: None }) == "DECIMAL"@,
        data_type_sql(SpecDataType::Numeric { precision: None, scale: None }) == "NUMERIC"@,
        data_type_sql(SpecDataType::Real) == "REAL"@,
        data_type_sql(SpecDataType::DoublePrecision) == "DOUBLE PRECISION"@,
        data_type_sql(SpecDataType::Char(None)) == "CHAR"@,
        data_type_sql(SpecDataType::VarChar(None)) == "VARCHAR"@,
        data_type_sql(SpecDataType::Text) == "TEXT"@,
        data_type_sql(SpecDataType::ByteA) == "BYTEA"@,
        data_type_sql(SpecDataType::Date) == "DATE"@,
        data_type_sql(SpecDataType::Time) == "TIME"@,
        data_type_sql(SpecDataType::Timestamp) == "TIMESTAMP"@,
        data_type_sql(SpecDataType::TimestampTZ) == "TIMESTAMPTZ"@,
        data_type_sql(SpecDataType::Boolean) == "BOOLEAN"@,
        data_type_sql(SpecDataType::UUID) == "UUID"@,
        data_type_sql(SpecDataType::JSON) == "JSON"@,
        data_type_sql(SpecDataType::JSONB) == "JSONB"@,
        data_type_sql(SpecDataType::VarChar(Some(n))) == "VARCHAR("@ + decimal(n as nat) + ")"@,
        data_type_sql(SpecDataType::Char(Some(n))) == "CHAR("@ + decimal(n as nat) + ")"@,
        data_type_sql(SpecDataType::Decimal { precision: Some(p), scale: Some(q) }) == "DECIMAL("@
            + decimal(p as nat) + ", "@ + decimal(q as nat) + ")"@,
        data_type_sql(SpecDataType::Numeric { precision: Some(p), scale: None }) == "NUMERIC("@
            + decimal(p as nat) + ")"@,
        data_type_sql(SpecDataType::Array(Box::new(d1))) == data_type_sql(d1) + "[]"@,
        is_keyword_type(d1) && is_keyword_type(d2) && d1 != d2 ==> data_type_sql(d1)
            != data_type_sql(d2),
{
    reveal_strlit("SMALLINT");
    reveal_strlit("INTEGER");
    reveal_strlit("BIGINT");
    reveal_strlit("DECIMAL");
    reveal_strlit("NUMERIC");
    reveal_strlit("REAL");
    reveal_strlit("DOUBLE PRECISION");
    reveal_strlit("CHAR");
    reveal_strlit("VARCHAR");
    reveal_strlit("TEXT");
    reveal_strlit("BYTEA");
    reveal_strlit("DATE");
    reveal_strlit("TIME");
    reveal_strlit("TIMESTAMP");
    reveal_strlit("TIMESTAMPTZ");
    reveal_strlit("BOOLEAN");
    reveal_strlit("UUID");
    reveal_strlit("JSON");
    reveal_strlit("JSONB");
    reveal_strlit("(");
    reveal_strlit("VARCHAR(");
    reveal_strlit("CHAR(");
    reveal_strlit("DECIMAL(");
    reveal_strlit("NUMERIC(");
    assert(data_type_sql(SpecDataType::Decimal { precision: Some(p), scale: Some(q) }) =~= "DECIMAL("@
        + decimal(p as nat) + ", "@ + decimal(q as nat) + ")"@);
    assert(data_type_sql(SpecDataType::Numeric { precision: Some(p), scale: None }) =~= "NUMERIC("@
        + decimal(p as nat) + ")"@);
    assert(data_type_sql(SpecDataType::VarChar(Some(n))) =~= "VARCHAR("@ + decimal(n as nat) + ")"@);
    assert(data_type_sql(SpecDataType::Char(Some(n))) =~= "CHAR("@ + decimal(n as nat) + ")"@);
    if is_keyword_type(d1) && is_keyword_type(d2) && d1 != d2 {
        let a = data_type_sql(d1);
        let b = data_type_sql(d2);
        if a == b {
            assert(a.len() == b.len());
            assert(a[0] == b[0]);
            assert(a[1] == b[1]);
            assert(a[a.len() - 1] == b[b.len() - 1]);
        }
    }
}

} // verus!

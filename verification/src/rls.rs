//! Row-level security policies and the SQL that creates them.
use std::collections::HashMap;
use vstd::prelude::*;
use crate::text::{
    clone_opt_string, clone_strings, escape_quotes, lemma_occurs_append, lemma_occurs_middle, lemma_occurs_suffix, occurs_in, escape_quotes_string, join, join_strings, lemma_views_push, opt_string_view, owned, views, wrap_opt,
    wrap_opt_string,
};

verus! {

broadcast use vstd::string::group_string_axioms;

/// Represents a Row Level Security policy
#[derive(Debug)]
pub struct Policy {
    pub name: String,
    pub using_expr: Option<String>,
    pub check_expr: Option<String>,
    pub target: PolicyTarget,
    pub roles: Vec<String>,
    pub security_context: SecurityContext,
    pub comment: Option<String>,
    pub state: PolicyState,
}

/// The SQL operations a policy can target
#[derive(Debug, Clone, Copy, PartialEq, Eq, Structural)]
pub enum PolicyTarget {
    All,
    Select,
    Insert,
    Update,
    Delete,
}

/// The security context a policy operates within
#[derive(Debug, PartialEq, Eq)]
pub enum SecurityContext {
    /// Available to all users (default)
    Public,
    /// Available only to authenticated users
    Authenticated,
    /// Available only to specific roles
    Role(Vec<String>),
    /// Custom security predicate
    Custom(String),
}

/// The state of a policy
#[derive(Debug, Clone, Copy, PartialEq, Eq, Structural)]
pub enum PolicyState {
    /// Policy is enabled
    Enabled,
    /// Policy is disabled
    Disabled,
    /// Policy is in testing mode (for migration transitions)
    Testing,
}

/// The model of a [`SecurityContext`].
pub enum SpecSecurityContext {
    Public,
    Authenticated,
    Role(Seq<Seq<char>>),
    Custom(Seq<char>),
}

/// The model of a [`Policy`].
pub struct SpecPolicy {
    pub name: Seq<char>,
    pub using_expr: Option<Seq<char>>,
    pub check_expr: Option<Seq<char>>,
    pub target: PolicyTarget,
    pub roles: Seq<Seq<char>>,
    pub security_context: SpecSecurityContext,
    pub comment: Option<Seq<char>>,
    pub state: PolicyState,
}

impl View for SecurityContext {
    type V = SpecSecurityContext;

    open spec fn view(&self) -> SpecSecurityContext {
        match self {
            SecurityContext::Public => SpecSecurityContext::Public,
            SecurityContext::Authenticated => SpecSecurityContext::Authenticated,
            SecurityContext::Role(roles) => SpecSecurityContext::Role(views(roles@)),
            SecurityContext::Custom(pred) => SpecSecurityContext::Custom(pred@),
        }
    }
}

impl View for Policy {
    type V = SpecPolicy;

    open spec fn view(&self) -> SpecPolicy {
        SpecPolicy {
            name: self.name@,
            using_expr: opt_string_view(self.using_expr),
            check_expr: opt_string_view(self.check_expr),
            target: self.target,
            roles: views(self.roles@),
            security_context: self.security_context@,
            comment: opt_string_view(self.comment),
            state: self.state,
        }
    }
}

impl Clone for SecurityContext {
    fn clone(&self) -> (r: Self)
        ensures
            r@ == self@,
    {
        match self {
            SecurityContext::Public => SecurityContext::Public,
            SecurityContext::Authenticated => SecurityContext::Authenticated,
            SecurityContext::Role(roles) => SecurityContext::Role(clone_strings(roles)),
            SecurityContext::Custom(pred) => SecurityContext::Custom(pred.clone()),
        }
    }
}

impl Clone for Policy {
    fn clone(&self) -> (r: Self)
        ensures
            r@ == self@,
    {
        Policy {
            name: self.name.clone(),
            using_expr: clone_opt_string(&self.using_expr),
            check_expr: clone_opt_string(&self.check_expr),
            target: self.target,
            roles: clone_strings(&self.roles),
            security_context: self.security_context.clone(),
            comment: clone_opt_string(&self.comment),
            state: self.state,
        }
    }
}

impl Policy {
    /// Create a new RLS policy with the given name
    pub fn new(name: &str) -> (r: Self)
        ensures
            r@ == (SpecPolicy {
                name: name@,
                using_expr: None,
                check_expr: None,
                target: PolicyTarget::All,
                roles: Seq::empty(),
                security_context: SpecSecurityContext::Public,
                comment: None,
                state: PolicyState::Enabled,
            }),
    {
        let r = Policy {
            name: owned(name),
            using_expr: None,
            check_expr: None,
            target: PolicyTarget::All,
            roles: Vec::new(),
            security_context: SecurityContext::Public,
            comment: None,
            state: PolicyState::Enabled,
        };
        assert(views(r.roles@) =~= Seq::empty());
        r
    }

    /// Set the USING expression for the policy
    pub fn using(self, expr: &str) -> (r: Self)
        ensures
            r@ == (SpecPolicy { using_expr: Some(expr@), ..self@ }),
    {
        let mut p = self;
        p.using_expr = Some(owned(expr));
        p
    }

    /// Set the CHECK expression for the policy
    pub fn check(self, expr: &str) -> (r: Self)
        ensures
            r@ == (SpecPolicy { check_expr: Some(expr@), ..self@ }),
    {
        let mut p = self;
        p.check_expr = Some(owned(expr));
        p
    }

    /// Set the target operation for the policy
    pub fn target(self, target: PolicyTarget) -> (r: Self)
        ensures
            r@ == (SpecPolicy { target: target, ..self@ }),
    {
        let mut p = self;
        p.target = target;
        p
    }

    /// Add roles that this policy applies to, after those already given
    pub fn roles(self, roles: Vec<String>) -> (r: Self)
        ensures
            r@ == (SpecPolicy { roles: self@.roles + views(roles@), ..self@ }),
    {
        let mut p = self;
        let mut i: usize = 0;
        while i < roles.len()
            invariant
                i <= roles.len(),
                p@ == (SpecPolicy { roles: self@.roles + views(roles@).take(i as int), ..self@ }),
            decreases roles.len() - i,
        {
            let role = roles[i].clone();
            proof {
                lemma_views_push(p.roles@, role);
            }
            p.roles.push(role);
            assert(views(roles@).take(i + 1) =~= views(roles@).take(i as int).push(roles@[i as int]@));
            assert(self@.roles + views(roles@).take(i + 1) =~= (self@.roles + views(roles@).take(i as int)).push(roles@[i as int]@));
            i = i + 1;
        }
        assert(views(roles@).take(roles.len() as int) =~= views(roles@));
        p
    }

    /// Set the security context for the policy
    pub fn security_context(self, security_context: SecurityContext) -> (r: Self)
        ensures
            r@ == (SpecPolicy { security_context: security_context@, ..self@ }),
    {
        let mut p = self;
        p.security_context = security_context;
        p
    }

    /// Add a comment to the policy
    pub fn comment(self, comment: &str) -> (r: Self)
        ensures
            r@ == (SpecPolicy { comment: Some(comment@), ..self@ }),
    {
        let mut p = self;
        p.comment = Some(owned(comment));
        p
    }

    /// Set the policy state
    pub fn state(self, state: PolicyState) -> (r: Self)
        ensures
            r@ == (SpecPolicy { state: state, ..self@ }),
    {
        let mut p = self;
        p.state = state;
        p
    }
}

/// The SQL keyword of a policy target.
pub open spec fn target_keyword(t: PolicyTarget) -> Seq<char> {
    match t {
        PolicyTarget::All => "ALL"@,
        PolicyTarget::Select => "SELECT"@,
        PolicyTarget::Insert => "INSERT"@,
        PolicyTarget::Update => "UPDATE"@,
        PolicyTarget::Delete => "DELETE"@,
    }
}

impl PolicyTarget {
    /// The SQL keyword of this target (`ALL`, `SELECT`, ...).
    pub fn keyword(&self) -> (r: &'static str)
        ensures
            r@ == target_keyword(*self),
    {
        match self {
            PolicyTarget::All => "ALL",
            PolicyTarget::Select => "SELECT",
            PolicyTarget::Insert => "INSERT",
            PolicyTarget::Update => "UPDATE",
            PolicyTarget::Delete => "DELETE",
        }
    }
}

/// A container for RLS configuration
#[derive(Debug, Clone)]
pub struct RLSConfig {
    pub enabled: bool,
    pub force_all_tables: bool,
    pub default_policies: Vec<Policy>,
    pub role_mappings: HashMap<String, String>,
}

impl Default for RLSConfig {
    fn default() -> (r: Self)
        ensures
            !r.enabled,
            !r.force_all_tables,
            r.default_policies@.len() == 0,
            r.role_mappings@ == Map::<String, String>::empty(),
    {
        RLSConfig {
            enabled: false,
            force_all_tables: false,
            default_policies: Vec::new(),
            role_mappings: HashMap::new(),
        }
    }
}

/// ` FOR <target>` unless the policy targets all operations.
pub open spec fn target_clause(t: PolicyTarget) -> Seq<char> {
    if t == PolicyTarget::All {
        Seq::empty()
    } else {
        " FOR "@ + target_keyword(t)
    }
}

/// ` TO <roles>` when roles are given.
pub open spec fn roles_clause(roles: Seq<Seq<char>>) -> Seq<char> {
    if roles.len() == 0 {
        Seq::empty()
    } else {
        " TO "@ + join(roles, ", "@)
    }
}

/// The statement that follows a policy's creation for its state.
pub open spec fn state_clause(table: Seq<char>, name: Seq<char>, s: PolicyState) -> Seq<char> {
    match s {
        PolicyState::Enabled => Seq::empty(),
        PolicyState::Disabled => "\nALTER POLICY "@ + name + " ON "@ + table + " DISABLE;\n"@,
        PolicyState::Testing => "\n-- Policy "@ + name + " is in TESTING mode\n"@,
    }
}

/// The `COMMENT ON POLICY` statement, when the policy has a comment.
pub open spec fn policy_comment_clause(table: Seq<char>, p: SpecPolicy) -> Seq<char> {
    match p.comment {
        Some(c) => "\nCOMMENT ON POLICY "@ + p.name + " ON "@ + table + " IS '"@ + escape_quotes(c)
            + "';\n"@,
        None => Seq::empty(),
    }
}

/// The SQL that creates policy `p` on `table`.
pub open spec fn policy_sql(table: Seq<char>, p: SpecPolicy) -> Seq<char> {
    "CREATE POLICY "@ + p.name + " ON "@ + table + target_clause(p.target) + roles_clause(p.roles)
        + wrap_opt(" USING ("@, p.using_expr, ")"@) + wrap_opt(" WITH CHECK ("@, p.check_expr, ")"@)
        + ";"@ + policy_comment_clause(table, p) + state_clause(table, p.name, p.state)
}

/// Generate SQL for an RLS policy
pub fn generate_policy_sql(table_name: &str, policy: &Policy) -> (r: String)
    ensures
        r@ == policy_sql(table_name@, policy@),
{
    let mut sql = String::new();
    sql.append("CREATE POLICY ");
    sql.append(policy.name.as_str());
    sql.append(" ON ");
    sql.append(table_name);
    let ghost head = sql@;
    match policy.target {
        PolicyTarget::All => {},
        _ => {
            sql.append(" FOR ");
            sql.append(policy.target.keyword());
        },
    }
    assert(sql@ =~= head + target_clause(policy@.target));
    let ghost with_target = sql@;
    if policy.roles.len() > 0 {
        let roles = join_strings(&policy.roles, ", ");
        sql.append(" TO ");
        sql.append(roles.as_str());
    }
    assert(sql@ =~= with_target + roles_clause(policy@.roles));
    let using_clause = wrap_opt_string(" USING (", &policy.using_expr, ")");
    sql.append(using_clause.as_str());
    let check_clause = wrap_opt_string(" WITH CHECK (", &policy.check_expr, ")");
    sql.append(check_clause.as_str());
    sql.append(";");
    let ghost before_comment = sql@;
    match &policy.comment {
        Some(c) => {
            let escaped = escape_quotes_string(c.as_str());
            sql.append("\nCOMMENT ON POLICY ");
            sql.append(policy.name.as_str());
            sql.append(" ON ");
            sql.append(table_name);
            sql.append(" IS '");
            sql.append(escaped.as_str());
            sql.append("';\n");
        },
        None => {},
    }
    assert(sql@ =~= before_comment + policy_comment_clause(table_name@, policy@));
    let ghost before_state = sql@;
    match policy.state {
        PolicyState::Enabled => {},
        PolicyState::Disabled => {
            sql.append("\nALTER POLICY ");
            sql.append(policy.name.as_str());
            sql.append(" ON ");
            sql.append(table_name);
            sql.append(" DISABLE;\n");
        },
        PolicyState::Testing => {
            sql.append("\n-- Policy ");
            sql.append(policy.name.as_str());
            sql.append(" is in TESTING mode\n");
        },
    }
    assert(sql@ =~= before_state + state_clause(table_name@, policy@.name, policy@.state));
    assert(sql@ =~= policy_sql(table_name@, policy@));
    sql
}

/// The statement that enables RLS on a table.
pub open spec fn enable_rls_statement(table: Seq<char>) -> Seq<char> {
    "ALTER TABLE "@ + table + " ENABLE ROW LEVEL SECURITY;"@
}

/// The statement that forces RLS on a table.
pub open spec fn force_rls_statement(table: Seq<char>) -> Seq<char> {
    "ALTER TABLE "@ + table + " FORCE ROW LEVEL SECURITY;"@
}

/// Generate SQL to enable RLS on a table
pub fn generate_enable_rls_sql(table_name: &str) -> (r: String)
    ensures
        r@ == enable_rls_statement(table_name@),
{
    let mut sql = String::new();
    sql.append("ALTER TABLE ");
    sql.append(table_name);
    sql.append(" ENABLE ROW LEVEL SECURITY;");
    sql
}

/// Generate SQL to force RLS on a table (even for table owners)
pub fn generate_force_rls_sql(table_name: &str) -> (r: String)
    ensures
        r@ == force_rls_statement(table_name@),
{
    let mut sql = String::new();
    sql.append("ALTER TABLE ");
    sql.append(table_name);
    sql.append(" FORCE ROW LEVEL SECURITY;");
    sql
}

/// The SQL that creates a policy on a table starts with
/// `CREATE POLICY <name> ON <table>`; it names the operation after `FOR`
/// unless the policy covers them all, the roles after `TO` when there are
/// some, the `USING` and `WITH CHECK` expressions when they are set, and a
/// disabled policy is followed by the statement that disables it.
pub proof fn law_policy_sql_clauses(table: Seq<char>, p: SpecPolicy)
    ensures
        ("CREATE POLICY "@ + p.name + " ON "@ + table).is_prefix_of(policy_sql(table, p)),
        p.target != PolicyTarget::All ==> occurs_in(
            " FOR "@ + target_keyword(p.target),
            policy_sql(table, p),
        ),
        p.roles.len() > 0 ==> occurs_in(" TO "@ + join(p.roles, ", "@), policy_sql(table, p)),
        p.using_expr matches Some(u) ==> occurs_in(" USING ("@ + u + ")"@, policy_sql(table, p)),
        p.check_expr matches Some(c) ==> occurs_in(
            " WITH CHECK ("@ + c + ")"@,
            policy_sql(table, p),
        ),
        p.state == PolicyState::Disabled ==> occurs_in(
            "\nALTER POLICY "@ + p.name + " ON "@ + table + " DISABLE;\n"@,
            policy_sql(table, p),
        ),
{
    let head = "CREATE POLICY "@ + p.name + " ON "@ + table;
    let t = target_clause(p.target);
    let r = roles_clause(p.roles);
    let u = wrap_opt(" USING ("@, p.using_expr, ")"@);
    let c = wrap_opt(" WITH CHECK ("@, p.check_expr, ")"@);
    let cm = policy_comment_clause(table, p);
    let st = state_clause(table, p.name, p.state);
    let sql = policy_sql(table, p);
    assert(sql == head + t + r + u + c + ";"@ + cm + st);
    assert(sql.subrange(0, head.len() as int) =~= head);
    lemma_occurs_suffix(head, t);
    lemma_occurs_append(t, head + t, r);
    lemma_occurs_append(t, head + t + r, u);
    lemma_occurs_append(t, head + t + r + u, c);
    lemma_occurs_append(t, head + t + r + u + c, ";"@);
    lemma_occurs_append(t, head + t + r + u + c + ";"@, cm);
    lemma_occurs_append(t, head + t + r + u + c + ";"@ + cm, st);
    lemma_occurs_suffix(head + t, r);
    lemma_occurs_append(r, head + t + r, u);
    lemma_occurs_append(r, head + t + r + u, c);
    lemma_occurs_append(r, head + t + r + u + c, ";"@);
    lemma_occurs_append(r, head + t + r + u + c + ";"@, cm);
    lemma_occurs_append(r, head + t + r + u + c + ";"@ + cm, st);
    lemma_occurs_suffix(head + t + r, u);
    lemma_occurs_append(u, head + t + r + u, c);
    lemma_occurs_append(u, head + t + r + u + c, ";"@);
    lemma_occurs_append(u, head + t + r + u + c + ";"@, cm);
    lemma_occurs_append(u, head + t + r + u + c + ";"@ + cm, st);
    lemma_occurs_suffix(head + t + r + u, c);
    lemma_occurs_append(c, head + t + r + u + c, ";"@);
    lemma_occurs_append(c, head + t + r + u + c + ";"@, cm);
    lemma_occurs_append(c, head + t + r + u + c + ";"@ + cm, st);
    lemma_occurs_suffix(head + t + r + u + c + ";"@ + cm, st);
}


/// Whatever the policy's state, a policy with a comment is followed by its
/// `COMMENT ON POLICY` statement, with the comment's quotes doubled.
pub proof fn law_policy_comment_written(table: Seq<char>, p: SpecPolicy)
    ensures
        p.comment matches Some(c) ==> occurs_in(
            "\nCOMMENT ON POLICY "@ + p.name + " ON "@ + table + " IS '"@ + escape_quotes(c)
                + "';\n"@,
            policy_sql(table, p),
        ),
{
    let head = "CREATE POLICY "@ + p.name + " ON "@ + table + target_clause(p.target) + roles_clause(
        p.roles,
    ) + wrap_opt(" USING ("@, p.using_expr, ")"@) + wrap_opt(" WITH CHECK ("@, p.check_expr, ")"@)
        + ";"@;
    let cm = policy_comment_clause(table, p);
    let st = state_clause(table, p.name, p.state);
    assert(policy_sql(table, p) == head + cm + st);
    lemma_occurs_middle(head, cm, st);
}

} // verus!

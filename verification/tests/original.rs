use kohori::dialect;
use kohori::rls::{generate_policy_sql, Policy, PolicyTarget, SecurityContext};
use kohori::schema::{Column, DataType, Table};
use kohori::Schema;

#[test]
fn test_simple_schema() {
    let mut schema = Schema::new("public");

    let users = Table::new("users")
        .column(Column::new("id", DataType::UUID).primary_key().default("gen_random_uuid()"))
        .column(Column::new("email", DataType::Text).not_null())
        .rls_policy(
            Policy::new("users_select_policy")
                .using("auth.uid() = id")
                .target(PolicyTarget::Select)
                .security_context(SecurityContext::Authenticated),
        );

    schema.add_table(users.clone());

    let migration = schema.generate_migration("create_users");
    let sql = migration.to_sql(&dialect::PostgreSQL::default());

    assert!(sql.contains("CREATE TABLE"));
    assert!(sql.contains("users"));
    assert!(sql.contains("ENABLE ROW LEVEL SECURITY"));
}

#[test]
fn test_policy_builder() {
    let policy = Policy::new("test_policy")
        .using("user_id = auth.uid()")
        .target(PolicyTarget::Select)
        .security_context(SecurityContext::Authenticated)
        .comment("Test policy for authenticated users");

    assert_eq!(policy.name, "test_policy");
    assert_eq!(policy.using_expr, Some("user_id = auth.uid()".to_string()));
    assert_eq!(policy.target, PolicyTarget::Select);
    assert_eq!(policy.security_context, SecurityContext::Authenticated);
    assert_eq!(policy.comment, Some("Test policy for authenticated users".to_string()));
}

#[test]
fn test_generate_policy_sql() {
    let policy = Policy::new("test_policy")
        .using("user_id = auth.uid()")
        .target(PolicyTarget::Select)
        .roles(vec!["authenticated".to_string()]);

    let sql = generate_policy_sql("users", &policy);
    assert!(sql.contains("CREATE POLICY test_policy ON users"));
    assert!(sql.contains("FOR SELECT"));
    assert!(sql.contains("TO authenticated"));
    assert!(sql.contains("USING (user_id = auth.uid())"));
}

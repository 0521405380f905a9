use evermemos_rs::tenant::{tenant_from_headers, TenantContext};

#[test]
fn default_context_is_empty() {
    let ctx = TenantContext::default();
    assert_eq!(ctx.org_id, "");
    assert_eq!(ctx.space_id, "");
    assert!(!ctx.is_group());
}

#[test]
fn new_sets_fields() {
    let ctx = TenantContext::new("acme", "team-a");
    assert_eq!(ctx.org_id, "acme");
    assert_eq!(ctx.space_id, "team-a");
    assert!(ctx.is_group());
}

#[test]
fn table_suffix_org_only() {
    let ctx = TenantContext::new("my-org", "");
    assert_eq!(ctx.table_suffix(), "my_org");
}

#[test]
fn table_suffix_org_and_space() {
    let ctx = TenantContext::new("my-org", "my-space");
    assert_eq!(ctx.table_suffix(), "my_org_my_space");
}

#[test]
fn is_group_false_when_no_space() {
    let ctx = TenantContext::new("org1", "");
    assert!(!ctx.is_group());
}

#[test]
fn headers_default_to_default_org_and_no_space() {
    let ctx = tenant_from_headers(None, None);
    assert_eq!(ctx.org_id, "default");
    assert_eq!(ctx.space_id, "");
    assert!(!ctx.is_group());
}

#[test]
fn headers_fill_the_context() {
    let ctx = tenant_from_headers(Some("acme"), Some("ops"));
    assert_eq!(ctx.org_id, "acme");
    assert_eq!(ctx.space_id, "ops");
    assert_eq!(ctx.table_suffix(), "acme_ops");
}

#[test]
fn suffix_never_holds_a_dash() {
    let ctx = TenantContext::new("a-b-c", "d--e");
    let s = ctx.table_suffix();
    assert!(!s.contains('-'));
    assert_eq!(s, "a_b_c_d__e");
}

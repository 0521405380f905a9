//! Tenant identity carried by every request, and the table suffix that keeps
//! tenants' data apart.
use vstd::prelude::*;
use crate::text::{replace_char, replace_char_seq, push_char, push_str};

verus! {

/// Organisation and space of a request (`X-Organization-Id`, `X-Space-Id`).
#[derive(Debug, Clone, Default)]
pub struct TenantContext {
    /// Organisation identifier.
    pub org_id: String,
    /// Space identifier; empty when the request is not scoped to a group.
    pub space_id: String,
}

/// The suffix for a tenant: the organisation with `-` turned into `_`, then,
/// when a space is set, `_` and the space treated the same way.
pub open spec fn table_suffix_spec(org: Seq<char>, space: Seq<char>) -> Seq<char> {
    if space.len() == 0 {
        replace_char_seq(org, '-', '_')
    } else {
        replace_char_seq(org, '-', '_') + seq!['_'] + replace_char_seq(space, '-', '_')
    }
}

impl TenantContext {
    /// A context for the given organisation and space.
    pub fn new(org_id: &str, space_id: &str) -> (r: Self)
        ensures
            r.org_id@ == org_id@,
            r.space_id@ == space_id@,
    {
        TenantContext { org_id: org_id.to_owned(), space_id: space_id.to_owned() }
    }

    /// True when the context names a space (a group).
    pub fn is_group(&self) -> (r: bool)
        ensures
            r == (self.space_id@.len() > 0),
    {
        !self.space_id.as_str().is_empty()
    }

    /// Table-name suffix that isolates this tenant's data.
    pub fn table_suffix(&self) -> (r: String)
        ensures
            r@ == table_suffix_spec(self.org_id@, self.space_id@),
    {
        let org = replace_char(self.org_id.as_str(), '-', '_');
        if self.space_id.as_str().is_empty() {
            org
        } else {
            let mut r = org;
            push_char(&mut r, '_');
            let space = replace_char(self.space_id.as_str(), '-', '_');
            push_str(&mut r, space.as_str());
            r
        }
    }
}

/// The context a request gets from its two headers: the organisation
/// defaults to `default`, the space to the empty string.
pub fn tenant_from_headers(org: Option<&str>, space: Option<&str>) -> (r: TenantContext)
    ensures
        r.org_id@ == (match org {
            Some(o) => o@,
            None => "default"@,
        }),
        r.space_id@ == (match space {
            Some(s) => s@,
            None => Seq::<char>::empty(),
        }),
{
    let o = match org {
        Some(o) => o,
        None => "default",
    };
    let s = match space {
        Some(s) => s,
        None => "",
    };
    proof {
        reveal_strlit("");
    }
    TenantContext::new(o, s)
}

/// A table suffix never contains `-`: every dash of the organisation and of
/// the space has become `_`, so the suffix is a valid identifier fragment.
pub proof fn law_suffix_has_no_dash(org: Seq<char>, space: Seq<char>)
    ensures
        forall|i: int|
            0 <= i < table_suffix_spec(org, space).len() ==> #[trigger] table_suffix_spec(
                org,
                space,
            )[i] != '-',
{
    let a = replace_char_seq(org, '-', '_');
    let b = replace_char_seq(space, '-', '_');
    if space.len() > 0 {
        let t = a + seq!['_'] + b;
        assert forall|i: int| 0 <= i < t.len() implies #[trigger] t[i] != '-' by {
            if i < a.len() {
                assert(t[i] == a[i]);
            } else if i == a.len() {
                assert(t[i] == '_');
            } else {
                assert(t[i] == b[i - a.len() - 1]);
            }
        }
    }
}

} // verus!

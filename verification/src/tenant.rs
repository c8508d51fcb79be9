//! Tenant resolution: the closed set of named services, the company
//! identifier each one embeds in issued claims, and the default resolver.

use vstd::prelude::*;

verus! {

/// The closed set of tenants, each with its own signing key and company name.
#[derive(Debug, Clone, Copy, PartialEq, Eq, Structural)]
pub enum Services {
    Piarcha,
    UnusualRefugee,
}

/// The company identifier that a tenant embeds in issued claims:
/// `"piarch_a"` for `Piarcha` and `"unusual_refugee"` for `UnusualRefugee`.
pub open spec fn company_of(s: Services) -> Seq<u8> {
    match s {
        Services::Piarcha => seq![112u8, 105u8, 97u8, 114u8, 99u8, 104u8, 95u8, 97u8],
        Services::UnusualRefugee => seq![
            117u8,
            110u8,
            117u8,
            115u8,
            117u8,
            97u8,
            108u8,
            95u8,
            114u8,
            101u8,
            102u8,
            117u8,
            103u8,
            101u8,
            101u8,
        ],
    }
}

/// Returns the company identifier of the tenant as bytes.
pub fn company_name(s: &Services) -> (r: Vec<u8>)
    ensures
        r@ == company_of(*s),
{
    let mut r: Vec<u8> = Vec::new();
    match s {
        Services::Piarcha => {
            r.push(112);
            r.push(105);
            r.push(97);
            r.push(114);
            r.push(99);
            r.push(104);
            r.push(95);
            r.push(97);
        },
        Services::UnusualRefugee => {
            r.push(117);
            r.push(110);
            r.push(117);
            r.push(115);
            r.push(117);
            r.push(97);
            r.push(108);
            r.push(95);
            r.push(114);
            r.push(101);
            r.push(102);
            r.push(117);
            r.push(103);
            r.push(101);
            r.push(101);
        },
    }
    proof {
        assert(r@ =~= company_of(*s));
    }
    r
}

/// Maps a request context to a tenant. No request attribute is wired to the
/// selection yet, so every request resolves to the configured default; the
/// type is the seam where a selection rule would go.
#[derive(Debug, Clone, Copy, PartialEq, Eq, Structural)]
pub struct TenantResolver {
    pub default_service: Services,
}

impl TenantResolver {
    /// Resolves the tenant for a request: always the configured default.
    pub fn resolve(&self) -> (r: Services)
        ensures
            r == self.default_service,
    {
        self.default_service
    }
}

} // verus!

//! Third-party grants and the allow-list filter.
//!
//! The orchestrator enumerates every third-party application authorized
//! against the primary account and revokes each one, except the single
//! allow-listed application (its own client).

use vstd::prelude::*;

verus! {

/// One third-party application's stored authorization.
#[derive(Debug, PartialEq, Eq)]
pub struct ThirdPartyGrant {
    /// The identifier of the authorized application.
    pub app_id: String,
    /// The token under which the grant is revoked.
    pub token: String,
}

/// The mathematical image of a grant.
#[verifier::ext_equal]
pub struct GrantView {
    pub app_id: Seq<char>,
    pub token: Seq<char>,
}

impl DeepView for ThirdPartyGrant {
    type V = GrantView;

    open spec fn deep_view(&self) -> GrantView {
        GrantView { app_id: self.app_id@, token: self.token@ }
    }
}

/// The grants that must be revoked: every grant whose application id differs
/// from the allow-listed one, in their original order.
pub open spec fn revocable_grants(grants: Seq<GrantView>, allowlisted: Seq<char>) -> Seq<
    GrantView,
> {
    grants.filter(|g: GrantView| g.app_id != allowlisted)
}

/// The revocation tokens of a sequence of grants, in the same order.
pub open spec fn tokens_of(grants: Seq<GrantView>) -> Seq<Seq<char>> {
    grants.map_values(|g: GrantView| g.token)
}

/// The revocation tokens of the revocable grants, in the same order.
pub open spec fn revocable_tokens(grants: Seq<GrantView>, allowlisted: Seq<char>) -> Seq<
    Seq<char>,
> {
    tokens_of(revocable_grants(grants, allowlisted))
}

/// Keep exactly the grants that are to be revoked: all of them except the
/// allow-listed application, in their original order.
pub fn filter_revocable(grants: &Vec<ThirdPartyGrant>, allowlisted_app_id: &String) -> (r: Vec<
    ThirdPartyGrant,
>)
    ensures
        r.deep_view() == revocable_grants(grants.deep_view(), allowlisted_app_id@),
{
    let mut r: Vec<ThirdPartyGrant> = Vec::new();
    let mut i: usize = 0;
    while i < grants.len()
        invariant
            i <= grants.len(),
            r.deep_view() == revocable_grants(
                grants.deep_view().take(i as int),
                allowlisted_app_id@,
            ),
        decreases grants.len() - i,
    {
        let g = &grants[i];
        if !(g.app_id == *allowlisted_app_id) {
            let kept = ThirdPartyGrant { app_id: g.app_id.clone(), token: g.token.clone() };
            proof {
                assert(kept.deep_view() =~~= grants.deep_view()[i as int]);
            }
            r.push(kept);
        }
        proof {
            reveal(Seq::filter);
            let gv = grants.deep_view();
            let extended = gv.take(i + 1);
            assert(extended.drop_last() =~~= gv.take(i as int));
            assert(extended.last() =~~= gv[i as int]);
            assert(r.deep_view() =~~= revocable_grants(extended, allowlisted_app_id@));
        }
        i = i + 1;
    }
    proof {
        assert(grants.deep_view().take(grants.len() as int) =~~= grants.deep_view());
    }
    r
}

/// The revocation tokens of every grant that is to be revoked, in order.
pub fn revocation_tokens(grants: &Vec<ThirdPartyGrant>, allowlisted_app_id: &String) -> (r: Vec<
    String,
>)
    ensures
        r.deep_view() == revocable_tokens(grants.deep_view(), allowlisted_app_id@),
{
    let revocable = filter_revocable(grants, allowlisted_app_id);
    let mut r: Vec<String> = Vec::new();
    let mut i: usize = 0;
    while i < revocable.len()
        invariant
            i <= revocable.len(),
            revocable.deep_view() == revocable_grants(grants.deep_view(), allowlisted_app_id@),
            r.deep_view() == tokens_of(revocable.deep_view().take(i as int)),
        decreases revocable.len() - i,
    {
        proof {
            let rv = revocable.deep_view();
            assert(rv.len() == revocable@.len());
            assert(r.deep_view().len() == r@.len());
            assert(tokens_of(rv.take(i as int)).len() == i);
        }
        r.push(revocable[i].token.clone());
        proof {
            let rv = revocable.deep_view();
            assert(r@.len() == i + 1);
            assert forall|j: int| 0 <= j < i + 1 implies r.deep_view()[j] == tokens_of(
                rv.take(i + 1),
            )[j] by {
                if j < i {
                    assert(r.deep_view()[j] == tokens_of(rv.take(i as int))[j]);
                } else {
                    assert(r.deep_view()[j] == rv[i as int].token);
                }
            }
            assert(r.deep_view() =~~= tokens_of(rv.take(i + 1)));
        }
        i = i + 1;
    }
    proof {
        assert(revocable.deep_view().take(revocable.len() as int) =~~= revocable.deep_view());
    }
    r
}

} // verus!

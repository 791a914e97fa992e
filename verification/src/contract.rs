//! The certificate registry itself: who may issue, the append-only template
//! and certificate stores, and the batch operations over them.
//!
//! Every state-changing operation takes the authenticated caller as an
//! explicit argument and is all-or-nothing: a refused call leaves the whole
//! state exactly as it was.

use vstd::prelude::*;

use crate::types::{Certificate, CertificateStatus, CertificateTemplate, ContractError,
    IssuerProfile};

verus! {

/// One registration: an account bound to its profile. Later registrations of
/// the same account shadow earlier ones; none is ever removed.
pub struct IssuerEntry {
    pub account_id: String,
    pub profile: IssuerProfile,
}

/// The registry and ledger state. The owner is the privileged identity fixed
/// at construction; `certificate_templates` and `certificates` are
/// append-only, with ids equal to insertion indices.
pub struct CertificatesContract {
    pub owner_account_id: String,
    pub certificate_issuers: Vec<IssuerEntry>,
    pub certificate_templates: Vec<CertificateTemplate>,
    pub certificates: Vec<Certificate>,
}

/// The profile registered for `id`: the most recent entry wins.
pub open spec fn spec_lookup_issuer(entries: Seq<IssuerEntry>, id: Seq<char>) -> Option<
    IssuerProfile,
>
    decreases entries.len(),
{
    if entries.len() == 0 {
        Option::None
    } else if entries.last().account_id@ == id {
        Option::Some(entries.last().profile)
    } else {
        spec_lookup_issuer(entries.drop_last(), id)
    }
}

/// The first issuer refusal an issue batch runs into: `IssuerMismatch` at
/// the first draft, in batch order, naming an issuer other than the caller;
/// `None` when every draft names the caller.
pub open spec fn spec_mismatch_check(drafts: Seq<Certificate>, caller: Seq<char>) -> Option<
    ContractError,
>
    decreases drafts.len(),
{
    if drafts.len() == 0 {
        Option::None
    } else if drafts[0].issuer_account_id@ != caller {
        Option::Some(ContractError::IssuerMismatch)
    } else {
        spec_mismatch_check(drafts.drop_first(), caller)
    }
}

/// The first template refusal an issue batch runs into: `NotFound` at the
/// first draft, in batch order, referencing a template id with no template;
/// `None` when every reference exists.
pub open spec fn spec_template_check(drafts: Seq<Certificate>, n_templates: nat) -> Option<
    ContractError,
>
    decreases drafts.len(),
{
    if drafts.len() == 0 {
        Option::None
    } else if drafts[0].certificate_template_id >= n_templates {
        Option::Some(ContractError::NotFound)
    } else {
        spec_template_check(drafts.drop_first(), n_templates)
    }
}

/// The refusal an issue batch runs into: every draft's declared issuer is
/// held against the caller first, over the whole batch, so a mismatch
/// anywhere reports `IssuerMismatch`; only then is each draft's template
/// reference checked. `None` when every draft passes both.
pub open spec fn spec_issue_check(
    drafts: Seq<Certificate>,
    caller: Seq<char>,
    n_templates: nat,
) -> Option<ContractError> {
    if spec_mismatch_check(drafts, caller) is Some {
        spec_mismatch_check(drafts, caller)
    } else {
        spec_template_check(drafts, n_templates)
    }
}

/// An issue batch holding any draft whose declared issuer differs from the
/// caller is refused as a whole with `IssuerMismatch`, whatever its template
/// references: no certificate of it is ever persisted.
pub proof fn lemma_issue_mismatch_refused(
    drafts: Seq<Certificate>,
    caller: Seq<char>,
    n_templates: nat,
    i: int,
)
    requires
        0 <= i < drafts.len(),
        drafts[i].issuer_account_id@ != caller,
    ensures
        spec_issue_check(drafts, caller, n_templates) == Some(ContractError::IssuerMismatch),
    decreases i,
{
    lemma_mismatch_found(drafts, caller, i);
}

/// A mismatched draft anywhere in the batch makes the issuer check refuse.
proof fn lemma_mismatch_found(drafts: Seq<Certificate>, caller: Seq<char>, i: int)
    requires
        0 <= i < drafts.len(),
        drafts[i].issuer_account_id@ != caller,
    ensures
        spec_mismatch_check(drafts, caller) == Some(ContractError::IssuerMismatch),
    decreases i,
{
    if drafts[0].issuer_account_id@ == caller {
        assert(drafts.drop_first()[i - 1] == drafts[i]);
        lemma_mismatch_found(drafts.drop_first(), caller, i - 1);
    }
}

/// A revocation batch holding an id with no certificate, every id before it
/// in order passing, is refused as a whole with `NotFound`: no certificate
/// of the batch is ever modified.
pub proof fn lemma_revoke_missing_id_refused(
    certs: Seq<Certificate>,
    caller: Seq<char>,
    is_owner: bool,
    ids: Seq<u64>,
    i: int,
)
    requires
        0 <= i < ids.len(),
        ids[i] >= certs.len(),
        forall|k: int|
            0 <= k < i ==> (#[trigger] ids[k]) < certs.len() && (is_owner
                || certs[ids[k] as int].issuer_account_id@ == caller),
    ensures
        spec_revoke_check(certs, caller, is_owner, ids) == Some(ContractError::NotFound),
    decreases i,
{
    if i > 0 {
        assert(ids[0] < certs.len());
        assert forall|k: int|
            0 <= k < i - 1 implies (#[trigger] ids.drop_first()[k]) < certs.len() && (is_owner
            || certs[ids.drop_first()[k] as int].issuer_account_id@ == caller) by {
            assert(ids.drop_first()[k] == ids[k + 1]);
        }
        assert(ids.drop_first()[i - 1] == ids[i]);
        lemma_revoke_missing_id_refused(certs, caller, is_owner, ids.drop_first(), i - 1);
    }
}

/// The first refusal a revocation batch runs into, in batch order:
/// `NotFound` for an id with no certificate, `Unauthorized` where the caller
/// is not the owner and not the certificate's issuer; `None` when every id
/// passes.
pub open spec fn spec_revoke_check(
    certs: Seq<Certificate>,
    caller: Seq<char>,
    is_owner: bool,
    ids: Seq<u64>,
) -> Option<ContractError>
    decreases ids.len(),
{
    if ids.len() == 0 {
        Option::None
    } else if ids[0] >= certs.len() {
        Option::Some(ContractError::NotFound)
    } else if !is_owner && certs[ids[0] as int].issuer_account_id@ != caller {
        Option::Some(ContractError::Unauthorized)
    } else {
        spec_revoke_check(certs, caller, is_owner, ids.drop_first())
    }
}

/// `j` is one of the ids in the batch.
pub open spec fn spec_id_in(ids: Seq<u64>, j: int) -> bool {
    exists|k: int| 0 <= k < ids.len() && ids[k] == j
}

/// `c` is `orig` with its status overwritten to `Revoked` carrying `reason`;
/// every other field is untouched.
pub open spec fn spec_revoked_copy(c: Certificate, orig: Certificate, reason: Seq<char>) -> bool {
    &&& c.issuer_account_id == orig.issuer_account_id
    &&& c.certificate_template_id == orig.certificate_template_id
    &&& c.encrypted_certificate_data == orig.encrypted_certificate_data
    &&& c.certificate_encryption_nonce == orig.certificate_encryption_nonce
    &&& c.certificate_encryption_recovery == orig.certificate_encryption_recovery
    &&& c.status matches CertificateStatus::Revoked { reason: r } && r@ == reason
}

/// A batch that passes the check refers only to existing certificates, each
/// of which the caller may revoke.
proof fn lemma_revoke_check_none(
    certs: Seq<Certificate>,
    caller: Seq<char>,
    is_owner: bool,
    ids: Seq<u64>,
)
    requires
        spec_revoke_check(certs, caller, is_owner, ids) is None,
    ensures
        forall|k: int|
            0 <= k < ids.len() ==> (#[trigger] ids[k]) < certs.len() && (is_owner
                || certs[ids[k] as int].issuer_account_id@ == caller),
    decreases ids.len(),
{
    if ids.len() > 0 {
        lemma_revoke_check_none(certs, caller, is_owner, ids.drop_first());
        assert forall|k: int|
            0 <= k < ids.len() implies (#[trigger] ids[k]) < certs.len() && (is_owner
            || certs[ids[k] as int].issuer_account_id@ == caller) by {
            if k > 0 {
                assert(ids.drop_first()[k - 1] == ids[k]);
            }
        }
    }
}

impl CertificatesContract {
    /// The registered profile for `id`, if any.
    pub open spec fn spec_issuer_profile(&self, id: Seq<char>) -> Option<IssuerProfile> {
        spec_lookup_issuer(self.certificate_issuers@, id)
    }

    /// `id` is a registered issuer.
    pub open spec fn spec_is_issuer(&self, id: Seq<char>) -> bool {
        self.spec_issuer_profile(id) is Some
    }

    /// `caller` is the privileged identity controlling the whole registry.
    pub open spec fn spec_is_owner(&self, caller: Seq<char>) -> bool {
        self.owner_account_id@ == caller
    }

    /// Well-formedness: every certificate references an existing template.
    /// Established at construction and preserved by every operation.
    pub open spec fn spec_wf(&self) -> bool {
        forall|i: int|
            0 <= i < self.certificates@.len() ==> (#[trigger] self.certificates@[i]).certificate_template_id
                < self.certificate_templates@.len()
    }

    /// Creates an empty registry owned by `owner_account_id`.
    pub fn new(owner_account_id: String) -> (c: Self)
        ensures
            c.owner_account_id == owner_account_id,
            c.certificate_issuers@ == Seq::<IssuerEntry>::empty(),
            c.certificate_templates@ == Seq::<CertificateTemplate>::empty(),
            c.certificates@ == Seq::<Certificate>::empty(),
            c.spec_wf(),
    {
        CertificatesContract {
            owner_account_id,
            certificate_issuers: Vec::new(),
            certificate_templates: Vec::new(),
            certificates: Vec::new(),
        }
    }

    /// Membership test consumed by every authorization check.
    #[verifier::loop_isolation(false)]
    pub fn is_issuer(&self, account_id: &String) -> (r: bool)
        ensures
            r == self.spec_is_issuer(account_id@),
    {
        let entries = &self.certificate_issuers;
        let mut i: usize = entries.len();
        proof {
            assert(entries@.take(entries@.len() as int) =~= entries@);
        }
        while i > 0
            invariant
                i <= entries@.len(),
                spec_lookup_issuer(entries@, account_id@) == spec_lookup_issuer(
                    entries@.take(i as int),
                    account_id@,
                ),
            decreases i,
        {
            i = i - 1;
            if entries[i].account_id.eq(account_id) {
                proof {
                    assert(entries@.take(i + 1).last() == entries@[i as int]);
                    assert(spec_lookup_issuer(entries@.take(i + 1), account_id@)
                        == Option::Some(entries@[i as int].profile));
                }
                return true;
            }
            proof {
                assert(entries@.take(i + 1).last() == entries@[i as int]);
                assert(entries@.take(i + 1).drop_last() =~= entries@.take(i as int));
            }
        }
        false
    }

    /// Registers `issuer_account_id`, inserting or overwriting its profile.
    /// Only the owner may call this; anyone else is refused with
    /// `Unauthorized` and changes nothing. No operation ever removes an
    /// issuer again.
    pub fn register_issuer(
        &mut self,
        caller: &String,
        issuer_account_id: String,
        issuer_profile: IssuerProfile,
    ) -> (r: Result<(), ContractError>)
        ensures
            old(self).spec_is_owner(caller@) ==> {
                &&& r is Ok
                &&& forall|x: Seq<char>|
                    #[trigger] final(self).spec_issuer_profile(x) == if x == issuer_account_id@ {
                        Option::Some(issuer_profile)
                    } else {
                        old(self).spec_issuer_profile(x)
                    }
                &&& final(self).owner_account_id == old(self).owner_account_id
                &&& final(self).certificate_templates == old(self).certificate_templates
                &&& final(self).certificates == old(self).certificates
            },
            !old(self).spec_is_owner(caller@) ==> r == Err::<(), ContractError>(
                ContractError::Unauthorized,
            ) && *final(self) == *old(self),
            old(self).spec_wf() ==> final(self).spec_wf(),
    {
        if !caller.eq(&self.owner_account_id) {
            return Err(ContractError::Unauthorized);
        }
        let ghost entry_id: Seq<char> = issuer_account_id@;
        let ghost profile = issuer_profile;
        self.certificate_issuers.push(IssuerEntry { account_id: issuer_account_id, profile: issuer_profile });
        proof {
            let es = self.certificate_issuers@;
            assert forall|x: Seq<char>|
                #[trigger] self.spec_issuer_profile(x) == if x == entry_id {
                    Option::Some(profile)
                } else {
                    old(self).spec_issuer_profile(x)
                } by {
                assert(es.last().account_id@ == entry_id);
                assert(es.drop_last() =~= old(self).certificate_issuers@);
            }
        }
        Ok(())
    }

    /// Appends a template and returns its id: the number of templates before
    /// the call, so the k-th successful registration returns id k-1. Refused
    /// with `Unauthorized`, changing nothing, unless the caller is a
    /// registered issuer.
    pub fn register_certificate_template(
        &mut self,
        caller: &String,
        certificate_template: CertificateTemplate,
    ) -> (r: Result<u64, ContractError>)
        ensures
            old(self).spec_is_issuer(caller@) ==> {
                &&& r == Ok::<u64, ContractError>(old(self).certificate_templates@.len() as u64)
                &&& final(self).certificate_templates@ == old(
                    self,
                ).certificate_templates@.push(certificate_template)
                &&& final(self).owner_account_id == old(self).owner_account_id
                &&& final(self).certificate_issuers == old(self).certificate_issuers
                &&& final(self).certificates == old(self).certificates
            },
            !old(self).spec_is_issuer(caller@) ==> r == Err::<u64, ContractError>(
                ContractError::Unauthorized,
            ) && *final(self) == *old(self),
            old(self).spec_wf() ==> final(self).spec_wf(),
    {
        if !self.is_issuer(caller) {
            return Err(ContractError::Unauthorized);
        }
        let certificate_template_id = self.certificate_templates.len() as u64;
        self.certificate_templates.push(certificate_template);
        Ok(certificate_template_id)
    }

    /// Appends a batch of certificates, all or none of it.
    ///
    /// Refused with `Unauthorized`, changing nothing, unless the caller is a
    /// registered issuer. Each draft must name the caller as its issuer and
    /// reference an existing template. A draft naming another issuer refuses
    /// the whole batch with `IssuerMismatch`, whatever its template
    /// references; only a batch whose drafts all name the caller can be
    /// refused with `NotFound`, at its first dangling template reference.
    /// Either refusal changes nothing. On success the returned ids preserve
    /// input order and are `n, n+1, ...` where `n` is the certificate count
    /// before the call.
    #[verifier::loop_isolation(false)]
    pub fn issue_certificates(
        &mut self,
        caller: &String,
        certificates: Vec<Certificate>,
    ) -> (r: Result<Vec<u64>, ContractError>)
        requires
            old(self).certificates@.len() + certificates@.len() <= usize::MAX,
        ensures
            !old(self).spec_is_issuer(caller@) ==> r == Err::<Vec<u64>, ContractError>(
                ContractError::Unauthorized,
            ) && *final(self) == *old(self),
            old(self).spec_is_issuer(caller@) && (spec_issue_check(
                certificates@,
                caller@,
                old(self).certificate_templates@.len(),
            ) is Some) ==> r == Err::<Vec<u64>, ContractError>(
                spec_issue_check(
                    certificates@,
                    caller@,
                    old(self).certificate_templates@.len(),
                )->Some_0,
            ) && *final(self) == *old(self),
            old(self).spec_is_issuer(caller@) && (spec_issue_check(
                certificates@,
                caller@,
                old(self).certificate_templates@.len(),
            ) is None) ==> {
                &&& r matches Ok(ids) && ids@.len() == certificates@.len() && forall|i: int|
                    0 <= i < certificates@.len() ==> #[trigger] ids@[i] == old(
                        self,
                    ).certificates@.len() + i
                &&& final(self).certificates@ == old(self).certificates@ + certificates@
                &&& final(self).owner_account_id == old(self).owner_account_id
                &&& final(self).certificate_issuers == old(self).certificate_issuers
                &&& final(self).certificate_templates == old(self).certificate_templates
            },
            old(self).spec_wf() ==> final(self).spec_wf(),
    {
        if !self.is_issuer(caller) {
            return Err(ContractError::Unauthorized);
        }
        let ghost n_templates: nat = self.certificate_templates@.len();
        let n_templates_u64 = self.certificate_templates.len() as u64;
        let mut j: usize = 0;
        proof {
            assert(certificates@.skip(0) =~= certificates@);
        }
        while j < certificates.len()
            invariant
                j <= certificates@.len(),
                spec_mismatch_check(certificates@, caller@) == spec_mismatch_check(
                    certificates@.skip(j as int),
                    caller@,
                ),
                forall|i: int|
                    0 <= i < j ==> (#[trigger] certificates@[i]).issuer_account_id@ == caller@,
            decreases certificates@.len() - j,
        {
            proof {
                assert(certificates@.skip(j as int)[0] == certificates@[j as int]);
            }
            if !certificates[j].issuer_account_id.eq(caller) {
                return Err(ContractError::IssuerMismatch);
            }
            proof {
                assert(certificates@.skip(j as int).drop_first() =~= certificates@.skip(j + 1));
            }
            j += 1;
        }
        proof {
            assert(certificates@.skip(certificates@.len() as int) =~= Seq::<Certificate>::empty());
            assert(spec_mismatch_check(certificates@, caller@) is None);
        }
        let mut t: usize = 0;
        proof {
            assert(certificates@.skip(0) =~= certificates@);
        }
        while t < certificates.len()
            invariant
                t <= certificates@.len(),
                spec_template_check(certificates@, n_templates) == spec_template_check(
                    certificates@.skip(t as int),
                    n_templates,
                ),
                forall|i: int|
                    0 <= i < t ==> (#[trigger] certificates@[i]).certificate_template_id
                        < n_templates,
            decreases certificates@.len() - t,
        {
            proof {
                assert(certificates@.skip(t as int)[0] == certificates@[t as int]);
            }
            if certificates[t].certificate_template_id >= n_templates_u64 {
                return Err(ContractError::NotFound);
            }
            proof {
                assert(certificates@.skip(t as int).drop_first() =~= certificates@.skip(t + 1));
            }
            t += 1;
        }
        proof {
            assert(certificates@.skip(certificates@.len() as int) =~= Seq::<Certificate>::empty());
        }
        let start = self.certificates.len();
        let mut ids: Vec<u64> = Vec::new();
        let mut k: usize = 0;
        while k < certificates.len()
            invariant
                k <= certificates@.len(),
                start + certificates@.len() <= usize::MAX,
                ids@.len() == k,
                forall|i: int| 0 <= i < k ==> #[trigger] ids@[i] == start + i,
            decreases certificates@.len() - k,
        {
            ids.push((start + k) as u64);
            k += 1;
        }
        let mut drafts = certificates;
        self.certificates.append(&mut drafts);
        Ok(ids)
    }

    /// Sets every certificate in the batch to `Revoked` with `reason`, all or
    /// none of it. The caller must be the owner or a registered issuer; the
    /// owner may revoke anything, an issuer only its own certificates. An id
    /// with no certificate refuses the whole batch with `NotFound`; a
    /// certificate of another issuer refuses it with `Unauthorized`.
    /// Re-revoking is permitted and overwrites the reason.
    #[verifier::loop_isolation(false)]
    pub fn revoke_certificates(
        &mut self,
        caller: &String,
        revoking_certificate_ids: Vec<u64>,
        reason: String,
    ) -> (r: Result<(), ContractError>)
        ensures
            !old(self).spec_is_owner(caller@) && !old(self).spec_is_issuer(caller@) ==> r
                == Err::<(), ContractError>(ContractError::Unauthorized)
                && *final(self) == *old(self),
            (old(self).spec_is_owner(caller@) || old(self).spec_is_issuer(caller@))
                && (spec_revoke_check(
                old(self).certificates@,
                caller@,
                old(self).spec_is_owner(caller@),
                revoking_certificate_ids@,
            ) is Some) ==> r == Err::<(), ContractError>(
                spec_revoke_check(
                    old(self).certificates@,
                    caller@,
                    old(self).spec_is_owner(caller@),
                    revoking_certificate_ids@,
                )->Some_0,
            ) && *final(self) == *old(self),
            (old(self).spec_is_owner(caller@) || old(self).spec_is_issuer(caller@))
                && spec_revoke_check(
                old(self).certificates@,
                caller@,
                old(self).spec_is_owner(caller@),
                revoking_certificate_ids@,
            ) is None ==> {
                &&& r is Ok
                &&& final(self).certificates@.len() == old(self).certificates@.len()
                &&& forall|j: int|
                    0 <= j < old(self).certificates@.len() && spec_id_in(
                        revoking_certificate_ids@,
                        j,
                    ) ==> spec_revoked_copy(
                        #[trigger] final(self).certificates@[j],
                        old(self).certificates@[j],
                        reason@,
                    )
                &&& forall|j: int|
                    0 <= j < old(self).certificates@.len() && !spec_id_in(
                        revoking_certificate_ids@,
                        j,
                    ) ==> #[trigger] final(self).certificates@[j] == old(self).certificates@[j]
                &&& final(self).owner_account_id == old(self).owner_account_id
                &&& final(self).certificate_issuers == old(self).certificate_issuers
                &&& final(self).certificate_templates == old(self).certificate_templates
            },
            old(self).spec_wf() ==> final(self).spec_wf(),
    {
        let is_owner = caller.eq(&self.owner_account_id);
        if !is_owner && !self.is_issuer(caller) {
            return Err(ContractError::Unauthorized);
        }
        let ids = &revoking_certificate_ids;
        let mut j: usize = 0;
        proof {
            assert(ids@.skip(0) =~= ids@);
        }
        while j < ids.len()
            invariant
                j <= ids@.len(),
                is_owner == self.spec_is_owner(caller@),
                spec_revoke_check(self.certificates@, caller@, is_owner, ids@)
                    == spec_revoke_check(self.certificates@, caller@, is_owner, ids@.skip(j as int)),
            decreases ids@.len() - j,
        {
            let id = ids[j];
            proof {
                assert(ids@.skip(j as int)[0] == ids@[j as int]);
            }
            if id >= (self.certificates.len() as u64) {
                return Err(ContractError::NotFound);
            }
            if !is_owner {
                if !self.certificates[id as usize].issuer_account_id.eq(caller) {
                    return Err(ContractError::Unauthorized);
                }
            }
            proof {
                assert(ids@.skip(j as int).drop_first() =~= ids@.skip(j + 1));
            }
            j += 1;
        }
        proof {
            assert(ids@.skip(ids@.len() as int) =~= Seq::<u64>::empty());
            lemma_revoke_check_none(self.certificates@, caller@, is_owner, ids@);
        }
        let ghost orig: Seq<Certificate> = self.certificates@;
        let mut k: usize = 0;
        while k < ids.len()
            invariant
                k <= ids@.len(),
                self.certificates@.len() == orig.len(),
                forall|k2: int|
                    0 <= k2 < ids@.len() ==> (#[trigger] ids@[k2]) < orig.len(),
                forall|j2: int|
                    0 <= j2 < orig.len() && spec_id_in(ids@.take(k as int), j2)
                        ==> spec_revoked_copy(
                        #[trigger] self.certificates@[j2],
                        orig[j2],
                        reason@,
                    ),
                forall|j2: int|
                    0 <= j2 < orig.len() && !spec_id_in(ids@.take(k as int), j2)
                        ==> #[trigger] self.certificates@[j2] == orig[j2],
                self.owner_account_id == old(self).owner_account_id,
                self.certificate_issuers == old(self).certificate_issuers,
                self.certificate_templates == old(self).certificate_templates,
            decreases ids@.len() - k,
        {
            let id = ids[k];
            let len_now = self.certificates.len();
            proof {
                assert(ids@[k as int] == id);
                assert(id < len_now);
            }
            let idx = id as usize;
            let ghost before = self.certificates@;
            let entry = &mut self.certificates[idx];
            entry.status = CertificateStatus::Revoked { reason: reason.clone() };
            proof {
                let after = self.certificates@;
                let ii = idx as int;
                assert(after[ii].issuer_account_id == before[ii].issuer_account_id);
                assert(after[ii].certificate_template_id == before[ii].certificate_template_id);
                assert(after[ii].encrypted_certificate_data == before[ii].encrypted_certificate_data);
                assert(after[ii].certificate_encryption_nonce
                    == before[ii].certificate_encryption_nonce);
                assert(after[ii].certificate_encryption_recovery
                    == before[ii].certificate_encryption_recovery);
                assert(after[ii].status matches CertificateStatus::Revoked { reason: r2 } && r2@
                    == reason@);
                assert(spec_revoked_copy(after[ii], orig[ii], reason@)) by {
                    if spec_id_in(ids@.take(k as int), ii) {
                        assert(spec_revoked_copy(before[ii], orig[ii], reason@));
                    } else {
                        assert(before[ii] == orig[ii]);
                    }
                }
                assert forall|j2: int|
                    0 <= j2 < orig.len() && spec_id_in(ids@.take(k + 1), j2)
                        implies spec_revoked_copy(after[j2], orig[j2], reason@) by {
                    if j2 == ii {
                        assert(spec_revoked_copy(after[ii], orig[ii], reason@));
                    } else {
                        assert(after[j2] == before[j2]);
                        let w = choose|w: int|
                            0 <= w < ids@.take(k + 1).len() && #[trigger] ids@.take(k + 1)[w]
                                == j2;
                        if w < k {
                            assert(spec_id_in(ids@.take(k as int), j2)) by {
                                assert(ids@.take(k as int)[w] == j2);
                            }
                        } else {
                            assert(j2 == ids@[k as int]);
                        }
                    }
                }
                assert forall|j2: int|
                    0 <= j2 < orig.len() && !spec_id_in(ids@.take(k + 1), j2)
                        implies after[j2] == orig[j2] by {
                    assert(j2 != ii) by {
                        if j2 == ids@[k as int] {
                            assert(ids@.take(k + 1)[k as int] == j2);
                        }
                    }
                    assert(after[j2] == before[j2]);
                    assert(!spec_id_in(ids@.take(k as int), j2)) by {
                        if spec_id_in(ids@.take(k as int), j2) {
                            let w = choose|w: int|
                                0 <= w < ids@.take(k as int).len() && #[trigger] ids@.take(
                                    k as int,
                                )[w] == j2;
                            assert(ids@.take(k + 1)[w] == j2);
                        }
                    }
                }
            }
            k += 1;
        }
        proof {
            assert(ids@.take(ids@.len() as int) =~= ids@);
        }
        Ok(())
    }

    /// Looks a certificate up by id; absence is not an error.
    pub fn get_certificate(&self, certificate_id: u64) -> (r: Option<&Certificate>)
        ensures
            certificate_id < self.certificates@.len() ==> (r matches Some(c) && *c
                == self.certificates@[certificate_id as int]),
            certificate_id >= self.certificates@.len() ==> r is None,
    {
        if certificate_id < (self.certificates.len() as u64) {
            Some(&self.certificates[certificate_id as usize])
        } else {
            None
        }
    }
}

} // verus!

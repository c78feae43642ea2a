//! `geetch`: drive a running geetchd's privileged provisioning service.
//!
//! A separate type from the forge adapter, deliberately: holding one means holding the
//! authority to create and delete repositories. Each operation is a request that is sent
//! as it is, and a reply that is unwrapped.

use crate::forge::{ForgeError, ForgeResult};
use crate::gateway::{internal, to_status};
use crate::geetch::err;
use crate::messages::{copy_bytes, seen, ForgeKind, Message, RepoRef, RepoRefView};
use crate::provision::{
    encoded_all, Delivery, DeliverySink, EnsuredDelivery, EnsuredRepo, EnsuredRepoView,
    ForgeProvisioner, Protection, ProtectionSpec, ProtectionSpecView, ProtectionView, ProvisionCall,
    ProvisionReply, ProvisionedRepo, ProvisionedRepoView, RepoSpec, RepoSpecView,
};
use crate::status::{Status, StatusView};
use vstd::prelude::*;

verus! {

// ── the service ─────────────────────────────────────────────────────────────

/// Asks to converge a repository.
pub struct EnsureRepoRequest {
    pub repo: Option<RepoRef>,
    pub spec: Option<RepoSpec>,
}

/// Asks for a repository as it exists.
pub struct DescribeRepoRequest {
    pub repo: Option<RepoRef>,
}

/// Asks for a repository to be made read-only.
pub struct ArchiveRepoRequest {
    pub repo: Option<RepoRef>,
}

/// Asks for a repository to be deleted. The name that confirms it is checked by the
/// server: one authority for a destructive call.
pub struct DeleteRepoRequest {
    pub repo: Option<RepoRef>,
    pub confirm_name: String,
}

/// Asks to converge the protection of a branch.
pub struct EnsureProtectionRequest {
    pub repo: Option<RepoRef>,
    pub branch: String,
    pub spec: Option<ProtectionSpec>,
}

/// Asks for the protection of a branch.
pub struct DescribeProtectionRequest {
    pub repo: Option<RepoRef>,
    pub branch: String,
}

/// Asks for events to be delivered.
pub struct EnsureDeliveryRequest {
    pub repo: Option<RepoRef>,
    pub sink: Option<DeliverySink>,
}

/// Asks for every delivery.
pub struct ListDeliveriesRequest {
    pub repo: Option<RepoRef>,
}

/// Asks for a delivery to be removed.
pub struct RemoveDeliveryRequest {
    pub repo: Option<RepoRef>,
    pub id: String,
}

/// Answers `ensure_repo`.
pub struct EnsureRepoResponse {
    pub repo: Option<ProvisionedRepo>,
    pub created: bool,
}

/// [`EnsureRepoResponse`] by its characters.
pub struct EnsureRepoResponseView {
    pub repo: Option<ProvisionedRepoView>,
    pub created: bool,
}

impl View for EnsureRepoResponse {
    type V = EnsureRepoResponseView;

    open spec fn view(&self) -> EnsureRepoResponseView {
        EnsureRepoResponseView { repo: seen(self.repo), created: self.created }
    }
}

/// A call of the provisioning service.
#[allow(inconsistent_fields)]
pub enum ProvisionServiceCall {
    EnsureRepo { repo: Option<RepoRefView>, spec: Option<RepoSpecView> },
    DescribeRepo { repo: Option<RepoRefView> },
    ArchiveRepo { repo: Option<RepoRefView> },
    DeleteRepo { repo: Option<RepoRefView>, confirm_name: Seq<char> },
    EnsureProtection {
        repo: Option<RepoRefView>,
        branch: Seq<char>,
        spec: Option<ProtectionSpecView>,
    },
    DescribeProtection { repo: Option<RepoRefView>, branch: Seq<char> },
    EnsureDelivery { repo: Option<RepoRefView>, sink: Option<Seq<u8>> },
    ListDeliveries { repo: Option<RepoRefView> },
    RemoveDelivery { repo: Option<RepoRefView>, id: Seq<char> },
}

/// What the provisioning service sent.
pub enum ProvisionServiceReply {
    Ensured(Result<EnsureRepoResponseView, StatusView>),
    Repo(Result<Option<ProvisionedRepoView>, StatusView>),
    Done(Result<(), StatusView>),
    Protection(Result<Option<ProtectionView>, StatusView>),
    FoundProtection(Result<Option<ProtectionView>, StatusView>),
    Delivery(Result<Option<Seq<u8>>, StatusView>),
    Deliveries(Result<Seq<Seq<u8>>, StatusView>),
}

/// The privileged provisioning service, as a client or a server of it sees it.
pub trait ForgeProvisionService: Sized {
    /// What the service keeps true of itself between calls.
    spec fn wf(&self) -> bool;

    /// The service may send this for the call, and is then in this state.
    spec fn serves(
        pre: Self,
        call: ProvisionServiceCall,
        reply: ProvisionServiceReply,
        post: Self,
    ) -> bool;

    fn ensure_repo(
        &mut self,
        request: EnsureRepoRequest,
    ) -> (r: Result<EnsureRepoResponse, Status>)
        requires
            old(self).wf(),
        ensures
            final(self).wf(),
            Self::serves(
                *old(self),
                ProvisionServiceCall::EnsureRepo {
                    repo: seen(request.repo),
                    spec: seen(request.spec),
                },
                ProvisionServiceReply::Ensured(
                    match r {
                        Ok(v) => Ok(v@),
                        Err(s) => Err(s@),
                    },
                ),
                *final(self),
            ),
    ;

    fn describe_repo(
        &mut self,
        request: DescribeRepoRequest,
    ) -> (r: Result<Option<ProvisionedRepo>, Status>)
        requires
            old(self).wf(),
        ensures
            final(self).wf(),
            Self::serves(
                *old(self),
                ProvisionServiceCall::DescribeRepo { repo: seen(request.repo) },
                ProvisionServiceReply::Repo(
                    match r {
                        Ok(v) => Ok(seen(v)),
                        Err(s) => Err(s@),
                    },
                ),
                *final(self),
            ),
    ;

    fn archive_repo(
        &mut self,
        request: ArchiveRepoRequest,
    ) -> (r: Result<(), Status>)
        requires
            old(self).wf(),
        ensures
            final(self).wf(),
            Self::serves(
                *old(self),
                ProvisionServiceCall::ArchiveRepo { repo: seen(request.repo) },
                ProvisionServiceReply::Done(
                    match r {
                        Ok(()) => Ok(()),
                        Err(s) => Err(s@),
                    },
                ),
                *final(self),
            ),
    ;

    fn delete_repo(
        &mut self,
        request: DeleteRepoRequest,
    ) -> (r: Result<(), Status>)
        requires
            old(self).wf(),
        ensures
            final(self).wf(),
            Self::serves(
                *old(self),
                ProvisionServiceCall::DeleteRepo {
                    repo: seen(request.repo),
                    confirm_name: request.confirm_name@,
                },
                ProvisionServiceReply::Done(
                    match r {
                        Ok(()) => Ok(()),
                        Err(s) => Err(s@),
                    },
                ),
                *final(self),
            ),
    ;

    fn ensure_protection(
        &mut self,
        request: EnsureProtectionRequest,
    ) -> (r: Result<Option<Protection>, Status>)
        requires
            old(self).wf(),
        ensures
            final(self).wf(),
            Self::serves(
                *old(self),
                ProvisionServiceCall::EnsureProtection {
                    repo: seen(request.repo),
                    branch: request.branch@,
                    spec: seen(request.spec),
                },
                ProvisionServiceReply::Protection(
                    match r {
                        Ok(v) => Ok(seen(v)),
                        Err(s) => Err(s@),
                    },
                ),
                *final(self),
            ),
    ;

    fn describe_protection(
        &mut self,
        request: DescribeProtectionRequest,
    ) -> (r: Result<Option<Protection>, Status>)
        requires
            old(self).wf(),
        ensures
            final(self).wf(),
            Self::serves(
                *old(self),
                ProvisionServiceCall::DescribeProtection {
                    repo: seen(request.repo),
                    branch: request.branch@,
                },
                ProvisionServiceReply::FoundProtection(
                    match r {
                        Ok(v) => Ok(seen(v)),
                        Err(s) => Err(s@),
                    },
                ),
                *final(self),
            ),
    ;

    fn ensure_delivery(
        &mut self,
        request: EnsureDeliveryRequest,
    ) -> (r: Result<Option<EnsuredDelivery>, Status>)
        requires
            old(self).wf(),
        ensures
            final(self).wf(),
            Self::serves(
                *old(self),
                ProvisionServiceCall::EnsureDelivery {
                    repo: seen(request.repo),
                    sink: seen(request.sink),
                },
                ProvisionServiceReply::Delivery(
                    match r {
                        Ok(v) => Ok(seen(v)),
                        Err(s) => Err(s@),
                    },
                ),
                *final(self),
            ),
    ;

    fn list_deliveries(
        &mut self,
        request: ListDeliveriesRequest,
    ) -> (r: Result<Vec<Delivery>, Status>)
        requires
            old(self).wf(),
        ensures
            final(self).wf(),
            Self::serves(
                *old(self),
                ProvisionServiceCall::ListDeliveries { repo: seen(request.repo) },
                ProvisionServiceReply::Deliveries(
                    match r {
                        Ok(v) => Ok(encoded_all(v@)),
                        Err(s) => Err(s@),
                    },
                ),
                *final(self),
            ),
    ;

    fn remove_delivery(
        &mut self,
        request: RemoveDeliveryRequest,
    ) -> (r: Result<(), Status>)
        requires
            old(self).wf(),
        ensures
            final(self).wf(),
            Self::serves(
                *old(self),
                ProvisionServiceCall::RemoveDelivery { repo: seen(request.repo), id: request.id@ },
                ProvisionServiceReply::Done(
                    match r {
                        Ok(()) => Ok(()),
                        Err(s) => Err(s@),
                    },
                ),
                *final(self),
            ),
    ;
}

// ── replies ─────────────────────────────────────────────────────────────────

/// The repository that was ensured, from what the service sent.
pub fn ensured_repo(reply: Result<EnsureRepoResponse, Status>) -> (r: ForgeResult<EnsuredRepo>)
    ensures
        match reply {
            Ok(v) => r matches Ok(o) && o.created == v.created && o.repo@ == match v.repo {
                Some(repo) => repo@,
                None => ProvisionedRepo::blank(),
            },
            Err(s) => r matches Err(e) && e@ == s@.message,
        },
{
    match reply {
        Ok(v) => Ok(
            EnsuredRepo {
                repo: match v.repo {
                    Some(repo) => repo,
                    None => ProvisionedRepo::empty(),
                },
                created: v.created,
            },
        ),
        Err(s) => Err(err(s)),
    }
}

/// What the service sent, where the message may be absent: absence is an answer, not a
/// failure.
pub fn described<T>(reply: Result<Option<T>, Status>) -> (r: ForgeResult<Option<T>>)
    ensures
        match reply {
            Ok(v) => r == Ok::<Option<T>, ForgeError>(v),
            Err(s) => r matches Err(e) && e@ == s@.message,
        },
{
    match reply {
        Ok(v) => Ok(v),
        Err(s) => Err(err(s)),
    }
}

/// That the service did it.
pub fn acknowledged(reply: Result<(), Status>) -> (r: ForgeResult<()>)
    ensures
        match reply {
            Ok(()) => r is Ok,
            Err(s) => r matches Err(e) && e@ == s@.message,
        },
{
    match reply {
        Ok(()) => Ok(()),
        Err(s) => Err(err(s)),
    }
}

/// The protection that was ensured, from what the service sent.
pub fn ensured_protection(reply: Result<Option<Protection>, Status>) -> (r: ForgeResult<
    Protection,
>)
    ensures
        match reply {
            Ok(v) => r matches Ok(p) && p@ == match v {
                Some(p) => p@,
                None => Protection::blank(),
            },
            Err(s) => r matches Err(e) && e@ == s@.message,
        },
{
    match reply {
        Ok(Some(p)) => Ok(p),
        Ok(None) => Ok(Protection::empty()),
        Err(s) => Err(err(s)),
    }
}

/// The delivery that was ensured, from what the service sent.
pub fn ensured_delivery(reply: Result<Option<EnsuredDelivery>, Status>) -> (r: ForgeResult<
    EnsuredDelivery,
>)
    ensures
        match reply {
            Ok(Some(d)) => r == Ok::<EnsuredDelivery, ForgeError>(d),
            Ok(None) => r matches Ok(d) && d@ == Seq::<u8>::empty(),
            Err(s) => r matches Err(e) && e@ == s@.message,
        },
{
    match reply {
        Ok(Some(d)) => Ok(d),
        Ok(None) => Ok(EnsuredDelivery { encoded: Vec::new() }),
        Err(s) => Err(err(s)),
    }
}

/// Every delivery that the service sent.
pub fn listed_deliveries(reply: Result<Vec<Delivery>, Status>) -> (r: ForgeResult<Vec<Delivery>>)
    ensures
        match reply {
            Ok(v) => r == Ok::<Vec<Delivery>, ForgeError>(v),
            Err(s) => r matches Err(e) && e@ == s@.message,
        },
{
    match reply {
        Ok(v) => Ok(v),
        Err(s) => Err(err(s)),
    }
}

// ── the provisioner ─────────────────────────────────────────────────────────

/// The request that a call is sent as.
pub open spec fn requested(call: ProvisionCall) -> ProvisionServiceCall {
    match call {
        ProvisionCall::EnsureRepo { repo, spec } => ProvisionServiceCall::EnsureRepo {
            repo: Some(repo),
            spec: Some(spec),
        },
        ProvisionCall::DescribeRepo { repo } => ProvisionServiceCall::DescribeRepo {
            repo: Some(repo),
        },
        ProvisionCall::ArchiveRepo { repo } => ProvisionServiceCall::ArchiveRepo {
            repo: Some(repo),
        },
        ProvisionCall::DeleteRepo { repo, confirm_name } => ProvisionServiceCall::DeleteRepo {
            repo: Some(repo),
            confirm_name,
        },
        ProvisionCall::EnsureProtection { repo, branch, spec } => ProvisionServiceCall::EnsureProtection {
            repo: Some(repo),
            branch,
            spec: Some(spec),
        },
        ProvisionCall::DescribeProtection { repo, branch } => ProvisionServiceCall::DescribeProtection {
            repo: Some(repo),
            branch,
        },
        ProvisionCall::EnsureDelivery { repo, sink } => ProvisionServiceCall::EnsureDelivery {
            repo: Some(repo),
            sink: Some(sink),
        },
        ProvisionCall::ListDeliveries { repo } => ProvisionServiceCall::ListDeliveries {
            repo: Some(repo),
        },
        ProvisionCall::RemoveDelivery { repo, id } => ProvisionServiceCall::RemoveDelivery {
            repo: Some(repo),
            id,
        },
    }
}

/// What a reply that was sent reads as: an absent message as an empty one where one is
/// owed, a status as its message.
pub open spec fn unwrapped(sent: ProvisionServiceReply) -> ProvisionReply {
    match sent {
        ProvisionServiceReply::Ensured(Ok(v)) => ProvisionReply::Ensured(
            Ok(
                EnsuredRepoView {
                    repo: match v.repo {
                        Some(repo) => repo,
                        None => ProvisionedRepo::blank(),
                    },
                    created: v.created,
                },
            ),
        ),
        ProvisionServiceReply::Ensured(Err(s)) => ProvisionReply::Ensured(Err(s.message)),
        ProvisionServiceReply::Repo(Ok(v)) => ProvisionReply::Repo(Ok(v)),
        ProvisionServiceReply::Repo(Err(s)) => ProvisionReply::Repo(Err(s.message)),
        ProvisionServiceReply::Done(Ok(v)) => ProvisionReply::Done(Ok(v)),
        ProvisionServiceReply::Done(Err(s)) => ProvisionReply::Done(Err(s.message)),
        ProvisionServiceReply::Protection(Ok(Some(v))) => ProvisionReply::Protection(Ok(v)),
        ProvisionServiceReply::Protection(Ok(None)) => ProvisionReply::Protection(
            Ok(Protection::blank()),
        ),
        ProvisionServiceReply::Protection(Err(s)) => ProvisionReply::Protection(Err(s.message)),
        ProvisionServiceReply::FoundProtection(Ok(v)) => ProvisionReply::FoundProtection(Ok(v)),
        ProvisionServiceReply::FoundProtection(Err(s)) => ProvisionReply::FoundProtection(
            Err(s.message),
        ),
        ProvisionServiceReply::Delivery(Ok(Some(v))) => ProvisionReply::Delivery(Ok(v)),
        ProvisionServiceReply::Delivery(Ok(None)) => ProvisionReply::Delivery(Ok(Seq::empty())),
        ProvisionServiceReply::Delivery(Err(s)) => ProvisionReply::Delivery(Err(s.message)),
        ProvisionServiceReply::Deliveries(Ok(v)) => ProvisionReply::Deliveries(Ok(v)),
        ProvisionServiceReply::Deliveries(Err(s)) => ProvisionReply::Deliveries(Err(s.message)),
    }
}

/// The provisioner of a geetchd, over a service that is connected to it.
pub struct GeetchProvisioner<S> {
    pub service: S,
}

impl<S: ForgeProvisionService> GeetchProvisioner<S> {
    /// Wrap a connected service.
    pub fn new(service: S) -> (r: Self)
        ensures
            r.service == service,
    {
        GeetchProvisioner { service }
    }
}

impl<S: ForgeProvisionService> ForgeProvisioner for GeetchProvisioner<S> {
    open spec fn wf(&self) -> bool {
        self.service.wf()
    }

    /// The service is asked the same, and what it sends is unwrapped.
    open spec fn answers(
        pre: Self,
        call: ProvisionCall,
        reply: ProvisionReply,
        post: Self,
    ) -> bool {
        exists|sent: ProvisionServiceReply| #[trigger]
            S::serves(pre.service, requested(call), sent, post.service) && reply == unwrapped(sent)
    }

    open spec fn target(&self) -> ForgeKind {
        ForgeKind::Geetch
    }

    fn kind(&self) -> (r: ForgeKind) {
        ForgeKind::Geetch
    }

    fn ensure_repo(
        &mut self,
        repo: &RepoRef,
        spec: &RepoSpec,
    ) -> (r: ForgeResult<EnsuredRepo>) {
        let sent = self.service.ensure_repo(
            EnsureRepoRequest { repo: Some(repo.clone()), spec: Some(spec.copy()) },
        );
        let ghost heard = ProvisionServiceReply::Ensured(
            if sent is Ok {
                Ok(sent->Ok_0@)
            } else {
                Err(sent->Err_0@)
            },
        );
        let ghost call = ProvisionCall::EnsureRepo { repo: repo@, spec: spec@ };
        assert(S::serves(old(self).service, requested(call), heard, self.service));
        ensured_repo(sent)
    }

    fn describe_repo(
        &mut self,
        repo: &RepoRef,
    ) -> (r: ForgeResult<Option<ProvisionedRepo>>) {
        let sent = self.service.describe_repo(
            DescribeRepoRequest { repo: Some(repo.clone()) },
        );
        let ghost heard = ProvisionServiceReply::Repo(
            if sent is Ok {
                Ok(seen(sent->Ok_0))
            } else {
                Err(sent->Err_0@)
            },
        );
        let ghost call = ProvisionCall::DescribeRepo { repo: repo@ };
        assert(S::serves(old(self).service, requested(call), heard, self.service));
        described(sent)
    }

    fn archive_repo(
        &mut self,
        repo: &RepoRef,
    ) -> (r: ForgeResult<()>) {
        let sent = self.service.archive_repo(
            ArchiveRepoRequest { repo: Some(repo.clone()) },
        );
        let ghost heard = ProvisionServiceReply::Done(
            if sent is Ok {
                Ok(())
            } else {
                Err(sent->Err_0@)
            },
        );
        let ghost call = ProvisionCall::ArchiveRepo { repo: repo@ };
        assert(S::serves(old(self).service, requested(call), heard, self.service));
        acknowledged(sent)
    }

    fn delete_repo(
        &mut self,
        repo: &RepoRef,
        confirm_name: &str,
    ) -> (r: ForgeResult<()>) {
        let sent = self.service.delete_repo(
            DeleteRepoRequest { repo: Some(repo.clone()), confirm_name: confirm_name.to_owned() },
        );
        let ghost heard = ProvisionServiceReply::Done(
            if sent is Ok {
                Ok(())
            } else {
                Err(sent->Err_0@)
            },
        );
        let ghost call = ProvisionCall::DeleteRepo { repo: repo@, confirm_name: confirm_name@ };
        assert(S::serves(old(self).service, requested(call), heard, self.service));
        acknowledged(sent)
    }

    fn ensure_protection(
        &mut self,
        repo: &RepoRef,
        branch: &str,
        spec: &ProtectionSpec,
    ) -> (r: ForgeResult<Protection>) {
        let sent = self.service.ensure_protection(
            EnsureProtectionRequest {
                repo: Some(repo.clone()),
                branch: branch.to_owned(),
                spec: Some(spec.copy()),
            },
        );
        let ghost heard = ProvisionServiceReply::Protection(
            if sent is Ok {
                Ok(seen(sent->Ok_0))
            } else {
                Err(sent->Err_0@)
            },
        );
        let ghost call = ProvisionCall::EnsureProtection {
            repo: repo@,
            branch: branch@,
            spec: spec@,
        };
        assert(S::serves(old(self).service, requested(call), heard, self.service));
        ensured_protection(sent)
    }

    fn describe_protection(
        &mut self,
        repo: &RepoRef,
        branch: &str,
    ) -> (r: ForgeResult<Option<Protection>>) {
        let sent = self.service.describe_protection(
            DescribeProtectionRequest { repo: Some(repo.clone()), branch: branch.to_owned() },
        );
        let ghost heard = ProvisionServiceReply::FoundProtection(
            if sent is Ok {
                Ok(seen(sent->Ok_0))
            } else {
                Err(sent->Err_0@)
            },
        );
        let ghost call = ProvisionCall::DescribeProtection { repo: repo@, branch: branch@ };
        assert(S::serves(old(self).service, requested(call), heard, self.service));
        described(sent)
    }

    fn ensure_delivery(
        &mut self,
        repo: &RepoRef,
        sink: &DeliverySink,
    ) -> (r: ForgeResult<EnsuredDelivery>) {
        let sent = self.service.ensure_delivery(
            EnsureDeliveryRequest {
                repo: Some(repo.clone()),
                sink: Some(DeliverySink { encoded: copy_bytes(&sink.encoded) }),
            },
        );
        let ghost heard = ProvisionServiceReply::Delivery(
            if sent is Ok {
                Ok(seen(sent->Ok_0))
            } else {
                Err(sent->Err_0@)
            },
        );
        let ghost call = ProvisionCall::EnsureDelivery { repo: repo@, sink: sink@ };
        assert(S::serves(old(self).service, requested(call), heard, self.service));
        ensured_delivery(sent)
    }

    fn list_deliveries(
        &mut self,
        repo: &RepoRef,
    ) -> (r: ForgeResult<Vec<Delivery>>) {
        let sent = self.service.list_deliveries(
            ListDeliveriesRequest { repo: Some(repo.clone()) },
        );
        let ghost heard = ProvisionServiceReply::Deliveries(
            if sent is Ok {
                Ok(encoded_all(sent->Ok_0@))
            } else {
                Err(sent->Err_0@)
            },
        );
        let ghost call = ProvisionCall::ListDeliveries { repo: repo@ };
        assert(S::serves(old(self).service, requested(call), heard, self.service));
        listed_deliveries(sent)
    }

    fn remove_delivery(
        &mut self,
        repo: &RepoRef,
        id: &str,
    ) -> (r: ForgeResult<()>) {
        let sent = self.service.remove_delivery(
            RemoveDeliveryRequest { repo: Some(repo.clone()), id: id.to_owned() },
        );
        let ghost heard = ProvisionServiceReply::Done(
            if sent is Ok {
                Ok(())
            } else {
                Err(sent->Err_0@)
            },
        );
        let ghost call = ProvisionCall::RemoveDelivery { repo: repo@, id: id@ };
        assert(S::serves(old(self).service, requested(call), heard, self.service));
        acknowledged(sent)
    }
}

// ── serving ─────────────────────────────────────────────────────────────────

/// The call that a request asks for; an absent message reads as an empty one.
pub open spec fn granted(call: ProvisionServiceCall) -> ProvisionCall {
    match call {
        ProvisionServiceCall::EnsureRepo { repo, spec } => ProvisionCall::EnsureRepo {
            repo: filled(repo, RepoRef::blank()),
            spec: filled(spec, RepoSpec::blank()),
        },
        ProvisionServiceCall::DescribeRepo { repo } => ProvisionCall::DescribeRepo {
            repo: filled(repo, RepoRef::blank()),
        },
        ProvisionServiceCall::ArchiveRepo { repo } => ProvisionCall::ArchiveRepo {
            repo: filled(repo, RepoRef::blank()),
        },
        ProvisionServiceCall::DeleteRepo { repo, confirm_name } => ProvisionCall::DeleteRepo {
            repo: filled(repo, RepoRef::blank()),
            confirm_name,
        },
        ProvisionServiceCall::EnsureProtection { repo, branch, spec } => ProvisionCall::EnsureProtection {
            repo: filled(repo, RepoRef::blank()),
            branch,
            spec: filled(spec, ProtectionSpec::blank()),
        },
        ProvisionServiceCall::DescribeProtection { repo, branch } => ProvisionCall::DescribeProtection {
            repo: filled(repo, RepoRef::blank()),
            branch,
        },
        ProvisionServiceCall::EnsureDelivery { repo, sink } => ProvisionCall::EnsureDelivery {
            repo: filled(repo, RepoRef::blank()),
            sink: filled(sink, Seq::empty()),
        },
        ProvisionServiceCall::ListDeliveries { repo } => ProvisionCall::ListDeliveries {
            repo: filled(repo, RepoRef::blank()),
        },
        ProvisionServiceCall::RemoveDelivery { repo, id } => ProvisionCall::RemoveDelivery {
            repo: filled(repo, RepoRef::blank()),
            id,
        },
    }
}

/// A message, or what stands for an absent one.
pub open spec fn filled<T>(message: Option<T>, otherwise: T) -> T {
    match message {
        Some(message) => message,
        None => otherwise,
    }
}

/// What is sent for a reply: the message that it holds, an error as an internal status.
pub open spec fn sent_as(reply: ProvisionReply) -> ProvisionServiceReply {
    match reply {
        ProvisionReply::Ensured(Ok(v)) => ProvisionServiceReply::Ensured(
            Ok(EnsureRepoResponseView { repo: Some(v.repo), created: v.created }),
        ),
        ProvisionReply::Ensured(Err(e)) => ProvisionServiceReply::Ensured(Err(internal(e))),
        ProvisionReply::Repo(Ok(v)) => ProvisionServiceReply::Repo(Ok(v)),
        ProvisionReply::Repo(Err(e)) => ProvisionServiceReply::Repo(Err(internal(e))),
        ProvisionReply::Done(Ok(v)) => ProvisionServiceReply::Done(Ok(v)),
        ProvisionReply::Done(Err(e)) => ProvisionServiceReply::Done(Err(internal(e))),
        ProvisionReply::Protection(Ok(v)) => ProvisionServiceReply::Protection(Ok(Some(v))),
        ProvisionReply::Protection(Err(e)) => ProvisionServiceReply::Protection(Err(internal(e))),
        ProvisionReply::FoundProtection(Ok(v)) => ProvisionServiceReply::FoundProtection(Ok(v)),
        ProvisionReply::FoundProtection(Err(e)) => ProvisionServiceReply::FoundProtection(
            Err(internal(e)),
        ),
        ProvisionReply::Delivery(Ok(v)) => ProvisionServiceReply::Delivery(Ok(Some(v))),
        ProvisionReply::Delivery(Err(e)) => ProvisionServiceReply::Delivery(Err(internal(e))),
        ProvisionReply::Deliveries(Ok(v)) => ProvisionServiceReply::Deliveries(Ok(v)),
        ProvisionReply::Deliveries(Err(e)) => ProvisionServiceReply::Deliveries(Err(internal(e))),
    }
}

/// The provisioning service over one provisioner.
pub struct ServedProvisioner<P> {
    pub provisioner: P,
}

fn repo_of(repo: Option<RepoRef>) -> (r: RepoRef)
    ensures
        r@ == filled(seen(repo), RepoRef::blank()),
{
    match repo {
        Some(repo) => repo,
        None => RepoRef::empty(),
    }
}

impl<P: ForgeProvisioner> ForgeProvisionService for ServedProvisioner<P> {
    open spec fn wf(&self) -> bool {
        self.provisioner.wf()
    }

    /// The provisioner is asked what the request asks for, and its reply is sent.
    open spec fn serves(
        pre: Self,
        call: ProvisionServiceCall,
        reply: ProvisionServiceReply,
        post: Self,
    ) -> bool {
        exists|own: ProvisionReply| #[trigger]
            P::answers(pre.provisioner, granted(call), own, post.provisioner) && reply == sent_as(
                own,
            )
    }

    fn ensure_repo(
        &mut self,
        request: EnsureRepoRequest,
    ) -> (r: Result<EnsureRepoResponse, Status>) {
        let repo = repo_of(request.repo);
        let spec = match request.spec {
            Some(spec) => spec,
            None => RepoSpec::empty(),
        };
        let reply = self.provisioner.ensure_repo(&repo, &spec);
        let ghost own = ProvisionReply::Ensured(
            if reply is Ok {
                Ok(reply->Ok_0@)
            } else {
                Err(reply->Err_0@)
            },
        );
        let ghost call = ProvisionCall::EnsureRepo { repo: repo@, spec: spec@ };
        assert(P::answers(old(self).provisioner, call, own, self.provisioner));
        match reply {
            Ok(v) => Ok(EnsureRepoResponse { repo: Some(v.repo), created: v.created }),
            Err(e) => Err(to_status(e)),
        }
    }

    fn describe_repo(
        &mut self,
        request: DescribeRepoRequest,
    ) -> (r: Result<Option<ProvisionedRepo>, Status>) {
        let repo = repo_of(request.repo);
        let reply = self.provisioner.describe_repo(&repo);
        let ghost own = ProvisionReply::Repo(
            if reply is Ok {
                Ok(seen(reply->Ok_0))
            } else {
                Err(reply->Err_0@)
            },
        );
        let ghost call = ProvisionCall::DescribeRepo { repo: repo@ };
        assert(P::answers(old(self).provisioner, call, own, self.provisioner));
        match reply {
            Ok(v) => Ok(v),
            Err(e) => Err(to_status(e)),
        }
    }

    fn archive_repo(
        &mut self,
        request: ArchiveRepoRequest,
    ) -> (r: Result<(), Status>) {
        let repo = repo_of(request.repo);
        let reply = self.provisioner.archive_repo(&repo);
        let ghost own = ProvisionReply::Done(
            if reply is Ok {
                Ok(())
            } else {
                Err(reply->Err_0@)
            },
        );
        let ghost call = ProvisionCall::ArchiveRepo { repo: repo@ };
        assert(P::answers(old(self).provisioner, call, own, self.provisioner));
        match reply {
            Ok(v) => Ok(v),
            Err(e) => Err(to_status(e)),
        }
    }

    fn delete_repo(
        &mut self,
        request: DeleteRepoRequest,
    ) -> (r: Result<(), Status>) {
        let repo = repo_of(request.repo);
        let reply = self.provisioner.delete_repo(&repo, request.confirm_name.as_str());
        let ghost own = ProvisionReply::Done(
            if reply is Ok {
                Ok(())
            } else {
                Err(reply->Err_0@)
            },
        );
        let ghost call = ProvisionCall::DeleteRepo {
            repo: repo@,
            confirm_name: request.confirm_name@,
        };
        assert(P::answers(old(self).provisioner, call, own, self.provisioner));
        match reply {
            Ok(v) => Ok(v),
            Err(e) => Err(to_status(e)),
        }
    }

    fn ensure_protection(
        &mut self,
        request: EnsureProtectionRequest,
    ) -> (r: Result<Option<Protection>, Status>) {
        let repo = repo_of(request.repo);
        let spec = match request.spec {
            Some(spec) => spec,
            None => ProtectionSpec::empty(),
        };
        let reply = self.provisioner.ensure_protection(&repo, request.branch.as_str(), &spec);
        let ghost own = ProvisionReply::Protection(
            if reply is Ok {
                Ok(reply->Ok_0@)
            } else {
                Err(reply->Err_0@)
            },
        );
        let ghost call = ProvisionCall::EnsureProtection {
            repo: repo@,
            branch: request.branch@,
            spec: spec@,
        };
        assert(P::answers(old(self).provisioner, call, own, self.provisioner));
        match reply {
            Ok(v) => Ok(Some(v)),
            Err(e) => Err(to_status(e)),
        }
    }

    fn describe_protection(
        &mut self,
        request: DescribeProtectionRequest,
    ) -> (r: Result<Option<Protection>, Status>) {
        let repo = repo_of(request.repo);
        let reply = self.provisioner.describe_protection(&repo, request.branch.as_str());
        let ghost own = ProvisionReply::FoundProtection(
            if reply is Ok {
                Ok(seen(reply->Ok_0))
            } else {
                Err(reply->Err_0@)
            },
        );
        let ghost call = ProvisionCall::DescribeProtection { repo: repo@, branch: request.branch@ };
        assert(P::answers(old(self).provisioner, call, own, self.provisioner));
        match reply {
            Ok(v) => Ok(v),
            Err(e) => Err(to_status(e)),
        }
    }

    fn ensure_delivery(
        &mut self,
        request: EnsureDeliveryRequest,
    ) -> (r: Result<Option<EnsuredDelivery>, Status>) {
        let repo = repo_of(request.repo);
        let sink = match request.sink {
            Some(sink) => sink,
            None => DeliverySink { encoded: Vec::new() },
        };
        let reply = self.provisioner.ensure_delivery(&repo, &sink);
        let ghost own = ProvisionReply::Delivery(
            if reply is Ok {
                Ok(reply->Ok_0@)
            } else {
                Err(reply->Err_0@)
            },
        );
        let ghost call = ProvisionCall::EnsureDelivery { repo: repo@, sink: sink@ };
        assert(P::answers(old(self).provisioner, call, own, self.provisioner));
        match reply {
            Ok(v) => Ok(Some(v)),
            Err(e) => Err(to_status(e)),
        }
    }

    fn list_deliveries(
        &mut self,
        request: ListDeliveriesRequest,
    ) -> (r: Result<Vec<Delivery>, Status>) {
        let repo = repo_of(request.repo);
        let reply = self.provisioner.list_deliveries(&repo);
        let ghost own = ProvisionReply::Deliveries(
            if reply is Ok {
                Ok(encoded_all(reply->Ok_0@))
            } else {
                Err(reply->Err_0@)
            },
        );
        let ghost call = ProvisionCall::ListDeliveries { repo: repo@ };
        assert(P::answers(old(self).provisioner, call, own, self.provisioner));
        match reply {
            Ok(v) => Ok(v),
            Err(e) => Err(to_status(e)),
        }
    }

    fn remove_delivery(
        &mut self,
        request: RemoveDeliveryRequest,
    ) -> (r: Result<(), Status>) {
        let repo = repo_of(request.repo);
        let reply = self.provisioner.remove_delivery(&repo, request.id.as_str());
        let ghost own = ProvisionReply::Done(
            if reply is Ok {
                Ok(())
            } else {
                Err(reply->Err_0@)
            },
        );
        let ghost call = ProvisionCall::RemoveDelivery { repo: repo@, id: request.id@ };
        assert(P::answers(old(self).provisioner, call, own, self.provisioner));
        match reply {
            Ok(v) => Ok(v),
            Err(e) => Err(to_status(e)),
        }
    }
}

/// A provisioner that is served and driven through geetch answers every call as it does by
/// itself: every request survives the way, and every reply.
pub proof fn served_provisioner_answers_as_itself<P: ForgeProvisioner>(
    pre: GeetchProvisioner<ServedProvisioner<P>>,
    call: ProvisionCall,
    reply: ProvisionReply,
    post: GeetchProvisioner<ServedProvisioner<P>>,
)
    ensures
        GeetchProvisioner::<ServedProvisioner<P>>::answers(pre, call, reply, post) == P::answers(
            pre.service.provisioner,
            call,
            reply,
            post.service.provisioner,
        ),
{
    assert(granted(requested(call)) == call);
    assert(forall|own: ProvisionReply| unwrapped(#[trigger] sent_as(own)) == own);
    if P::answers(pre.service.provisioner, call, reply, post.service.provisioner) {
        assert(ServedProvisioner::<P>::serves(
            pre.service,
            requested(call),
            sent_as(reply),
            post.service,
        ));
    }
}

} // verus!

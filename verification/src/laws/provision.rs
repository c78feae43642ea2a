//! Provisioning: what is asked of a service, and what its replies are read as.

use crate::forge::{ForgeError, ForgeResult};
use crate::geetch_provisioner::{
    self, unwrapped, EnsureRepoResponse, EnsureRepoResponseView, ForgeProvisionService,
    GeetchProvisioner, ProvisionServiceCall, ProvisionServiceReply, ServedProvisioner,
};
use crate::laws::forge::kind_name;
use crate::messages::{texts, ForgeKind, RepoRefView};
use crate::provision::{
    self, Delivery, EnsuredDelivery, EnsuredRepo, EnsuredRepoView, ForgeProvisioner, Protection,
    ProtectionSpecView, ProtectionView, ProvisionCall, ProvisionReply, ProvisionedRepo,
    ProvisionedRepoView, RepoLifecycle, RepoSpec, RepoSpecView, Visibility,
};
use crate::status::{Code, Status, StatusView};
use vstd::prelude::*;

verus! {

// ── the vocabulary ──────────────────────────────────────────────────────────

/// Visibilities and lifecycles are written as their numbers.
pub proof fn visibilities_and_lifecycles_have_their_numbers(
    v: Visibility,
    l: RepoLifecycle,
    r: (i32, i32),
)
    requires
        call_ensures(Visibility::number, (v,), r.0),
        call_ensures(RepoLifecycle::number, (l,), r.1),
    ensures
        r.0 == match v {
            Visibility::Unspecified => 0int,
            Visibility::Private => 1,
            Visibility::Internal => 2,
            Visibility::Public => 3,
        },
        r.1 == match l {
            RepoLifecycle::Unspecified => 0int,
            RepoLifecycle::Active => 1,
            RepoLifecycle::Archived => 2,
        },
{
}

/// A repository is private, begins with a first commit on `main`, and has no description and
/// no tags, unless its caller says otherwise.
pub proof fn a_repository_is_private_and_initialized_by_default(r: RepoSpec)
    requires
        call_ensures(provision::default_repo_spec, (), r),
    ensures
        r.visibility == 1,
        r.initialize,
        r.default_branch@ == "main"@,
        r.description@.len() == 0,
        forall|key: Seq<char>| !#[trigger] r.tags@.contains_key(key),
{
}

/// What a provisioner cannot do is told with the operation and the code host.
pub proof fn an_unsupported_operation_is_named(op: &str, kind: ForgeKind, r: ForgeError)
    requires
        call_ensures(provision::unsupported, (op, kind), r),
    ensures
        r@ == op@ + " is not supported by the "@ + kind_name(kind) + " provisioner"@,
{
}

/// A reply keeps the message that it carries, an absent one reads as an empty one where one
/// is owed, and a status is told by its message.
pub proof fn replies_are_read(
    ensured: (Result<EnsureRepoResponse, Status>, ForgeResult<EnsuredRepo>),
    done: (Result<(), Status>, ForgeResult<()>),
    protected: (Result<Option<Protection>, Status>, ForgeResult<Protection>),
    delivered: (Result<Option<EnsuredDelivery>, Status>, ForgeResult<EnsuredDelivery>),
    listed: (Result<Vec<Delivery>, Status>, ForgeResult<Vec<Delivery>>),
    found: (Result<Option<ProvisionedRepo>, Status>, ForgeResult<Option<ProvisionedRepo>>),
)
    requires
        call_ensures(geetch_provisioner::ensured_repo, (ensured.0,), ensured.1),
        call_ensures(geetch_provisioner::acknowledged, (done.0,), done.1),
        call_ensures(geetch_provisioner::ensured_protection, (protected.0,), protected.1),
        call_ensures(geetch_provisioner::ensured_delivery, (delivered.0,), delivered.1),
        call_ensures(geetch_provisioner::listed_deliveries, (listed.0,), listed.1),
        call_ensures(geetch_provisioner::described::<ProvisionedRepo>, (found.0,), found.1),
    ensures
        ensured.0 matches Err(s) ==> (ensured.1 matches Err(e) && e@ == s.message@),
        ensured.0 matches Ok(
            v,
        ) ==> (ensured.1 matches Ok(o) && o.created == v.created && match v.repo {
            Some(repo) => o.repo@ == repo@,
            None => o.repo.repo is None && o.repo.lifecycle == 0 && o.repo.rest@.len() == 0,
        }),
        done.0 is Ok <==> done.1 is Ok,
        done.0 matches Err(s) ==> (done.1 matches Err(e) && e@ == s.message@),
        protected.0 matches Err(s) ==> (protected.1 matches Err(e) && e@ == s.message@),
        protected.0 matches Ok(v) ==> (protected.1 matches Ok(p) && match v {
            Some(q) => p@ == q@,
            None => p.branch@.len() == 0 && p.effective is None && p.unsupported@.len() == 0
                && p.rest@.len() == 0,
        }),
        delivered.0 matches Err(s) ==> (delivered.1 matches Err(e) && e@ == s.message@),
        delivered.0 matches Ok(v) ==> (delivered.1 matches Ok(d) && match v {
            Some(was) => d.encoded@ == was.encoded@,
            None => d.encoded@.len() == 0,
        }),
        listed.0 matches Err(s) ==> (listed.1 matches Err(e) && e@ == s.message@),
        listed.0 matches Ok(v) ==> (listed.1 matches Ok(w) && w@ == v@),
        found.0 matches Err(s) ==> (found.1 matches Err(e) && e@ == s.message@),
        found.0 matches Ok(v) ==> (found.1 matches Ok(w) && w == v),
{
    if let (Ok(v), Ok(o)) = ensured {
        assert(o.repo@.repo == crate::messages::seen(o.repo.repo));
    }
    if let (Ok(None), Ok(p)) = protected {
        assert(p@.effective == crate::messages::seen(p.effective));
        assert(texts(p.unsupported@).len() == p.unsupported@.len());
    }
}

// ── what a request asks for ─────────────────────────────────────────────────

/// The repository that a request names; one that names none asks for an empty one.
pub open spec fn asked_repo(repo: Option<RepoRefView>) -> RepoRefView {
    match repo {
        Some(repo) => repo,
        None => RepoRefView {
            forge: 0,
            host: Seq::empty(),
            owner: Seq::empty(),
            name: Seq::empty(),
        },
    }
}

/// The shape that a request asks for; nothing where it gives none.
pub open spec fn asked_spec(spec: Option<RepoSpecView>) -> RepoSpecView {
    match spec {
        Some(spec) => spec,
        None => RepoSpecView {
            description: Seq::empty(),
            visibility: 0,
            default_branch: Seq::empty(),
            initialize: false,
            tags: Map::empty(),
        },
    }
}

/// The protection that a request asks for; nothing where it gives none.
pub open spec fn asked_protection(spec: Option<ProtectionSpecView>) -> ProtectionSpecView {
    match spec {
        Some(spec) => spec,
        None => ProtectionSpecView { block_force_push: false, rest: Seq::empty() },
    }
}

/// The sink that a request names; an empty one where it names none.
pub open spec fn asked_sink(sink: Option<Seq<u8>>) -> Seq<u8> {
    match sink {
        Some(sink) => sink,
        None => Seq::empty(),
    }
}

// ── serving a provisioner ───────────────────────────────────────────────────

/// The provisioner is asked what the request asks for, and its reply is sent; an error is an
/// internal one.
pub proof fn a_repository_is_provisioned<P: ForgeProvisioner>(
    pre: ServedProvisioner<P>,
    repo: Option<RepoRefView>,
    spec: Option<RepoSpecView>,
    r: Result<EnsureRepoResponseView, StatusView>,
    post: ServedProvisioner<P>,
)
    requires
        ServedProvisioner::<P>::serves(
            pre,
            ProvisionServiceCall::EnsureRepo { repo, spec },
            ProvisionServiceReply::Ensured(r),
            post,
        ),
    ensures
        exists|told: Result<EnsuredRepoView, Seq<char>>| #[trigger]
            P::answers(
                pre.provisioner,
                ProvisionCall::EnsureRepo { repo: asked_repo(repo), spec: asked_spec(spec) },
                ProvisionReply::Ensured(told),
                post.provisioner,
            )
            && match told {
            Ok(v) => r matches Ok(sent) && sent.repo == Some(v.repo) && sent.created == v.created,
            Err(e) => r matches Err(s) && s.code == Code::Internal && s.message == e,
        },
{
    let asked = ProvisionCall::EnsureRepo { repo: asked_repo(repo), spec: asked_spec(spec) };
    let own = choose|own: ProvisionReply| #[trigger] P::answers(
        pre.provisioner,
        geetch_provisioner::granted(ProvisionServiceCall::EnsureRepo { repo, spec }),
        own,
        post.provisioner,
    ) && ProvisionServiceReply::Ensured(r) == geetch_provisioner::sent_as(own);
    let told = own->Ensured_0;
    assert(P::answers(pre.provisioner, asked, ProvisionReply::Ensured(told), post.provisioner));
}

/// The provisioner is asked what the request asks for, and its reply is sent; an error is an
/// internal one.
pub proof fn a_description_is_provisioned<P: ForgeProvisioner>(
    pre: ServedProvisioner<P>,
    repo: Option<RepoRefView>,
    r: Result<Option<ProvisionedRepoView>, StatusView>,
    post: ServedProvisioner<P>,
)
    requires
        ServedProvisioner::<P>::serves(
            pre,
            ProvisionServiceCall::DescribeRepo { repo },
            ProvisionServiceReply::Repo(r),
            post,
        ),
    ensures
        exists|told: Result<Option<ProvisionedRepoView>, Seq<char>>| #[trigger]
            P::answers(
                pre.provisioner,
                ProvisionCall::DescribeRepo { repo: asked_repo(repo) },
                ProvisionReply::Repo(told),
                post.provisioner,
            )
            && match told {
            Ok(v) => r matches Ok(sent) && sent == v,
            Err(e) => r matches Err(s) && s.code == Code::Internal && s.message == e,
        },
{
    let asked = ProvisionCall::DescribeRepo { repo: asked_repo(repo) };
    let own = choose|own: ProvisionReply| #[trigger] P::answers(
        pre.provisioner,
        geetch_provisioner::granted(ProvisionServiceCall::DescribeRepo { repo }),
        own,
        post.provisioner,
    ) && ProvisionServiceReply::Repo(r) == geetch_provisioner::sent_as(own);
    let told = own->Repo_0;
    assert(P::answers(pre.provisioner, asked, ProvisionReply::Repo(told), post.provisioner));
}

/// The provisioner is asked what the request asks for, and its reply is sent; an error is an
/// internal one.
pub proof fn an_archival_is_provisioned<P: ForgeProvisioner>(
    pre: ServedProvisioner<P>,
    repo: Option<RepoRefView>,
    r: Result<(), StatusView>,
    post: ServedProvisioner<P>,
)
    requires
        ServedProvisioner::<P>::serves(
            pre,
            ProvisionServiceCall::ArchiveRepo { repo },
            ProvisionServiceReply::Done(r),
            post,
        ),
    ensures
        exists|told: Result<(), Seq<char>>| #[trigger]
            P::answers(
                pre.provisioner,
                ProvisionCall::ArchiveRepo { repo: asked_repo(repo) },
                ProvisionReply::Done(told),
                post.provisioner,
            )
            && match told {
            Ok(()) => r is Ok,
            Err(e) => r matches Err(s) && s.code == Code::Internal && s.message == e,
        },
{
    let asked = ProvisionCall::ArchiveRepo { repo: asked_repo(repo) };
    let own = choose|own: ProvisionReply| #[trigger] P::answers(
        pre.provisioner,
        geetch_provisioner::granted(ProvisionServiceCall::ArchiveRepo { repo }),
        own,
        post.provisioner,
    ) && ProvisionServiceReply::Done(r) == geetch_provisioner::sent_as(own);
    let told = own->Done_0;
    assert(P::answers(pre.provisioner, asked, ProvisionReply::Done(told), post.provisioner));
}

/// The provisioner is asked what the request asks for, and its reply is sent; an error is an
/// internal one.
pub proof fn a_deletion_is_provisioned<P: ForgeProvisioner>(
    pre: ServedProvisioner<P>,
    repo: Option<RepoRefView>,
    confirm_name: Seq<char>,
    r: Result<(), StatusView>,
    post: ServedProvisioner<P>,
)
    requires
        ServedProvisioner::<P>::serves(
            pre,
            ProvisionServiceCall::DeleteRepo { repo, confirm_name },
            ProvisionServiceReply::Done(r),
            post,
        ),
    ensures
        exists|told: Result<(), Seq<char>>| #[trigger]
            P::answers(
                pre.provisioner,
                ProvisionCall::DeleteRepo { repo: asked_repo(repo), confirm_name },
                ProvisionReply::Done(told),
                post.provisioner,
            )
            && match told {
            Ok(()) => r is Ok,
            Err(e) => r matches Err(s) && s.code == Code::Internal && s.message == e,
        },
{
    let asked = ProvisionCall::DeleteRepo { repo: asked_repo(repo), confirm_name };
    let own = choose|own: ProvisionReply| #[trigger] P::answers(
        pre.provisioner,
        geetch_provisioner::granted(ProvisionServiceCall::DeleteRepo { repo, confirm_name }),
        own,
        post.provisioner,
    ) && ProvisionServiceReply::Done(r) == geetch_provisioner::sent_as(own);
    let told = own->Done_0;
    assert(P::answers(pre.provisioner, asked, ProvisionReply::Done(told), post.provisioner));
}

/// The provisioner is asked what the request asks for, and its reply is sent; an error is an
/// internal one.
pub proof fn a_protection_is_provisioned<P: ForgeProvisioner>(
    pre: ServedProvisioner<P>,
    repo: Option<RepoRefView>,
    branch: Seq<char>,
    spec: Option<ProtectionSpecView>,
    r: Result<Option<ProtectionView>, StatusView>,
    post: ServedProvisioner<P>,
)
    requires
        ServedProvisioner::<P>::serves(
            pre,
            ProvisionServiceCall::EnsureProtection { repo, branch, spec },
            ProvisionServiceReply::Protection(r),
            post,
        ),
    ensures
        exists|told: Result<ProtectionView, Seq<char>>| #[trigger]
            P::answers(
                pre.provisioner,
                ProvisionCall::EnsureProtection {
                    repo: asked_repo(repo),
                    branch,
                    spec: asked_protection(spec),
                },
                ProvisionReply::Protection(told),
                post.provisioner,
            )
            && match told {
            Ok(v) => r matches Ok(sent) && sent == Some(v),
            Err(e) => r matches Err(s) && s.code == Code::Internal && s.message == e,
        },
{
    let asked = ProvisionCall::EnsureProtection {
        repo: asked_repo(repo),
        branch,
        spec: asked_protection(spec),
    };
    let own = choose|own: ProvisionReply| #[trigger] P::answers(
        pre.provisioner,
        geetch_provisioner::granted(ProvisionServiceCall::EnsureProtection { repo, branch, spec }),
        own,
        post.provisioner,
    ) && ProvisionServiceReply::Protection(r) == geetch_provisioner::sent_as(own);
    let told = own->Protection_0;
    assert(P::answers(pre.provisioner, asked, ProvisionReply::Protection(told), post.provisioner));
}

/// The provisioner is asked what the request asks for, and its reply is sent; an error is an
/// internal one.
pub proof fn a_protection_lookup_is_provisioned<P: ForgeProvisioner>(
    pre: ServedProvisioner<P>,
    repo: Option<RepoRefView>,
    branch: Seq<char>,
    r: Result<Option<ProtectionView>, StatusView>,
    post: ServedProvisioner<P>,
)
    requires
        ServedProvisioner::<P>::serves(
            pre,
            ProvisionServiceCall::DescribeProtection { repo, branch },
            ProvisionServiceReply::FoundProtection(r),
            post,
        ),
    ensures
        exists|told: Result<Option<ProtectionView>, Seq<char>>| #[trigger]
            P::answers(
                pre.provisioner,
                ProvisionCall::DescribeProtection { repo: asked_repo(repo), branch },
                ProvisionReply::FoundProtection(told),
                post.provisioner,
            )
            && match told {
            Ok(v) => r matches Ok(sent) && sent == v,
            Err(e) => r matches Err(s) && s.code == Code::Internal && s.message == e,
        },
{
    let asked = ProvisionCall::DescribeProtection { repo: asked_repo(repo), branch };
    let own = choose|own: ProvisionReply| #[trigger] P::answers(
        pre.provisioner,
        geetch_provisioner::granted(ProvisionServiceCall::DescribeProtection { repo, branch }),
        own,
        post.provisioner,
    ) && ProvisionServiceReply::FoundProtection(r) == geetch_provisioner::sent_as(own);
    let told = own->FoundProtection_0;
    assert(
        P::answers(pre.provisioner, asked, ProvisionReply::FoundProtection(told), post.provisioner)
    );
}

/// The provisioner is asked what the request asks for, and its reply is sent; an error is an
/// internal one.
pub proof fn a_delivery_is_provisioned<P: ForgeProvisioner>(
    pre: ServedProvisioner<P>,
    repo: Option<RepoRefView>,
    sink: Option<Seq<u8>>,
    r: Result<Option<Seq<u8>>, StatusView>,
    post: ServedProvisioner<P>,
)
    requires
        ServedProvisioner::<P>::serves(
            pre,
            ProvisionServiceCall::EnsureDelivery { repo, sink },
            ProvisionServiceReply::Delivery(r),
            post,
        ),
    ensures
        exists|told: Result<Seq<u8>, Seq<char>>| #[trigger]
            P::answers(
                pre.provisioner,
                ProvisionCall::EnsureDelivery { repo: asked_repo(repo), sink: asked_sink(sink) },
                ProvisionReply::Delivery(told),
                post.provisioner,
            )
            && match told {
            Ok(v) => r matches Ok(sent) && sent == Some(v),
            Err(e) => r matches Err(s) && s.code == Code::Internal && s.message == e,
        },
{
    let asked = ProvisionCall::EnsureDelivery { repo: asked_repo(repo), sink: asked_sink(sink) };
    let own = choose|own: ProvisionReply| #[trigger] P::answers(
        pre.provisioner,
        geetch_provisioner::granted(ProvisionServiceCall::EnsureDelivery { repo, sink }),
        own,
        post.provisioner,
    ) && ProvisionServiceReply::Delivery(r) == geetch_provisioner::sent_as(own);
    let told = own->Delivery_0;
    assert(P::answers(pre.provisioner, asked, ProvisionReply::Delivery(told), post.provisioner));
}

/// The provisioner is asked what the request asks for, and its reply is sent; an error is an
/// internal one.
pub proof fn a_list_of_deliveries_is_provisioned<P: ForgeProvisioner>(
    pre: ServedProvisioner<P>,
    repo: Option<RepoRefView>,
    r: Result<Seq<Seq<u8>>, StatusView>,
    post: ServedProvisioner<P>,
)
    requires
        ServedProvisioner::<P>::serves(
            pre,
            ProvisionServiceCall::ListDeliveries { repo },
            ProvisionServiceReply::Deliveries(r),
            post,
        ),
    ensures
        exists|told: Result<Seq<Seq<u8>>, Seq<char>>| #[trigger]
            P::answers(
                pre.provisioner,
                ProvisionCall::ListDeliveries { repo: asked_repo(repo) },
                ProvisionReply::Deliveries(told),
                post.provisioner,
            )
            && match told {
            Ok(v) => r matches Ok(sent) && sent == v,
            Err(e) => r matches Err(s) && s.code == Code::Internal && s.message == e,
        },
{
    let asked = ProvisionCall::ListDeliveries { repo: asked_repo(repo) };
    let own = choose|own: ProvisionReply| #[trigger] P::answers(
        pre.provisioner,
        geetch_provisioner::granted(ProvisionServiceCall::ListDeliveries { repo }),
        own,
        post.provisioner,
    ) && ProvisionServiceReply::Deliveries(r) == geetch_provisioner::sent_as(own);
    let told = own->Deliveries_0;
    assert(P::answers(pre.provisioner, asked, ProvisionReply::Deliveries(told), post.provisioner));
}

/// The provisioner is asked what the request asks for, and its reply is sent; an error is an
/// internal one.
pub proof fn a_removal_is_provisioned<P: ForgeProvisioner>(
    pre: ServedProvisioner<P>,
    repo: Option<RepoRefView>,
    id: Seq<char>,
    r: Result<(), StatusView>,
    post: ServedProvisioner<P>,
)
    requires
        ServedProvisioner::<P>::serves(
            pre,
            ProvisionServiceCall::RemoveDelivery { repo, id },
            ProvisionServiceReply::Done(r),
            post,
        ),
    ensures
        exists|told: Result<(), Seq<char>>| #[trigger]
            P::answers(
                pre.provisioner,
                ProvisionCall::RemoveDelivery { repo: asked_repo(repo), id },
                ProvisionReply::Done(told),
                post.provisioner,
            )
            && match told {
            Ok(()) => r is Ok,
            Err(e) => r matches Err(s) && s.code == Code::Internal && s.message == e,
        },
{
    let asked = ProvisionCall::RemoveDelivery { repo: asked_repo(repo), id };
    let own = choose|own: ProvisionReply| #[trigger] P::answers(
        pre.provisioner,
        geetch_provisioner::granted(ProvisionServiceCall::RemoveDelivery { repo, id }),
        own,
        post.provisioner,
    ) && ProvisionServiceReply::Done(r) == geetch_provisioner::sent_as(own);
    let told = own->Done_0;
    assert(P::answers(pre.provisioner, asked, ProvisionReply::Done(told), post.provisioner));
}

// ── driving a service ───────────────────────────────────────────────────────

/// The service is asked for just what the caller asks, and what it sends is what the caller
/// gets; a status is told by its message.
pub proof fn a_repository_is_the_service_s<S: ForgeProvisionService>(
    pre: GeetchProvisioner<S>,
    repo: RepoRefView,
    spec: RepoSpecView,
    r: Result<EnsuredRepoView, Seq<char>>,
    post: GeetchProvisioner<S>,
)
    requires
        GeetchProvisioner::<S>::answers(
            pre,
            ProvisionCall::EnsureRepo { repo, spec },
            ProvisionReply::Ensured(r),
            post,
        ),
    ensures
        exists|sent: Result<EnsureRepoResponseView, StatusView>| #[trigger]
            S::serves(
                pre.service,
                ProvisionServiceCall::EnsureRepo { repo: Some(repo), spec: Some(spec) },
                ProvisionServiceReply::Ensured(sent),
                post.service,
            )
            && match sent {
            Ok(v) => r matches Ok(told) && told.created == v.created
                && match v.repo {
                    Some(repo) => told.repo == repo,
                    None => told.repo.repo is None && told.repo.lifecycle == 0
                        && told.repo.rest.len() == 0,
                },
            Err(s) => r matches Err(e) && e == s.message,
        },
{
    let request = ProvisionServiceCall::EnsureRepo { repo: Some(repo), spec: Some(spec) };
    let reply = choose|sent: ProvisionServiceReply| #[trigger] S::serves(
        pre.service,
        request,
        sent,
        post.service,
    ) && ProvisionReply::Ensured(r) == unwrapped(sent);
    let sent = reply->Ensured_0;
    assert(S::serves(pre.service, request, ProvisionServiceReply::Ensured(sent), post.service));
}

/// The service is asked for just what the caller asks, and what it sends is what the caller
/// gets; a status is told by its message.
pub proof fn a_description_is_the_service_s<S: ForgeProvisionService>(
    pre: GeetchProvisioner<S>,
    repo: RepoRefView,
    r: Result<Option<ProvisionedRepoView>, Seq<char>>,
    post: GeetchProvisioner<S>,
)
    requires
        GeetchProvisioner::<S>::answers(
            pre,
            ProvisionCall::DescribeRepo { repo },
            ProvisionReply::Repo(r),
            post,
        ),
    ensures
        exists|sent: Result<Option<ProvisionedRepoView>, StatusView>| #[trigger]
            S::serves(
                pre.service,
                ProvisionServiceCall::DescribeRepo { repo: Some(repo) },
                ProvisionServiceReply::Repo(sent),
                post.service,
            )
            && match sent {
            Ok(v) => r matches Ok(told) && told == v,
            Err(s) => r matches Err(e) && e == s.message,
        },
{
    let request = ProvisionServiceCall::DescribeRepo { repo: Some(repo) };
    let reply = choose|sent: ProvisionServiceReply| #[trigger] S::serves(
        pre.service,
        request,
        sent,
        post.service,
    ) && ProvisionReply::Repo(r) == unwrapped(sent);
    let sent = reply->Repo_0;
    assert(S::serves(pre.service, request, ProvisionServiceReply::Repo(sent), post.service));
}

/// The service is asked for just what the caller asks, and what it sends is what the caller
/// gets; a status is told by its message.
pub proof fn an_archival_is_the_service_s<S: ForgeProvisionService>(
    pre: GeetchProvisioner<S>,
    repo: RepoRefView,
    r: Result<(), Seq<char>>,
    post: GeetchProvisioner<S>,
)
    requires
        GeetchProvisioner::<S>::answers(
            pre,
            ProvisionCall::ArchiveRepo { repo },
            ProvisionReply::Done(r),
            post,
        ),
    ensures
        exists|sent: Result<(), StatusView>| #[trigger]
            S::serves(
                pre.service,
                ProvisionServiceCall::ArchiveRepo { repo: Some(repo) },
                ProvisionServiceReply::Done(sent),
                post.service,
            )
            && match sent {
            Ok(()) => r is Ok,
            Err(s) => r matches Err(e) && e == s.message,
        },
{
    let request = ProvisionServiceCall::ArchiveRepo { repo: Some(repo) };
    let reply = choose|sent: ProvisionServiceReply| #[trigger] S::serves(
        pre.service,
        request,
        sent,
        post.service,
    ) && ProvisionReply::Done(r) == unwrapped(sent);
    let sent = reply->Done_0;
    assert(S::serves(pre.service, request, ProvisionServiceReply::Done(sent), post.service));
}

/// The service is asked for just what the caller asks, and what it sends is what the caller
/// gets; a status is told by its message.
pub proof fn a_deletion_is_the_service_s<S: ForgeProvisionService>(
    pre: GeetchProvisioner<S>,
    repo: RepoRefView,
    confirm_name: Seq<char>,
    r: Result<(), Seq<char>>,
    post: GeetchProvisioner<S>,
)
    requires
        GeetchProvisioner::<S>::answers(
            pre,
            ProvisionCall::DeleteRepo { repo, confirm_name },
            ProvisionReply::Done(r),
            post,
        ),
    ensures
        exists|sent: Result<(), StatusView>| #[trigger]
            S::serves(
                pre.service,
                ProvisionServiceCall::DeleteRepo { repo: Some(repo), confirm_name },
                ProvisionServiceReply::Done(sent),
                post.service,
            )
            && match sent {
            Ok(()) => r is Ok,
            Err(s) => r matches Err(e) && e == s.message,
        },
{
    let request = ProvisionServiceCall::DeleteRepo { repo: Some(repo), confirm_name };
    let reply = choose|sent: ProvisionServiceReply| #[trigger] S::serves(
        pre.service,
        request,
        sent,
        post.service,
    ) && ProvisionReply::Done(r) == unwrapped(sent);
    let sent = reply->Done_0;
    assert(S::serves(pre.service, request, ProvisionServiceReply::Done(sent), post.service));
}

/// The service is asked for just what the caller asks, and what it sends is what the caller
/// gets; a status is told by its message.
pub proof fn a_protection_is_the_service_s<S: ForgeProvisionService>(
    pre: GeetchProvisioner<S>,
    repo: RepoRefView,
    branch: Seq<char>,
    spec: ProtectionSpecView,
    r: Result<ProtectionView, Seq<char>>,
    post: GeetchProvisioner<S>,
)
    requires
        GeetchProvisioner::<S>::answers(
            pre,
            ProvisionCall::EnsureProtection { repo, branch, spec },
            ProvisionReply::Protection(r),
            post,
        ),
    ensures
        exists|sent: Result<Option<ProtectionView>, StatusView>| #[trigger]
            S::serves(
                pre.service,
                ProvisionServiceCall::EnsureProtection {
                    repo: Some(repo),
                    branch,
                    spec: Some(spec),
                },
                ProvisionServiceReply::Protection(sent),
                post.service,
            )
            && match sent {
            Ok(v) => r matches Ok(told)
                && match v {
                    Some(p) => told == p,
                    None => told.branch.len() == 0 && told.effective is None
                        && told.unsupported.len() == 0 && told.rest.len() == 0,
                },
            Err(s) => r matches Err(e) && e == s.message,
        },
{
    let request = ProvisionServiceCall::EnsureProtection {
        repo: Some(repo),
        branch,
        spec: Some(spec),
    };
    let reply = choose|sent: ProvisionServiceReply| #[trigger] S::serves(
        pre.service,
        request,
        sent,
        post.service,
    ) && ProvisionReply::Protection(r) == unwrapped(sent);
    let sent = reply->Protection_0;
    assert(S::serves(pre.service, request, ProvisionServiceReply::Protection(sent), post.service));
}

/// The service is asked for just what the caller asks, and what it sends is what the caller
/// gets; a status is told by its message.
pub proof fn a_protection_lookup_is_the_service_s<S: ForgeProvisionService>(
    pre: GeetchProvisioner<S>,
    repo: RepoRefView,
    branch: Seq<char>,
    r: Result<Option<ProtectionView>, Seq<char>>,
    post: GeetchProvisioner<S>,
)
    requires
        GeetchProvisioner::<S>::answers(
            pre,
            ProvisionCall::DescribeProtection { repo, branch },
            ProvisionReply::FoundProtection(r),
            post,
        ),
    ensures
        exists|sent: Result<Option<ProtectionView>, StatusView>| #[trigger]
            S::serves(
                pre.service,
                ProvisionServiceCall::DescribeProtection { repo: Some(repo), branch },
                ProvisionServiceReply::FoundProtection(sent),
                post.service,
            )
            && match sent {
            Ok(v) => r matches Ok(told) && told == v,
            Err(s) => r matches Err(e) && e == s.message,
        },
{
    let request = ProvisionServiceCall::DescribeProtection { repo: Some(repo), branch };
    let reply = choose|sent: ProvisionServiceReply| #[trigger] S::serves(
        pre.service,
        request,
        sent,
        post.service,
    ) && ProvisionReply::FoundProtection(r) == unwrapped(sent);
    let sent = reply->FoundProtection_0;
    assert(
        S::serves(pre.service, request, ProvisionServiceReply::FoundProtection(sent), post.service)
    );
}

/// The service is asked for just what the caller asks, and what it sends is what the caller
/// gets; a status is told by its message.
pub proof fn a_delivery_is_the_service_s<S: ForgeProvisionService>(
    pre: GeetchProvisioner<S>,
    repo: RepoRefView,
    sink: Seq<u8>,
    r: Result<Seq<u8>, Seq<char>>,
    post: GeetchProvisioner<S>,
)
    requires
        GeetchProvisioner::<S>::answers(
            pre,
            ProvisionCall::EnsureDelivery { repo, sink },
            ProvisionReply::Delivery(r),
            post,
        ),
    ensures
        exists|sent: Result<Option<Seq<u8>>, StatusView>| #[trigger]
            S::serves(
                pre.service,
                ProvisionServiceCall::EnsureDelivery { repo: Some(repo), sink: Some(sink) },
                ProvisionServiceReply::Delivery(sent),
                post.service,
            )
            && match sent {
            Ok(v) => r matches Ok(told)
                && match v { Some(d) => told == d, None => told.len() == 0, },
            Err(s) => r matches Err(e) && e == s.message,
        },
{
    let request = ProvisionServiceCall::EnsureDelivery { repo: Some(repo), sink: Some(sink) };
    let reply = choose|sent: ProvisionServiceReply| #[trigger] S::serves(
        pre.service,
        request,
        sent,
        post.service,
    ) && ProvisionReply::Delivery(r) == unwrapped(sent);
    let sent = reply->Delivery_0;
    assert(S::serves(pre.service, request, ProvisionServiceReply::Delivery(sent), post.service));
}

/// The service is asked for just what the caller asks, and what it sends is what the caller
/// gets; a status is told by its message.
pub proof fn a_list_of_deliveries_is_the_service_s<S: ForgeProvisionService>(
    pre: GeetchProvisioner<S>,
    repo: RepoRefView,
    r: Result<Seq<Seq<u8>>, Seq<char>>,
    post: GeetchProvisioner<S>,
)
    requires
        GeetchProvisioner::<S>::answers(
            pre,
            ProvisionCall::ListDeliveries { repo },
            ProvisionReply::Deliveries(r),
            post,
        ),
    ensures
        exists|sent: Result<Seq<Seq<u8>>, StatusView>| #[trigger]
            S::serves(
                pre.service,
                ProvisionServiceCall::ListDeliveries { repo: Some(repo) },
                ProvisionServiceReply::Deliveries(sent),
                post.service,
            )
            && match sent {
            Ok(v) => r matches Ok(told) && told == v,
            Err(s) => r matches Err(e) && e == s.message,
        },
{
    let request = ProvisionServiceCall::ListDeliveries { repo: Some(repo) };
    let reply = choose|sent: ProvisionServiceReply| #[trigger] S::serves(
        pre.service,
        request,
        sent,
        post.service,
    ) && ProvisionReply::Deliveries(r) == unwrapped(sent);
    let sent = reply->Deliveries_0;
    assert(S::serves(pre.service, request, ProvisionServiceReply::Deliveries(sent), post.service));
}

/// The service is asked for just what the caller asks, and what it sends is what the caller
/// gets; a status is told by its message.
pub proof fn a_removal_is_the_service_s<S: ForgeProvisionService>(
    pre: GeetchProvisioner<S>,
    repo: RepoRefView,
    id: Seq<char>,
    r: Result<(), Seq<char>>,
    post: GeetchProvisioner<S>,
)
    requires
        GeetchProvisioner::<S>::answers(
            pre,
            ProvisionCall::RemoveDelivery { repo, id },
            ProvisionReply::Done(r),
            post,
        ),
    ensures
        exists|sent: Result<(), StatusView>| #[trigger]
            S::serves(
                pre.service,
                ProvisionServiceCall::RemoveDelivery { repo: Some(repo), id },
                ProvisionServiceReply::Done(sent),
                post.service,
            )
            && match sent {
            Ok(()) => r is Ok,
            Err(s) => r matches Err(e) && e == s.message,
        },
{
    let request = ProvisionServiceCall::RemoveDelivery { repo: Some(repo), id };
    let reply = choose|sent: ProvisionServiceReply| #[trigger] S::serves(
        pre.service,
        request,
        sent,
        post.service,
    ) && ProvisionReply::Done(r) == unwrapped(sent);
    let sent = reply->Done_0;
    assert(S::serves(pre.service, request, ProvisionServiceReply::Done(sent), post.service));
}

} // verus!

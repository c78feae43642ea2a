//! Privileged provisioning contract: repository lifecycle and configuration.
//!
//! The messages hold the fields that the library reads; what else a message carries
//! travels in `rest`, in its encoded form.

use crate::forge::{ForgeError, ForgeResult};
use crate::messages::{
    copy_bytes, copy_opt, copy_texts, same_bytes, same_opt, same_texts, seen, texts, ForgeKind,
    Message, RepoRef, RepoRefView,
};
use crate::table::{deep, Table};
use vstd::prelude::*;

verus! {

/// Who may see a repository.
#[derive(Debug, Clone, Copy, PartialEq, Eq, Structural)]
pub enum Visibility {
    Unspecified,
    Private,
    Internal,
    Public,
}

impl Visibility {
    /// The number that stands for the visibility in a message.
    pub open spec fn wire(self) -> i32 {
        match self {
            Visibility::Unspecified => 0,
            Visibility::Private => 1,
            Visibility::Internal => 2,
            Visibility::Public => 3,
        }
    }

    pub fn number(self) -> (r: i32)
        ensures
            r == self.wire(),
    {
        match self {
            Visibility::Unspecified => 0,
            Visibility::Private => 1,
            Visibility::Internal => 2,
            Visibility::Public => 3,
        }
    }
}

/// Whether a repository takes writes.
#[derive(Debug, Clone, Copy, PartialEq, Eq, Structural)]
pub enum RepoLifecycle {
    Unspecified,
    Active,
    Archived,
}

impl RepoLifecycle {
    /// The number that stands for the lifecycle in a message.
    pub open spec fn wire(self) -> i32 {
        match self {
            RepoLifecycle::Unspecified => 0,
            RepoLifecycle::Active => 1,
            RepoLifecycle::Archived => 2,
        }
    }

    pub fn number(self) -> (r: i32)
        ensures
            r == self.wire(),
    {
        match self {
            RepoLifecycle::Unspecified => 0,
            RepoLifecycle::Active => 1,
            RepoLifecycle::Archived => 2,
        }
    }
}

/// A repository as it exists on the forge.
#[derive(Debug)]
pub struct ProvisionedRepo {
    pub repo: Option<RepoRef>,
    pub lifecycle: i32,
    pub rest: Vec<u8>,
}

/// [`ProvisionedRepo`] by its characters.
pub struct ProvisionedRepoView {
    pub repo: Option<RepoRefView>,
    pub lifecycle: i32,
    pub rest: Seq<u8>,
}

impl View for ProvisionedRepo {
    type V = ProvisionedRepoView;

    open spec fn view(&self) -> ProvisionedRepoView {
        ProvisionedRepoView {
            repo: seen(self.repo),
            lifecycle: self.lifecycle,
            rest: self.rest@,
        }
    }
}

impl Message for ProvisionedRepo {
    open spec fn blank() -> ProvisionedRepoView {
        ProvisionedRepoView {
            repo: None,
            lifecycle: 0,
            rest: Seq::empty(),
        }
    }

    fn empty() -> (r: Self) {
        let r = ProvisionedRepo {
            repo: None,
            lifecycle: 0,
            rest: Vec::new(),
        };
        r
    }

    fn copy(&self) -> (r: Self) {
        ProvisionedRepo {
            repo: copy_opt(&self.repo),
            lifecycle: self.lifecycle,
            rest: copy_bytes(&self.rest),
        }
    }

    fn same(&self, other: &Self) -> (r: bool) {
        same_opt(&self.repo, &other.repo)
            && self.lifecycle == other.lifecycle
            && same_bytes(&self.rest, &other.rest)
    }
}

/// What a branch is to be protected against.
#[derive(Debug)]
pub struct ProtectionSpec {
    pub block_force_push: bool,
    pub rest: Vec<u8>,
}

/// [`ProtectionSpec`] by its characters.
pub struct ProtectionSpecView {
    pub block_force_push: bool,
    pub rest: Seq<u8>,
}

impl View for ProtectionSpec {
    type V = ProtectionSpecView;

    open spec fn view(&self) -> ProtectionSpecView {
        ProtectionSpecView {
            block_force_push: self.block_force_push,
            rest: self.rest@,
        }
    }
}

impl Message for ProtectionSpec {
    open spec fn blank() -> ProtectionSpecView {
        ProtectionSpecView {
            block_force_push: false,
            rest: Seq::empty(),
        }
    }

    fn empty() -> (r: Self) {
        let r = ProtectionSpec {
            block_force_push: false,
            rest: Vec::new(),
        };
        r
    }

    fn copy(&self) -> (r: Self) {
        ProtectionSpec {
            block_force_push: self.block_force_push,
            rest: copy_bytes(&self.rest),
        }
    }

    fn same(&self, other: &Self) -> (r: bool) {
        self.block_force_push == other.block_force_push
            && same_bytes(&self.rest, &other.rest)
    }
}

/// The protection of a branch. Anything the forge cannot honor is in `unsupported`.
#[derive(Debug)]
pub struct Protection {
    pub branch: String,
    pub effective: Option<ProtectionSpec>,
    pub unsupported: Vec<String>,
    pub rest: Vec<u8>,
}

/// [`Protection`] by its characters.
pub struct ProtectionView {
    pub branch: Seq<char>,
    pub effective: Option<ProtectionSpecView>,
    pub unsupported: Seq<Seq<char>>,
    pub rest: Seq<u8>,
}

impl View for Protection {
    type V = ProtectionView;

    open spec fn view(&self) -> ProtectionView {
        ProtectionView {
            branch: self.branch@,
            effective: seen(self.effective),
            unsupported: texts(self.unsupported@),
            rest: self.rest@,
        }
    }
}

impl Message for Protection {
    open spec fn blank() -> ProtectionView {
        ProtectionView {
            branch: Seq::empty(),
            effective: None,
            unsupported: Seq::empty(),
            rest: Seq::empty(),
        }
    }

    fn empty() -> (r: Self) {
        let r = Protection {
            branch: String::new(),
            effective: None,
            unsupported: Vec::new(),
            rest: Vec::new(),
        };
        assert(texts(r.unsupported@) =~= Seq::<Seq<char>>::empty());
        r
    }

    fn copy(&self) -> (r: Self) {
        Protection {
            branch: self.branch.clone(),
            effective: copy_opt(&self.effective),
            unsupported: copy_texts(self.unsupported.as_slice()),
            rest: copy_bytes(&self.rest),
        }
    }

    fn same(&self, other: &Self) -> (r: bool) {
        self.branch == other.branch
            && same_opt(&self.effective, &other.effective)
            && same_texts(&self.unsupported, &other.unsupported)
            && same_bytes(&self.rest, &other.rest)
    }
}

/// The wanted shape of a repository.
pub struct RepoSpec {
    pub description: String,
    pub visibility: i32,
    pub default_branch: String,
    pub initialize: bool,
    pub tags: Table<String, String>,
}

/// [`RepoSpec`] by its characters.
pub struct RepoSpecView {
    pub description: Seq<char>,
    pub visibility: i32,
    pub default_branch: Seq<char>,
    pub initialize: bool,
    pub tags: Map<Seq<char>, Seq<char>>,
}

impl View for RepoSpec {
    type V = RepoSpecView;

    open spec fn view(&self) -> RepoSpecView {
        RepoSpecView {
            description: self.description@,
            visibility: self.visibility,
            default_branch: self.default_branch@,
            initialize: self.initialize,
            tags: deep(self.tags@),
        }
    }
}

impl RepoSpec {
    /// What an absent shape reads as: nothing asked for.
    pub open spec fn blank() -> RepoSpecView {
        RepoSpecView {
            description: Seq::empty(),
            visibility: 0,
            default_branch: Seq::empty(),
            initialize: false,
            tags: Map::empty(),
        }
    }

    pub fn empty() -> (r: Self)
        ensures
            r@ == Self::blank(),
    {
        let r = RepoSpec {
            description: String::new(),
            visibility: 0,
            default_branch: String::new(),
            initialize: false,
            tags: Table::new(),
        };
        assert(deep(r.tags@) =~= Map::<Seq<char>, Seq<char>>::empty());
        r
    }

    pub fn copy(&self) -> (r: Self)
        ensures
            r@ == self@,
    {
        RepoSpec {
            description: self.description.clone(),
            visibility: self.visibility,
            default_branch: self.default_branch.clone(),
            initialize: self.initialize,
            tags: self.tags.copied(),
        }
    }
}

/// Outcome of [`ForgeProvisioner::ensure_repo`]: idempotent over an existing repo.
#[derive(Debug)]
pub struct EnsuredRepo {
    pub repo: ProvisionedRepo,
    /// False when the repository already existed.
    pub created: bool,
}

/// [`EnsuredRepo`] by its characters.
pub struct EnsuredRepoView {
    pub repo: ProvisionedRepoView,
    pub created: bool,
}

impl View for EnsuredRepo {
    type V = EnsuredRepoView;

    open spec fn view(&self) -> EnsuredRepoView {
        EnsuredRepoView { repo: self.repo@, created: self.created }
    }
}

/// Where events are delivered to, in its encoded form: it is handed on, never read.
#[derive(Debug)]
pub struct DeliverySink {
    pub encoded: Vec<u8>,
}

impl View for DeliverySink {
    type V = Seq<u8>;

    open spec fn view(&self) -> Seq<u8> {
        self.encoded@
    }
}

/// A configured delivery, in its encoded form.
#[derive(Debug)]
pub struct Delivery {
    pub encoded: Vec<u8>,
}

impl View for Delivery {
    type V = Seq<u8>;

    open spec fn view(&self) -> Seq<u8> {
        self.encoded@
    }
}

/// A delivery that was ensured, in its encoded form.
#[derive(Debug)]
pub struct EnsuredDelivery {
    pub encoded: Vec<u8>,
}

impl View for EnsuredDelivery {
    type V = Seq<u8>;

    open spec fn view(&self) -> Seq<u8> {
        self.encoded@
    }
}

/// A [`RepoSpec`] with the defaults callers should almost always want.
///
/// `initialize` is true: most of the forge contract is meaningless on an empty
/// repository, so an unseeded repo fails two calls later, far from the cause.
#[must_use]
pub fn default_repo_spec() -> (r: RepoSpec)
    ensures
        r.description@.len() == 0,
        r.visibility == Visibility::Private.wire(),
        r.default_branch@ == "main"@,
        r.initialize,
        r.tags@ == Map::<Seq<char>, String>::empty(),
{
    RepoSpec {
        description: String::new(),
        visibility: Visibility::Private.number(),
        default_branch: "main".to_owned(),
        initialize: true,
        tags: Table::new(),
    }
}

/// The error an adapter returns for a capability it genuinely cannot provide.
///
/// Naming the operation and the forge is what turns "it didn't work" into "this forge
/// has no such concept".
#[must_use]
pub fn unsupported(op: &str, kind: ForgeKind) -> (r: ForgeError)
    ensures
        r@ == op@ + " is not supported by the "@ + kind.title() + " provisioner"@,
{
    ForgeError::from_text(
        op.to_owned().concat(" is not supported by the ").concat(kind.name()).concat(
            " provisioner",
        ),
    )
}

/// The deliveries by their bytes.
pub open spec fn encoded_all(deliveries: Seq<Delivery>) -> Seq<Seq<u8>> {
    deliveries.map_values(|d: Delivery| d@)
}

/// A call of a provisioner.
#[allow(inconsistent_fields)]
pub enum ProvisionCall {
    EnsureRepo { repo: RepoRefView, spec: RepoSpecView },
    DescribeRepo { repo: RepoRefView },
    ArchiveRepo { repo: RepoRefView },
    DeleteRepo { repo: RepoRefView, confirm_name: Seq<char> },
    EnsureProtection { repo: RepoRefView, branch: Seq<char>, spec: ProtectionSpecView },
    DescribeProtection { repo: RepoRefView, branch: Seq<char> },
    EnsureDelivery { repo: RepoRefView, sink: Seq<u8> },
    ListDeliveries { repo: RepoRefView },
    RemoveDelivery { repo: RepoRefView, id: Seq<char> },
}

/// What a provisioner replied; an error is its message.
pub enum ProvisionReply {
    Ensured(Result<EnsuredRepoView, Seq<char>>),
    Repo(Result<Option<ProvisionedRepoView>, Seq<char>>),
    Done(Result<(), Seq<char>>),
    Protection(Result<ProtectionView, Seq<char>>),
    FoundProtection(Result<Option<ProtectionView>, Seq<char>>),
    Delivery(Result<Seq<u8>, Seq<char>>),
    Deliveries(Result<Seq<Seq<u8>>, Seq<char>>),
}

/// Repository lifecycle and configuration, for a caller holding a privileged identity.
pub trait ForgeProvisioner: Sized {
    /// What the provisioner keeps true of itself between calls.
    spec fn wf(&self) -> bool;

    /// The provisioner may reply to the call in this way, and is then in this state.
    spec fn answers(pre: Self, call: ProvisionCall, reply: ProvisionReply, post: Self) -> bool;

    /// The forge that the provisioner targets.
    spec fn target(&self) -> ForgeKind;

    /// Which forge this provisioner targets.
    fn kind(&self) -> (r: ForgeKind)
        ensures
            r == self.target(),
    ;

    /// Converge `repo` onto `spec`. Idempotent: an existing repository is returned with
    /// `created = false`, not an error.
    fn ensure_repo(
        &mut self,
        repo: &RepoRef,
        spec: &RepoSpec,
    ) -> (r: ForgeResult<EnsuredRepo>)
        requires
            old(self).wf(),
        ensures
            final(self).wf(),
            final(self).target() == old(self).target(),
            Self::answers(
                *old(self),
                ProvisionCall::EnsureRepo { repo: repo@, spec: spec@ },
                ProvisionReply::Ensured(
                    match r {
                        Ok(v) => Ok(v@),
                        Err(e) => Err(e@),
                    },
                ),
                *final(self),
            ),
    ;

    /// The repository as it exists, or `Ok(None)` when absent.
    fn describe_repo(
        &mut self,
        repo: &RepoRef,
    ) -> (r: ForgeResult<Option<ProvisionedRepo>>)
        requires
            old(self).wf(),
        ensures
            final(self).wf(),
            final(self).target() == old(self).target(),
            Self::answers(
                *old(self),
                ProvisionCall::DescribeRepo { repo: repo@ },
                ProvisionReply::Repo(
                    match r {
                        Ok(v) => Ok(seen(v)),
                        Err(e) => Err(e@),
                    },
                ),
                *final(self),
            ),
    ;

    /// Make `repo` read-only, preserving its contents.
    fn archive_repo(
        &mut self,
        repo: &RepoRef,
    ) -> (r: ForgeResult<()>)
        requires
            old(self).wf(),
        ensures
            final(self).wf(),
            final(self).target() == old(self).target(),
            Self::answers(
                *old(self),
                ProvisionCall::ArchiveRepo { repo: repo@ },
                ProvisionReply::Done(
                    match r {
                        Ok(()) => Ok(()),
                        Err(e) => Err(e@),
                    },
                ),
                *final(self),
            ),
    ;

    /// **Destructive.** Errors unless `confirm_name == repo.name`.
    fn delete_repo(
        &mut self,
        repo: &RepoRef,
        confirm_name: &str,
    ) -> (r: ForgeResult<()>)
        requires
            old(self).wf(),
        ensures
            final(self).wf(),
            final(self).target() == old(self).target(),
            Self::answers(
                *old(self),
                ProvisionCall::DeleteRepo { repo: repo@, confirm_name: confirm_name@ },
                ProvisionReply::Done(
                    match r {
                        Ok(()) => Ok(()),
                        Err(e) => Err(e@),
                    },
                ),
                *final(self),
            ),
    ;

    /// Converge `branch` onto `spec`.
    fn ensure_protection(
        &mut self,
        repo: &RepoRef,
        branch: &str,
        spec: &ProtectionSpec,
    ) -> (r: ForgeResult<Protection>)
        requires
            old(self).wf(),
        ensures
            final(self).wf(),
            final(self).target() == old(self).target(),
            Self::answers(
                *old(self),
                ProvisionCall::EnsureProtection { repo: repo@, branch: branch@, spec: spec@ },
                ProvisionReply::Protection(
                    match r {
                        Ok(v) => Ok(v@),
                        Err(e) => Err(e@),
                    },
                ),
                *final(self),
            ),
    ;

    /// Protection as it exists on `branch`, or `Ok(None)` when unprotected.
    fn describe_protection(
        &mut self,
        repo: &RepoRef,
        branch: &str,
    ) -> (r: ForgeResult<Option<Protection>>)
        requires
            old(self).wf(),
        ensures
            final(self).wf(),
            final(self).target() == old(self).target(),
            Self::answers(
                *old(self),
                ProvisionCall::DescribeProtection { repo: repo@, branch: branch@ },
                ProvisionReply::FoundProtection(
                    match r {
                        Ok(v) => Ok(seen(v)),
                        Err(e) => Err(e@),
                    },
                ),
                *final(self),
            ),
    ;

    /// Idempotently ensure `repo` delivers events to `sink`.
    fn ensure_delivery(
        &mut self,
        repo: &RepoRef,
        sink: &DeliverySink,
    ) -> (r: ForgeResult<EnsuredDelivery>)
        requires
            old(self).wf(),
        ensures
            final(self).wf(),
            final(self).target() == old(self).target(),
            Self::answers(
                *old(self),
                ProvisionCall::EnsureDelivery { repo: repo@, sink: sink@ },
                ProvisionReply::Delivery(
                    match r {
                        Ok(v) => Ok(v@),
                        Err(e) => Err(e@),
                    },
                ),
                *final(self),
            ),
    ;

    /// Every delivery configured on `repo`.
    fn list_deliveries(
        &mut self,
        repo: &RepoRef,
    ) -> (r: ForgeResult<Vec<Delivery>>)
        requires
            old(self).wf(),
        ensures
            final(self).wf(),
            final(self).target() == old(self).target(),
            Self::answers(
                *old(self),
                ProvisionCall::ListDeliveries { repo: repo@ },
                ProvisionReply::Deliveries(
                    match r {
                        Ok(v) => Ok(encoded_all(v@)),
                        Err(e) => Err(e@),
                    },
                ),
                *final(self),
            ),
    ;

    /// Remove one delivery. Idempotent: removing an absent id is a no-op success.
    fn remove_delivery(
        &mut self,
        repo: &RepoRef,
        id: &str,
    ) -> (r: ForgeResult<()>)
        requires
            old(self).wf(),
        ensures
            final(self).wf(),
            final(self).target() == old(self).target(),
            Self::answers(
                *old(self),
                ProvisionCall::RemoveDelivery { repo: repo@, id: id@ },
                ProvisionReply::Done(
                    match r {
                        Ok(()) => Ok(()),
                        Err(e) => Err(e@),
                    },
                ),
                *final(self),
            ),
    ;
}

} // verus!

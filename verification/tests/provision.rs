use platform::forge::{ForgeError, ForgeResult};
use platform::geetch_provisioner::{
    acknowledged, described, ensured_delivery, ensured_protection, ensured_repo,
    listed_deliveries, EnsureRepoRequest, EnsureRepoResponse, ForgeProvisionService,
    GeetchProvisioner, ServedProvisioner,
};
use platform::messages::{ForgeKind, Message, RepoRef};
use platform::provision::{
    default_repo_spec, unsupported, Delivery, DeliverySink, EnsuredDelivery, EnsuredRepo,
    ForgeProvisioner, Protection, ProtectionSpec, ProvisionCall, ProvisionReply, ProvisionedRepo,
    RepoLifecycle, RepoSpec, Visibility,
};
use platform::status::{Code, Status};

/// Seeding is on by default: an unseeded repo breaks `create_branch` and `read_file` two
/// calls later, far from the cause.
#[test]
fn default_spec_initializes_and_is_private() {
    let s = default_repo_spec();
    assert!(s.initialize, "a repo with no commit has no default branch");
    assert_eq!(s.visibility, Visibility::Private.number());
    assert_eq!(s.default_branch, "main");
}

#[test]
fn unsupported_names_the_op_and_the_forge() {
    let e = unsupported("ensure_protection", ForgeKind::Geetch);
    let msg = e.to_string();
    assert!(msg.contains("ensure_protection"), "{msg}");
    assert!(msg.contains("Geetch"), "{msg}");
}

#[test]
fn unsupported_reads_as_a_sentence() {
    assert_eq!(
        unsupported("archive_repo", ForgeKind::Gitlab).to_string(),
        "archive_repo is not supported by the Gitlab provisioner"
    );
    assert_eq!(default_repo_spec().description, "");
    assert_eq!(default_repo_spec().tags.len(), 0);
}

fn repo() -> RepoRef {
    RepoRef {
        forge: ForgeKind::Geetch.number(),
        host: String::new(),
        owner: "acme".to_string(),
        name: "widgets".to_string(),
    }
}

/// One repository in memory, and what was asked of it.
struct OneRepo {
    held: Option<ProvisionedRepo>,
    protection: Option<Protection>,
    deliveries: Vec<Vec<u8>>,
    asked: Vec<String>,
}

impl OneRepo {
    fn new() -> Self {
        OneRepo {
            held: None,
            protection: None,
            deliveries: vec![],
            asked: vec![],
        }
    }
}

impl ForgeProvisioner for OneRepo {
    fn wf(&self) -> bool {
        true
    }

    fn answers(_pre: Self, _call: ProvisionCall, _reply: ProvisionReply, _post: Self) -> bool {
        true
    }

    fn target(&self) -> ForgeKind {
        ForgeKind::Geetch
    }

    fn kind(&self) -> ForgeKind {
        ForgeKind::Geetch
    }

    fn ensure_repo(&mut self, repo: &RepoRef, spec: &RepoSpec) -> ForgeResult<EnsuredRepo> {
        self.asked.push(format!("ensure {} {}", repo.name, spec.default_branch));
        let created = self.held.is_none();
        if created {
            self.held = Some(ProvisionedRepo {
                repo: Some(repo.clone()),
                lifecycle: RepoLifecycle::Active.number(),
                rest: vec![],
            });
        }
        Ok(EnsuredRepo {
            repo: self.held.as_ref().unwrap().copy(),
            created,
        })
    }

    fn describe_repo(&mut self, _repo: &RepoRef) -> ForgeResult<Option<ProvisionedRepo>> {
        Ok(self.held.as_ref().map(|r| r.copy()))
    }

    fn archive_repo(&mut self, _repo: &RepoRef) -> ForgeResult<()> {
        let held = self.held.as_mut().ok_or(ForgeError::msg("no such repo"))?;
        held.lifecycle = RepoLifecycle::Archived.number();
        Ok(())
    }

    fn delete_repo(&mut self, repo: &RepoRef, confirm_name: &str) -> ForgeResult<()> {
        if confirm_name != repo.name {
            return Err(ForgeError::msg("the name does not confirm"));
        }
        self.held = None;
        Ok(())
    }

    fn ensure_protection(
        &mut self,
        _repo: &RepoRef,
        branch: &str,
        spec: &ProtectionSpec,
    ) -> ForgeResult<Protection> {
        self.protection = Some(Protection {
            branch: branch.to_string(),
            effective: Some(spec.copy()),
            unsupported: vec!["signed".to_string()],
            rest: vec![],
        });
        Ok(self.protection.as_ref().unwrap().copy())
    }

    fn describe_protection(
        &mut self,
        _repo: &RepoRef,
        branch: &str,
    ) -> ForgeResult<Option<Protection>> {
        Ok(self.protection.as_ref().filter(|p| p.branch == branch).map(|p| p.copy()))
    }

    fn ensure_delivery(
        &mut self,
        _repo: &RepoRef,
        sink: &DeliverySink,
    ) -> ForgeResult<EnsuredDelivery> {
        self.deliveries.push(sink.encoded.clone());
        Ok(EnsuredDelivery { encoded: sink.encoded.clone() })
    }

    fn list_deliveries(&mut self, _repo: &RepoRef) -> ForgeResult<Vec<Delivery>> {
        Ok(self
            .deliveries
            .iter()
            .map(|encoded| Delivery { encoded: encoded.clone() })
            .collect())
    }

    fn remove_delivery(&mut self, _repo: &RepoRef, id: &str) -> ForgeResult<()> {
        self.asked.push(format!("remove {id}"));
        self.deliveries.clear();
        Ok(())
    }
}

fn told<T>(r: ForgeResult<T>) -> String {
    r.err().expect("an error is owed").to_string()
}

#[test]
fn a_served_provisioner_answers_as_itself() {
    let mut p = GeetchProvisioner::new(ServedProvisioner { provisioner: OneRepo::new() });
    let r = repo();
    assert!(p.kind() == ForgeKind::Geetch);
    assert!(p.describe_repo(&r).ok().unwrap().is_none());
    assert_eq!(told(p.archive_repo(&r)), "no such repo");
    let first = p.ensure_repo(&r, &default_repo_spec()).ok().unwrap();
    assert!(first.created);
    assert_eq!(first.repo.repo.unwrap().name, "widgets");
    assert!(!p.ensure_repo(&r, &default_repo_spec()).ok().unwrap().created);
    assert!(p.archive_repo(&r).is_ok());
    let seen = p.describe_repo(&r).ok().unwrap().unwrap();
    assert_eq!(seen.lifecycle, RepoLifecycle::Archived.number());
    let spec = ProtectionSpec { block_force_push: true, rest: vec![9] };
    let made = p.ensure_protection(&r, "main", &spec).ok().unwrap();
    assert_eq!(made.unsupported, vec!["signed"]);
    assert!(p.describe_protection(&r, "dev").ok().unwrap().is_none());
    let found = p.describe_protection(&r, "main").ok().unwrap().unwrap();
    let effective = found.effective.unwrap();
    assert!(effective.block_force_push);
    assert_eq!(effective.rest, vec![9]);
    let sink = DeliverySink { encoded: vec![1, 2] };
    assert_eq!(p.ensure_delivery(&r, &sink).ok().unwrap().encoded, vec![1, 2]);
    let listed = p.list_deliveries(&r).ok().unwrap();
    assert_eq!(listed.len(), 1);
    assert_eq!(listed[0].encoded, vec![1, 2]);
    assert!(p.remove_delivery(&r, "d1").is_ok());
    assert!(p.list_deliveries(&r).ok().unwrap().is_empty());
    assert_eq!(told(p.delete_repo(&r, "gadgets")), "the name does not confirm");
    assert!(p.delete_repo(&r, "widgets").is_ok());
    assert!(p.describe_repo(&r).ok().unwrap().is_none());
    assert_eq!(
        p.service.provisioner.asked,
        vec!["ensure widgets main", "ensure widgets main", "remove d1"]
    );
}

#[test]
fn an_absent_message_reads_as_an_empty_one() {
    let mut served = ServedProvisioner { provisioner: OneRepo::new() };
    let sent = served.ensure_repo(EnsureRepoRequest { repo: None, spec: None }).ok().unwrap();
    assert!(sent.created);
    assert_eq!(served.provisioner.asked, vec!["ensure  "]);
}

#[test]
fn provisioning_replies_are_unwrapped() {
    let ensured = ensured_repo(Ok(EnsureRepoResponse { repo: None, created: true })).ok().unwrap();
    assert!(ensured.created && ensured.repo.repo.is_none());
    let refused = || Status::new(Code::Internal, "boom");
    assert_eq!(told(ensured_repo(Err(refused()))), "boom");
    assert!(described::<u8>(Ok(None)).ok().unwrap().is_none());
    assert_eq!(told(described::<u8>(Err(refused()))), "boom");
    assert_eq!(told(acknowledged(Err(refused()))), "boom");
    assert!(acknowledged(Ok(())).is_ok());
    assert_eq!(ensured_protection(Ok(None)).ok().unwrap().branch, "");
    assert!(ensured_delivery(Ok(None)).ok().unwrap().encoded.is_empty());
    assert_eq!(told(ensured_delivery(Err(refused()))), "boom");
    assert_eq!(told(listed_deliveries(Err(refused()))), "boom");
}

//! The `forge.v1` vocabulary: what travels between a caller, a gateway and a forge.

use crate::search::{first_index, first_index_at, first_index_none};
use crate::text::same;
use vstd::prelude::*;

verus! {

/// The code hosts that the contract knows.
#[derive(Debug, Clone, Copy, PartialEq, Eq, Structural)]
pub enum ForgeKind {
    Unspecified,
    Github,
    Gitlab,
    Geetch,
}

impl ForgeKind {
    /// The number that stands for the kind in a message.
    pub open spec fn wire(self) -> int {
        match self {
            ForgeKind::Unspecified => 0,
            ForgeKind::Github => 1,
            ForgeKind::Gitlab => 2,
            ForgeKind::Geetch => 3,
        }
    }

    pub fn number(self) -> (r: i32)
        ensures
            r == self.wire(),
    {
        match self {
            ForgeKind::Unspecified => 0,
            ForgeKind::Github => 1,
            ForgeKind::Gitlab => 2,
            ForgeKind::Geetch => 3,
        }
    }

    /// The kind that a number stands for.
    pub fn from_number(n: i32) -> (r: Option<Self>)
        ensures
            match r {
                Some(kind) => kind.wire() == n,
                None => forall|k: ForgeKind| #[trigger] k.wire() != n,
            },
    {
        match n {
            0 => Some(ForgeKind::Unspecified),
            1 => Some(ForgeKind::Github),
            2 => Some(ForgeKind::Gitlab),
            3 => Some(ForgeKind::Geetch),
            _ => None,
        }
    }

    /// The kind's name, as messages show it.
    pub open spec fn title(self) -> Seq<char> {
        match self {
            ForgeKind::Unspecified => "Unspecified"@,
            ForgeKind::Github => "Github"@,
            ForgeKind::Gitlab => "Gitlab"@,
            ForgeKind::Geetch => "Geetch"@,
        }
    }

    pub fn name(self) -> (r: &'static str)
        ensures
            r@ == self.title(),
    {
        match self {
            ForgeKind::Unspecified => "Unspecified",
            ForgeKind::Github => "Github",
            ForgeKind::Gitlab => "Gitlab",
            ForgeKind::Geetch => "Geetch",
        }
    }
}

/// The state of a change's pipeline.
#[derive(Debug, Clone, Copy, PartialEq, Eq, Structural)]
pub enum CiStatus {
    Unspecified,
    /// No pipeline runs for the change.
    Absent,
    Pending,
    Running,
    Success,
    Failed,
    Canceled,
}

impl CiStatus {
    pub open spec fn wire(self) -> int {
        match self {
            CiStatus::Unspecified => 0,
            CiStatus::Absent => 1,
            CiStatus::Pending => 2,
            CiStatus::Running => 3,
            CiStatus::Success => 4,
            CiStatus::Failed => 5,
            CiStatus::Canceled => 6,
        }
    }

    pub fn number(self) -> (r: i32)
        ensures
            r == self.wire(),
    {
        match self {
            CiStatus::Unspecified => 0,
            CiStatus::Absent => 1,
            CiStatus::Pending => 2,
            CiStatus::Running => 3,
            CiStatus::Success => 4,
            CiStatus::Failed => 5,
            CiStatus::Canceled => 6,
        }
    }

    pub fn from_number(n: i32) -> (r: Option<Self>)
        ensures
            match r {
                Some(status) => status.wire() == n,
                None => forall|s: CiStatus| #[trigger] s.wire() != n,
            },
    {
        match n {
            0 => Some(CiStatus::Unspecified),
            1 => Some(CiStatus::Absent),
            2 => Some(CiStatus::Pending),
            3 => Some(CiStatus::Running),
            4 => Some(CiStatus::Success),
            5 => Some(CiStatus::Failed),
            6 => Some(CiStatus::Canceled),
            _ => None,
        }
    }
}

/// Whether a change is open, merged or closed.
#[derive(Debug, Clone, Copy, PartialEq, Eq, Structural)]
pub enum ChangeState {
    Unspecified,
    Open,
    Merged,
    Closed,
}

impl ChangeState {
    pub open spec fn wire(self) -> int {
        match self {
            ChangeState::Unspecified => 0,
            ChangeState::Open => 1,
            ChangeState::Merged => 2,
            ChangeState::Closed => 3,
        }
    }

    pub fn number(self) -> (r: i32)
        ensures
            r == self.wire(),
    {
        match self {
            ChangeState::Unspecified => 0,
            ChangeState::Open => 1,
            ChangeState::Merged => 2,
            ChangeState::Closed => 3,
        }
    }

    pub fn from_number(n: i32) -> (r: Option<Self>)
        ensures
            match r {
                Some(state) => state.wire() == n,
                None => forall|s: ChangeState| #[trigger] s.wire() != n,
            },
    {
        match n {
            0 => Some(ChangeState::Unspecified),
            1 => Some(ChangeState::Open),
            2 => Some(ChangeState::Merged),
            3 => Some(ChangeState::Closed),
            _ => None,
        }
    }

    pub open spec fn title(self) -> Seq<char> {
        match self {
            ChangeState::Unspecified => "Unspecified"@,
            ChangeState::Open => "Open"@,
            ChangeState::Merged => "Merged"@,
            ChangeState::Closed => "Closed"@,
        }
    }

    pub fn name(self) -> (r: &'static str)
        ensures
            r@ == self.title(),
    {
        match self {
            ChangeState::Unspecified => "Unspecified",
            ChangeState::Open => "Open",
            ChangeState::Merged => "Merged",
            ChangeState::Closed => "Closed",
        }
    }
}

/// No two kinds share a number, so a number that is read back names the kind that
/// was written; the same holds of pipeline and change states.
pub proof fn wire_numbers_are_distinct()
    ensures
        forall|a: ForgeKind, b: ForgeKind| #[trigger] a.wire() == #[trigger] b.wire() ==> a == b,
        forall|a: CiStatus, b: CiStatus| #[trigger] a.wire() == #[trigger] b.wire() ==> a == b,
        forall|a: ChangeState, b: ChangeState| #[trigger]
            a.wire() == #[trigger] b.wire() ==> a == b,
{
}

/// A repository on a forge. `owner` may be a nested group path.
#[derive(Debug)]
pub struct RepoRef {
    pub forge: i32,
    pub host: String,
    pub owner: String,
    pub name: String,
}

/// A repository reference by its characters.
pub struct RepoRefView {
    pub forge: int,
    pub host: Seq<char>,
    pub owner: Seq<char>,
    pub name: Seq<char>,
}

impl View for RepoRef {
    type V = RepoRefView;

    open spec fn view(&self) -> RepoRefView {
        RepoRefView {
            forge: self.forge as int,
            host: self.host@,
            owner: self.owner@,
            name: self.name@,
        }
    }
}

impl Clone for RepoRef {
    fn clone(&self) -> (r: Self)
        ensures
            r == *self,
    {
        RepoRef {
            forge: self.forge,
            host: self.host.clone(),
            owner: self.owner.clone(),
            name: self.name.clone(),
        }
    }
}

/// A change (pull or merge request). `number` identifies it on numeric forges.
#[derive(Debug)]
pub struct ChangeRef {
    pub number: u64,
    pub url: String,
    pub branch: String,
    pub id: String,
}

/// A change reference by its characters.
pub struct ChangeRefView {
    pub number: int,
    pub url: Seq<char>,
    pub branch: Seq<char>,
    pub id: Seq<char>,
}

impl View for ChangeRef {
    type V = ChangeRefView;

    open spec fn view(&self) -> ChangeRefView {
        ChangeRefView {
            number: self.number as int,
            url: self.url@,
            branch: self.branch@,
            id: self.id@,
        }
    }
}

impl Clone for ChangeRef {
    fn clone(&self) -> (r: Self)
        ensures
            r == *self,
    {
        ChangeRef {
            number: self.number,
            url: self.url.clone(),
            branch: self.branch.clone(),
            id: self.id.clone(),
        }
    }
}

/// A file's content with the opaque id needed to update it.
#[derive(Debug)]
pub struct FileBlob {
    pub path: String,
    pub content: String,
    pub blob_sha: String,
}

/// A file by its characters.
pub struct FileBlobView {
    pub path: Seq<char>,
    pub content: Seq<char>,
    pub blob_sha: Seq<char>,
}

impl View for FileBlob {
    type V = FileBlobView;

    open spec fn view(&self) -> FileBlobView {
        FileBlobView { path: self.path@, content: self.content@, blob_sha: self.blob_sha@ }
    }
}

/// The characters of each string.
pub open spec fn texts(v: Seq<String>) -> Seq<Seq<char>> {
    v.map_values(|s: String| s@)
}

/// A copy of a list of strings.
pub fn copy_texts(v: &[String]) -> (r: Vec<String>)
    ensures
        texts(r@) == texts(v@),
        r@ == v@,
{
    let mut r: Vec<String> = Vec::new();
    let mut i: usize = 0;
    while i < v.len()
        invariant
            i <= v.len(),
            r@ == v@.take(i as int),
        decreases v.len() - i,
    {
        r.push(v[i].clone());
        assert(r@ =~= v@.take(i + 1));
        i = i + 1;
    }
    assert(r@ =~= v@);
    r
}

/// An inbound trigger (webhook). `target` carries the destination of a forge that
/// does not deliver by HTTPS.
#[derive(Debug)]
pub struct Trigger {
    pub id: String,
    pub url: String,
    pub events: Vec<String>,
    pub active: bool,
    pub target: String,
}

/// A trigger by its characters.
pub struct TriggerView {
    pub id: Seq<char>,
    pub url: Seq<char>,
    pub events: Seq<Seq<char>>,
    pub active: bool,
    pub target: Seq<char>,
}

impl View for Trigger {
    type V = TriggerView;

    open spec fn view(&self) -> TriggerView {
        TriggerView {
            id: self.id@,
            url: self.url@,
            events: texts(self.events@),
            active: self.active,
            target: self.target@,
        }
    }
}

impl Clone for Trigger {
    fn clone(&self) -> (r: Self)
        ensures
            r@ == self@,
    {
        Trigger {
            id: self.id.clone(),
            url: self.url.clone(),
            events: copy_texts(self.events.as_slice()),
            active: self.active,
            target: self.target.clone(),
        }
    }
}

/// The triggers of a list, by their characters.
pub open spec fn trigger_views(v: Seq<Trigger>) -> Seq<TriggerView> {
    v.map_values(|t: Trigger| t@)
}

/// The first trigger that delivers to `url`.
pub fn find_at(listed: &Vec<Trigger>, url: &str) -> (r: Option<usize>)
    ensures
        match r {
            Some(i) => i < listed@.len() && first_index(
                trigger_views(listed@),
                |t: TriggerView| t.url == url@,
            ) == Some(i as int),
            None => first_index(
                trigger_views(listed@),
                |t: TriggerView| t.url == url@,
            ) is None,
        },
{
    let ghost there = trigger_views(listed@);
    let ghost p = |t: TriggerView| t.url == url@;
    let mut i: usize = 0;
    while i < listed.len()
        invariant
            i <= listed.len(),
            there == trigger_views(listed@),
            p == |t: TriggerView| t.url == url@,
            forall|j: int| 0 <= j < i ==> !p(#[trigger] there[j]),
        decreases listed.len() - i,
    {
        assert(there[i as int] == listed@[i as int]@);
        if same(listed[i].url.as_str(), url) {
            proof {
                first_index_at(there, p, i as int);
            }
            return Some(i);
        }
        i = i + 1;
    }
    proof {
        first_index_none(there, p);
    }
    None
}

/// Which optional surfaces an adapter will serve.
#[derive(Debug, Clone, Copy, PartialEq, Eq, Structural)]
pub struct ForgeCapabilities {
    pub triggers: bool,
    pub issues: bool,
    pub checks: bool,
    pub comments: bool,
    pub deployments: bool,
    pub repos: bool,
    pub pull_requests: bool,
}

impl View for ForgeCapabilities {
    type V = ForgeCapabilities;

    open spec fn view(&self) -> ForgeCapabilities {
        *self
    }
}

impl ForgeCapabilities {
    /// Nothing optional.
    pub open spec fn nothing() -> ForgeCapabilities {
        ForgeCapabilities {
            triggers: false,
            issues: false,
            checks: false,
            comments: false,
            deployments: false,
            repos: false,
            pull_requests: false,
        }
    }

    /// Inbound triggers and nothing else.
    pub open spec fn triggers_only() -> ForgeCapabilities {
        ForgeCapabilities { triggers: true, ..ForgeCapabilities::nothing() }
    }

    pub fn none() -> (r: Self)
        ensures
            r == ForgeCapabilities::nothing(),
    {
        ForgeCapabilities {
            triggers: false,
            issues: false,
            checks: false,
            comments: false,
            deployments: false,
            repos: false,
            pull_requests: false,
        }
    }

    pub fn with_triggers() -> (r: Self)
        ensures
            r == ForgeCapabilities::triggers_only(),
    {
        ForgeCapabilities {
            triggers: true,
            issues: false,
            checks: false,
            comments: false,
            deployments: false,
            repos: false,
            pull_requests: false,
        }
    }
}

/// A repository found by discovery, in its encoded form: it is handed on, never read.
#[derive(Debug)]
pub struct Repository {
    pub encoded: Vec<u8>,
}

/// An issue found by discovery, in its encoded form.
#[derive(Debug)]
pub struct Issue {
    pub encoded: Vec<u8>,
}

/// A pull or merge request found by discovery, in its encoded form.
#[derive(Debug)]
pub struct PullRequest {
    pub encoded: Vec<u8>,
}

// ── messages in general ─────────────────────────────────────────────────────

/// A message: it can be absent from another message, it has a blank form, and two of
/// them are the same where their characters are.
pub trait Message: View + Sized {
    /// What an absent message reads as.
    spec fn blank() -> Self::V;

    fn empty() -> (r: Self)
        ensures
            r@ == Self::blank(),
    ;

    fn copy(&self) -> (r: Self)
        ensures
            r@ == self@,
    ;

    fn same(&self, other: &Self) -> (r: bool)
        ensures
            r == (self@ == other@),
    ;
}

/// What may be absent, by its characters.
pub open spec fn seen<T: View>(o: Option<T>) -> Option<T::V> {
    match o {
        Some(v) => Some(v@),
        None => None,
    }
}

pub fn copy_opt<T: Message>(o: &Option<T>) -> (r: Option<T>)
    ensures
        seen(r) == seen(*o),
{
    match o {
        Some(v) => Some(v.copy()),
        None => None,
    }
}

pub fn same_opt<T: Message>(a: &Option<T>, b: &Option<T>) -> (r: bool)
    ensures
        r == (seen(*a) == seen(*b)),
{
    match (a, b) {
        (Some(a), Some(b)) => a.same(b),
        (None, None) => true,
        _ => false,
    }
}

pub fn same_texts(a: &Vec<String>, b: &Vec<String>) -> (r: bool)
    ensures
        r == (texts(a@) == texts(b@)),
{
    if a.len() != b.len() {
        assert(texts(a@).len() != texts(b@).len());
        return false;
    }
    let mut i: usize = 0;
    while i < a.len()
        invariant
            i <= a.len(),
            a@.len() == b@.len(),
            forall|j: int| 0 <= j < i ==> (#[trigger] a@[j])@ == b@[j]@,
        decreases a.len() - i,
    {
        if !same(a[i].as_str(), b[i].as_str()) {
            assert(texts(a@)[i as int] != texts(b@)[i as int]);
            return false;
        }
        i = i + 1;
    }
    assert(texts(a@) =~= texts(b@));
    true
}

pub fn same_bytes(a: &Vec<u8>, b: &Vec<u8>) -> (r: bool)
    ensures
        r == (a@ == b@),
{
    if a.len() != b.len() {
        return false;
    }
    let mut i: usize = 0;
    while i < a.len()
        invariant
            i <= a.len(),
            a@.len() == b@.len(),
            forall|j: int| 0 <= j < i ==> a@[j] == b@[j],
        decreases a.len() - i,
    {
        if a[i] != b[i] {
            return false;
        }
        i = i + 1;
    }
    assert(a@ =~= b@);
    true
}

pub fn copy_bytes(v: &Vec<u8>) -> (r: Vec<u8>)
    ensures
        r@ == v@,
{
    let mut r: Vec<u8> = Vec::new();
    let mut i: usize = 0;
    while i < v.len()
        invariant
            i <= v.len(),
            r@ == v@.take(i as int),
        decreases v.len() - i,
    {
        r.push(v[i]);
        assert(r@ =~= v@.take(i + 1));
        i = i + 1;
    }
    assert(r@ =~= v@);
    r
}

impl Message for RepoRef {
    open spec fn blank() -> RepoRefView {
        RepoRefView { forge: 0, host: Seq::empty(), owner: Seq::empty(), name: Seq::empty() }
    }

    fn empty() -> (r: Self) {
        RepoRef {
            forge: 0,
            host: String::new(),
            owner: String::new(),
            name: String::new(),
        }
    }

    fn copy(&self) -> (r: Self) {
        self.clone()
    }

    fn same(&self, other: &Self) -> (r: bool) {
        self.forge == other.forge && self.host == other.host && self.owner == other.owner
            && self.name == other.name
    }
}

impl Message for ChangeRef {
    open spec fn blank() -> ChangeRefView {
        ChangeRefView { number: 0, url: Seq::empty(), branch: Seq::empty(), id: Seq::empty() }
    }

    fn empty() -> (r: Self) {
        ChangeRef { number: 0, url: String::new(), branch: String::new(), id: String::new() }
    }

    fn copy(&self) -> (r: Self) {
        self.clone()
    }

    fn same(&self, other: &Self) -> (r: bool) {
        self.number == other.number && self.url == other.url && self.branch == other.branch
            && self.id == other.id
    }
}

impl Message for Trigger {
    open spec fn blank() -> TriggerView {
        TriggerView {
            id: Seq::empty(),
            url: Seq::empty(),
            events: Seq::empty(),
            active: false,
            target: Seq::empty(),
        }
    }

    fn empty() -> (r: Self) {
        let r = Trigger {
            id: String::new(),
            url: String::new(),
            events: Vec::new(),
            active: false,
            target: String::new(),
        };
        assert(texts(r.events@) =~= Seq::<Seq<char>>::empty());
        r
    }

    fn copy(&self) -> (r: Self) {
        self.clone()
    }

    fn same(&self, other: &Self) -> (r: bool) {
        self.id == other.id && self.url == other.url && same_texts(&self.events, &other.events)
            && self.active == other.active && self.target == other.target
    }
}

} // verus!

//! Which forge to build, from a command line and an environment.

use crate::gateway::{AdapterPlan, AdapterPlanView};
use crate::messages::{seen, ForgeKind};
use crate::search::{first_index, first_index_at, first_index_none};
use crate::text::same;
use vstd::prelude::*;

verus! {

/// Parse a `--forge` value.
pub fn parse_forge_kind(s: &str) -> (r: Result<ForgeKind, String>)
    ensures
        s@ == "github"@ ==> r == Ok::<ForgeKind, String>(ForgeKind::Github),
        s@ == "gitlab"@ ==> r == Ok::<ForgeKind, String>(ForgeKind::Gitlab),
        s@ != "github"@ && s@ != "gitlab"@ ==> (r matches Err(message) && message@
            == "unknown forge "@ + s@ + " (use github|gitlab)"@),
{
    proof {
        reveal_strlit("github");
        reveal_strlit("gitlab");
        assert("github"@[3] != "gitlab"@[3]);
    }
    if same(s, "github") {
        Ok(ForgeKind::Github)
    } else if same(s, "gitlab") {
        Ok(ForgeKind::Gitlab)
    } else {
        Err("unknown forge ".to_owned().concat(s).concat(" (use github|gitlab)"))
    }
}

/// The effective host for `kind` (`host` empty: the forge default).
#[must_use]
pub fn effective_host(kind: ForgeKind, host: &str) -> (r: String)
    ensures
        r@ == if host@.len() > 0 {
            host@
        } else if kind == ForgeKind::Github {
            "github.com"@
        } else {
            "gitlab.com"@
        },
{
    if !host.is_empty() {
        host.to_owned()
    } else if kind == ForgeKind::Github {
        "github.com".to_owned()
    } else {
        "gitlab.com".to_owned()
    }
}

/// The environment variables that may hold the token, the first that counts first.
pub open spec fn token_names(kind: ForgeKind) -> Seq<Seq<char>> {
    match kind {
        ForgeKind::Gitlab => seq!["GITLAB_TOKEN"@, "FORGE_TOKEN"@],
        ForgeKind::Github => seq!["GITHUB_TOKEN"@, "FORGE_TOKEN"@],
        _ => seq!["FORGE_TOKEN"@],
    }
}

pub fn token_variables(kind: ForgeKind) -> (r: Vec<String>)
    ensures
        crate::messages::texts(r@) == token_names(kind),
{
    let mut r: Vec<String> = Vec::new();
    match kind {
        ForgeKind::Gitlab => {
            r.push("GITLAB_TOKEN".to_owned());
            r.push("FORGE_TOKEN".to_owned());
        },
        ForgeKind::Github => {
            r.push("GITHUB_TOKEN".to_owned());
            r.push("FORGE_TOKEN".to_owned());
        },
        _ => {
            r.push("FORGE_TOKEN".to_owned());
        },
    }
    assert(crate::messages::texts(r@) =~= token_names(kind));
    r
}

/// A variable that is set and not empty.
pub open spec fn usable(value: Option<Seq<char>>) -> bool {
    value is Some && value->0.len() > 0
}

/// The values of the variables.
pub open spec fn values_of(values: Seq<Option<String>>) -> Seq<Option<Seq<char>>> {
    values.map_values(|v: Option<String>| seen(v))
}

/// The API token for `kind`, from the values of its variables: the first that is not
/// empty.
pub fn token_for(kind: ForgeKind, values: &Vec<Option<String>>) -> (r: Result<String, String>)
    ensures
        match first_index(values_of(values@), |v: Option<Seq<char>>| usable(v)) {
            Some(i) => r matches Ok(token) && Some(token@) == values_of(values@)[i],
            None => r matches Err(message) && message@ == "no token in env — set "@
                + token_names(kind)[0] + " (or FORGE_TOKEN)"@,
        },
{
    let ghost all = values_of(values@);
    let ghost p = |v: Option<Seq<char>>| usable(v);
    let mut i: usize = 0;
    while i < values.len()
        invariant
            i <= values.len(),
            all == values_of(values@),
            p == |v: Option<Seq<char>>| usable(v),
            forall|j: int| 0 <= j < i ==> !p(#[trigger] all[j]),
        decreases values.len() - i,
    {
        assert(all[i as int] == seen(values@[i as int]));
        if let Some(token) = &values[i] {
            if !token.as_str().is_empty() {
                proof {
                    first_index_at(all, p, i as int);
                }
                return Ok(token.clone());
            }
        }
        i = i + 1;
    }
    proof {
        first_index_none(all, p);
    }
    let names = token_variables(kind);
    assert(names@.len() == token_names(kind).len()) by {
        assert(crate::messages::texts(names@).len() == names@.len());
    }
    assert(crate::messages::texts(names@)[0] == names@[0]@);
    Err(
        "no token in env — set ".to_owned().concat(names[0].as_str()).concat(
            " (or FORGE_TOKEN)",
        ),
    )
}

/// The adapter to build for `kind` on `host` with `token`.
pub fn build_forge(kind: ForgeKind, host: &str, token: &str) -> (r: Result<AdapterPlan, String>)
    ensures
        match kind {
            ForgeKind::Github => r matches Ok(plan) && plan@ == (AdapterPlanView::Github {
                token: token@,
            }),
            ForgeKind::Gitlab => r matches Ok(plan) && plan@ == (AdapterPlanView::Gitlab {
                host: host@,
                token: token@,
            }),
            _ => r matches Err(message) && message@ == "unsupported forge kind: "@ + kind.title(),
        },
{
    match kind {
        ForgeKind::Github => Ok(AdapterPlan::Github { token: token.to_owned() }),
        ForgeKind::Gitlab => Ok(
            AdapterPlan::Gitlab { host: host.to_owned(), token: token.to_owned() },
        ),
        _ => Err("unsupported forge kind: ".to_owned().concat(kind.name())),
    }
}

} // verus!

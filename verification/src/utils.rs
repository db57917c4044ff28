//! Addresses used to find the preview deployment of the platform.

use vstd::prelude::*;
use vstd::string::*;

verus! {

/// The root of the repository API that lists deployments.
pub const GIT_REPO_API_URL: &'static str = "https://api.github.com/repos";

/// The repository of the platform.
pub const TABNEWS_REPO: &'static str = "filipedeschamps/tabnews.com.br";

/// The query that asks for the latest preview deployment.
pub const QUERY: &'static str = "environment=preview&per_page=1";

/// The path under which a deployment serves the API.
pub const API_PATH: &'static str = "/api/v1";

/// The address of the deployment listing, as a text.
pub open spec fn deployments_url_text() -> Seq<char> {
    GIT_REPO_API_URL@ + "/"@ + TABNEWS_REPO@ + "/deployments?"@ + QUERY@
}

/// The address that lists the latest preview deployment of the platform.
pub fn deployments_url() -> (url: String)
    ensures
        url@ == deployments_url_text(),
{
    let mut url = GIT_REPO_API_URL.to_owned();
    url.append("/");
    url.append(TABNEWS_REPO);
    url.append("/deployments?");
    url.append(QUERY);
    url
}

/// The name that the lookup gives itself in its `User-Agent` header.
pub const USER_AGENT: &'static str = "Tabnews-RS";

/// Where the lookup of the preview deployment stands.
#[derive(Clone, Copy, Debug, PartialEq, Eq, Structural)]
pub enum PreviewState {
    /// Nothing was asked yet.
    Start,
    /// The deployments were asked for.
    Deployments,
    /// The statuses of the latest deployment were asked for.
    Statuses,
}

/// What the lookup does next.
#[derive(Debug)]
pub enum PreviewAction {
    /// Fetch this address and come back with the addresses that it lists.
    Fetch(PreviewState, String),
    /// The preview is served at this address.
    Found(String),
    /// The last listing was empty: there is no preview to be found.
    Missing,
}

/// One step of the lookup of the preview deployment.
///
/// `listed` holds, in the order of the last response, the status address of
/// each deployment or the target address of each status; at the start it
/// is not read. The lookup asks for the deployments, then for the statuses
/// of the first deployment, and ends with the target of the first status.
pub fn preview_step(state: PreviewState, listed: Vec<String>) -> (action: PreviewAction)
    ensures
        match state {
            PreviewState::Start => action matches PreviewAction::Fetch(next, url)
                && next == PreviewState::Deployments && url@ == deployments_url_text(),
            PreviewState::Deployments => if listed@.len() > 0 {
                action matches PreviewAction::Fetch(next, url) && next == PreviewState::Statuses
                    && url@ == listed@[0]@
            } else {
                action is Missing
            },
            PreviewState::Statuses => if listed@.len() > 0 {
                action matches PreviewAction::Found(url) && url@ == listed@[0]@
            } else {
                action is Missing
            },
        },
{
    match state {
        PreviewState::Start => PreviewAction::Fetch(PreviewState::Deployments, deployments_url()),
        PreviewState::Deployments => {
            if listed.len() > 0 {
                PreviewAction::Fetch(PreviewState::Statuses, listed[0].clone())
            } else {
                PreviewAction::Missing
            }
        },
        PreviewState::Statuses => {
            if listed.len() > 0 {
                PreviewAction::Found(listed[0].clone())
            } else {
                PreviewAction::Missing
            }
        },
    }
}

/// The API host of the deployment that is served at `preview_url`.
pub fn preview_host(preview_url: &str) -> (host: String)
    ensures
        host@ == preview_url@ + API_PATH@,
        host@.len() > 0,
{
    let mut host = preview_url.to_owned();
    host.append(API_PATH);
    proof {
        reveal_strlit("/api/v1");
    }
    host
}

} // verus!

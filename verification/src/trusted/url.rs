//! The calls into the address parser.
//!
//! Nothing in this file is proved. What the parser makes of an address
//! depends on the address alone, so each result has a name that contracts
//! can speak of.
//!
//! Where the scheme of an address holds `ssh`, the parser cuts the first
//! byte off the path it found, and fails to return where that path is empty
//! or begins with a longer character. So an address with such a scheme is
//! only handed over in the plain form `scheme://[user@]host/...`, for which
//! the parser always finds a path that begins with the `/` after the host.
use vstd::prelude::*;
use crate::pr_link::{host_view, pair_view, parser_takes};
use crate::text::text_view;

verus! {

/// What `git_url_parse::GitUrl::parse` makes of an address, read through
/// `GitUrl::host`: nothing where the address does not parse, else the host it
/// names, if it names one.
pub uninterp spec fn address_host(url: Seq<char>) -> Option<Option<Seq<char>>>;

/// What `GitUrl::provider_info` reads from a parsed address as a
/// `GenericProvider`: owner and repository, or nothing where the address does
/// not parse or has no such form.
pub uninterp spec fn generic_repository(url: Seq<char>) -> Option<(Seq<char>, Seq<char>)>;

/// What `GitUrl::provider_info` reads from a parsed address as a
/// `GitLabProvider`: owner and repository, or nothing.
pub uninterp spec fn gitlab_repository(url: Seq<char>) -> Option<(Seq<char>, Seq<char>)>;

/// What `GitUrl::provider_info` reads from a parsed address as an
/// `AzureDevOpsProvider`, joined by `fullname`: organisation, project and
/// repository, or nothing.
pub uninterp spec fn azure_repository(url: Seq<char>) -> Option<Seq<char>>;

/// `git_url_parse::GitUrl::parse`, then `GitUrl::host`.
#[verifier::external_body]
pub(crate) fn parse_host(url: &str) -> (r: Option<Option<String>>)
    requires
        parser_takes(url@),
    ensures
        host_view(r) == address_host(url@),
{
    git_url_parse::GitUrl::parse(url).ok().map(|u| u.host().map(|h| h.to_string()))
}

/// `git_url_parse::GitUrl::parse`, then `GitUrl::provider_info` for a `GenericProvider`.
#[verifier::external_body]
pub(crate) fn parse_generic(url: &str) -> (r: Option<(String, String)>)
    requires
        parser_takes(url@),
    ensures
        pair_view(r) == generic_repository(url@),
{
    let parsed = git_url_parse::GitUrl::parse(url).ok()?;
    let info: git_url_parse::types::provider::GenericProvider = parsed.provider_info().ok()?;
    Some((info.owner().clone(), info.repo().clone()))
}

/// `git_url_parse::GitUrl::parse`, then `GitUrl::provider_info` for a `GitLabProvider`.
#[verifier::external_body]
pub(crate) fn parse_gitlab(url: &str) -> (r: Option<(String, String)>)
    requires
        parser_takes(url@),
    ensures
        pair_view(r) == gitlab_repository(url@),
{
    let parsed = git_url_parse::GitUrl::parse(url).ok()?;
    let info: git_url_parse::types::provider::GitLabProvider = parsed.provider_info().ok()?;
    Some((info.owner().clone(), info.repo().clone()))
}

/// `git_url_parse::GitUrl::parse`, then `GitUrl::provider_info` for an
/// `AzureDevOpsProvider` and its `fullname`.
#[verifier::external_body]
pub(crate) fn parse_azure(url: &str) -> (r: Option<String>)
    requires
        parser_takes(url@),
    ensures
        text_view(r) == azure_repository(url@),
{
    let parsed = git_url_parse::GitUrl::parse(url).ok()?;
    let info: git_url_parse::types::provider::AzureDevOpsProvider = parsed.provider_info().ok()?;
    Some(info.fullname())
}

} // verus!

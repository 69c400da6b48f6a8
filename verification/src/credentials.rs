//! Choosing what to offer when the remote asks for credentials.
//!
//! One negotiator serves one fetch or push. It counts how often it was asked
//! and moves through the methods in a fixed order: the ssh agent first, then
//! the default key files, with the stored credential helper for remotes that
//! take a user name and password. After three answers it refuses for good, so
//! that a remote which keeps asking cannot hold the operation in a loop.
use vstd::prelude::*;
use crate::error::{EngineFailure, FailureKind};
use crate::text::text_view;
use crate::trusted::git::{
    cred_from_agent,
    cred_from_helper,
    cred_from_key,
    default_config,
    raise_failure,
};

verus! {

/// The number of the last attempt that is still answered; later ones are refused.
pub const LAST_ATTEMPT: u32 = 2;

/// The authentication methods the remote accepts.
#[derive(Debug, Clone, Copy, PartialEq, Eq, Structural)]
pub struct AllowedAuth {
    /// Authentication with an ssh key.
    pub ssh_key: bool,
    /// Authentication with a user name and a password or token.
    pub user_pass: bool,
}

/// What the negotiator does when it is asked.
#[derive(Debug, Clone, Copy, PartialEq, Eq, Structural)]
pub enum CredentialStep {
    /// Refuse: the agent and the default keys were tried.
    GiveUp,
    /// Offer a key held by the ssh agent.
    Agent,
    /// Look through the default key files.
    DefaultKeys,
    /// Ask the stored credential helper.
    Helper,
    /// Refuse: the remote accepts no method the negotiator has.
    NoMethod,
}

/// What is offered once the key files were looked through.
#[derive(Debug, Clone, Copy, PartialEq, Eq, Structural)]
pub enum CredentialChoice {
    /// Refuse: the agent and the default keys were tried.
    GiveUp,
    /// Offer a key held by the ssh agent.
    Agent,
    /// Offer the key file at this position of the key directory.
    KeyFile(usize),
    /// Ask the stored credential helper.
    Helper,
    /// Refuse: the remote accepts no method the negotiator has.
    NoMethod,
}

/// What is handed to the engine in answer to one request.
#[derive(Debug, PartialEq, Eq)]
pub enum CredentialOffer {
    /// A refusal, with its text.
    Refuse { text: String },
    /// A key of `user` held by the ssh agent.
    Agent { user: String },
    /// The private key of `user` in the file at `path`.
    KeyFile { user: String, path: String },
    /// What the stored credential helper has for the address.
    Helper,
}

/// An offer as plain mathematical values.
pub enum OfferView {
    Refuse { text: Seq<char> },
    Agent { user: Seq<char> },
    KeyFile { user: Seq<char>, path: Seq<char> },
    Helper,
}

impl View for CredentialOffer {
    type V = OfferView;

    open spec fn view(&self) -> OfferView {
        match self {
            CredentialOffer::Refuse { text } => OfferView::Refuse { text: text@ },
            CredentialOffer::Agent { user } => OfferView::Agent { user: user@ },
            CredentialOffer::KeyFile { user, path } => OfferView::KeyFile {
                user: user@,
                path: path@,
            },
            CredentialOffer::Helper => OfferView::Helper,
        }
    }
}

/// Whether a host is taken for the one it claims to be.
#[derive(Debug, Clone, Copy, PartialEq, Eq, Structural)]
pub enum HostVerdict {
    /// The host is accepted.
    Trusted,
    /// The decision is left to the engine's own checks.
    Deferred,
}

/// One of the default key files, and whether it is there.
#[derive(Debug, PartialEq, Eq)]
pub struct KeyCandidate {
    /// The full path of the key file.
    pub path: String,
    /// Whether a file exists at the path.
    pub present: bool,
}

/// The default key files in the order in which they are tried.
#[derive(Debug, PartialEq, Eq)]
pub struct KeyDirectory {
    pub candidates: Vec<KeyCandidate>,
}

/// The state that answers the credential requests of one transport
/// operation: the counter and the key files.
#[derive(Debug, PartialEq, Eq)]
pub struct Negotiation {
    /// The attempt counter.
    pub negotiator: CredentialNegotiator,
    /// The default key files and whether they are there.
    pub keys: KeyDirectory,
}

/// The attempt counter of one transport operation.
#[derive(Debug, PartialEq, Eq)]
pub struct CredentialNegotiator {
    /// How often credentials were asked for so far.
    pub attempts: u32,
}

/// The step taken at the given attempt, counted from zero.
pub open spec fn step_for(attempt: nat, allowed: AllowedAuth) -> CredentialStep {
    if attempt > LAST_ATTEMPT {
        CredentialStep::GiveUp
    } else if allowed.ssh_key {
        if attempt == 0 {
            CredentialStep::Agent
        } else {
            CredentialStep::DefaultKeys
        }
    } else if allowed.user_pass {
        CredentialStep::Helper
    } else {
        CredentialStep::NoMethod
    }
}

/// The counter after one more attempt. It stops at the largest value it can hold.
pub open spec fn counted(attempts: u32) -> u32 {
    if attempts < u32::MAX {
        (attempts + 1) as u32
    } else {
        attempts
    }
}

/// The position of the first key file at or after `from` that is present.
pub open spec fn first_present_from(present: Seq<bool>, from: int) -> Option<usize>
    decreases present.len() - from,
{
    if from < 0 || from >= present.len() {
        None
    } else if present[from] {
        Some(from as usize)
    } else {
        first_present_from(present, from + 1)
    }
}

/// The position of the first key file that is present.
pub open spec fn first_present_of(present: Seq<bool>) -> Option<usize> {
    first_present_from(present, 0)
}

/// The presence flags of a list of candidates.
pub open spec fn presence(candidates: Seq<KeyCandidate>) -> Seq<bool> {
    candidates.map_values(|c: KeyCandidate| c.present)
}

/// What is offered for a step, given which key file was found first.
/// Without a key file the negotiator falls back to the credential helper
/// where the remote takes a password, and has no method otherwise.
pub open spec fn choice_for(
    step: CredentialStep,
    found: Option<usize>,
    allowed: AllowedAuth,
) -> CredentialChoice {
    match step {
        CredentialStep::GiveUp => CredentialChoice::GiveUp,
        CredentialStep::Agent => CredentialChoice::Agent,
        CredentialStep::DefaultKeys => match found {
            Some(i) => CredentialChoice::KeyFile(i),
            None => if allowed.user_pass {
                CredentialChoice::Helper
            } else {
                CredentialChoice::NoMethod
            },
        },
        CredentialStep::Helper => CredentialChoice::Helper,
        CredentialStep::NoMethod => CredentialChoice::NoMethod,
    }
}

/// The user to authenticate as: the one the address names, else `git`.
pub open spec fn user_or_default(username: Option<Seq<char>>) -> Seq<char> {
    match username {
        Some(u) => u,
        None => "git"@,
    }
}

/// The text of the refusal after the attempts are used up.
pub open spec fn exhausted_text() -> Seq<char> {
    "Authentication failed: tried agent and default SSH keys."@
}

/// The text of the refusal when no method fits.
pub open spec fn no_method_text() -> Seq<char> {
    "No valid authentication methods found"@
}

/// The text with which a choice refuses, if it is a refusal.
pub open spec fn refusal_of(choice: CredentialChoice) -> Option<Seq<char>> {
    match choice {
        CredentialChoice::GiveUp => Some(exhausted_text()),
        CredentialChoice::NoMethod => Some(no_method_text()),
        _ => None,
    }
}

/// The paths of a list of candidates.
pub open spec fn key_paths(candidates: Seq<KeyCandidate>) -> Seq<Seq<char>> {
    candidates.map_values(|c: KeyCandidate| c.path@)
}

/// The user name the address carries, if it carries one.
pub open spec fn name_view(username: Option<&str>) -> Option<Seq<char>> {
    match username {
        Some(u) => Some(u@),
        None => None,
    }
}

/// What a choice hands to the engine: a refusal with its text, or the method
/// with the user and, for a key file, the path of the file chosen.
pub open spec fn offer_of(choice: CredentialChoice, paths: Seq<Seq<char>>, user: Seq<char>) -> OfferView {
    match choice {
        CredentialChoice::GiveUp => OfferView::Refuse { text: exhausted_text() },
        CredentialChoice::NoMethod => OfferView::Refuse { text: no_method_text() },
        CredentialChoice::Agent => OfferView::Agent { user },
        CredentialChoice::KeyFile(i) => OfferView::KeyFile { user, path: paths[i as int] },
        CredentialChoice::Helper => OfferView::Helper,
    }
}

/// The names of the default key files, in the order in which they are tried.
pub fn default_key_names() -> (names: Vec<String>)
    ensures
        names@.len() == 3,
        names@[0]@ == "id_ed25519"@,
        names@[1]@ == "id_rsa"@,
        names@[2]@ == "id_ecdsa"@,
{
    let mut names: Vec<String> = Vec::new();
    names.push(String::from_str("id_ed25519"));
    names.push(String::from_str("id_rsa"));
    names.push(String::from_str("id_ecdsa"));
    names
}

/// The user to authenticate as.
pub fn effective_user(username: Option<&str>) -> (user: String)
    ensures
        user@ == user_or_default(name_view(username)),
{
    match username {
        Some(u) => String::from_str(u),
        None => String::from_str("git"),
    }
}

/// Every host is accepted as the one it claims to be. Nothing is pinned, so
/// connections are open to impersonation of the remote.
pub fn verify_host(host: &str) -> (verdict: HostVerdict)
    ensures
        verdict == HostVerdict::Trusted,
{
    HostVerdict::Trusted
}

impl KeyDirectory {
    /// A directory in which no key file is known.
    pub fn empty() -> (keys: KeyDirectory)
        ensures
            keys.candidates@.len() == 0,
    {
        KeyDirectory { candidates: Vec::new() }
    }

    /// A copy of this directory.
    pub fn duplicate(&self) -> (keys: KeyDirectory)
        ensures
            keys.candidates@.len() == self.candidates@.len(),
            forall|i: int|
                0 <= i < self.candidates@.len() ==> (#[trigger] keys.candidates@[i]).path@
                    == self.candidates@[i].path@ && keys.candidates@[i].present
                    == self.candidates@[i].present,
    {
        let mut candidates: Vec<KeyCandidate> = Vec::new();
        let mut i: usize = 0;
        while i < self.candidates.len()
            invariant
                i <= self.candidates.len(),
                candidates@.len() == i,
                forall|k: int|
                    0 <= k < i ==> (#[trigger] candidates@[k]).path@ == self.candidates@[k].path@
                        && candidates@[k].present == self.candidates@[k].present,
            decreases self.candidates.len() - i,
        {
            let c = &self.candidates[i];
            candidates.push(KeyCandidate { path: c.path.clone(), present: c.present });
            i += 1;
        }
        KeyDirectory { candidates }
    }

    /// The position of the first key file that is present, if any is.
    pub fn first_present(&self) -> (found: Option<usize>)
        ensures
            found == first_present_of(presence(self.candidates@)),
            found matches Some(i) ==> i < self.candidates@.len() && self.candidates@[i as int].present,
    {
        let mut i: usize = 0;
        while i < self.candidates.len()
            invariant
                i <= self.candidates.len(),
                first_present_of(presence(self.candidates@)) == first_present_from(
                    presence(self.candidates@),
                    i as int,
                ),
            decreases self.candidates.len() - i,
        {
            if self.candidates[i].present {
                return Some(i);
            }
            i += 1;
        }
        None
    }
}

impl CredentialNegotiator {
    /// A negotiator that has not been asked yet.
    pub fn new() -> (n: CredentialNegotiator)
        ensures
            n.attempts == 0,
    {
        CredentialNegotiator { attempts: 0 }
    }

    /// Counts one more attempt and says what to do for it.
    ///
    /// The step is the one of the attempts made before this one. Once the
    /// answer is to give up, it stays so on every later call.
    pub fn next_step(&mut self, allowed: AllowedAuth) -> (step: CredentialStep)
        ensures
            step == step_for(old(self).attempts as nat, allowed),
            final(self).attempts == counted(old(self).attempts),
            step == CredentialStep::GiveUp <==> old(self).attempts > LAST_ATTEMPT,
    {
        let attempt = self.attempts;
        if attempt < u32::MAX {
            self.attempts = attempt + 1;
        }
        if attempt > LAST_ATTEMPT {
            CredentialStep::GiveUp
        } else if allowed.ssh_key {
            if attempt == 0 {
                CredentialStep::Agent
            } else {
                CredentialStep::DefaultKeys
            }
        } else if allowed.user_pass {
            CredentialStep::Helper
        } else {
            CredentialStep::NoMethod
        }
    }
}

/// Settles a step into what is offered: [`choice_for`] with the first key
/// file that is present.
pub fn settle(step: CredentialStep, keys: &KeyDirectory, allowed: AllowedAuth) -> (choice:
    CredentialChoice)
    ensures
        choice == choice_for(step, first_present_of(presence(keys.candidates@)), allowed),
        choice matches CredentialChoice::KeyFile(i) ==> i < keys.candidates@.len(),
{
    match step {
        CredentialStep::GiveUp => CredentialChoice::GiveUp,
        CredentialStep::Agent => CredentialChoice::Agent,
        CredentialStep::DefaultKeys => match keys.first_present() {
            Some(i) => CredentialChoice::KeyFile(i),
            None => if allowed.user_pass {
                CredentialChoice::Helper
            } else {
                CredentialChoice::NoMethod
            },
        },
        CredentialStep::Helper => CredentialChoice::Helper,
        CredentialStep::NoMethod => CredentialChoice::NoMethod,
    }
}

/// The text with which a choice refuses, if it is a refusal.
pub fn refusal_text(choice: CredentialChoice) -> (text: Option<String>)
    ensures
        text_view(text) == refusal_of(choice),
{
    match choice {
        CredentialChoice::GiveUp => Some(
            String::from_str("Authentication failed: tried agent and default SSH keys."),
        ),
        CredentialChoice::NoMethod => Some(String::from_str("No valid authentication methods found")),
        _ => None,
    }
}

/// Plans what is handed to the engine for a step: the step is settled by
/// [`settle`], and the offer is the one of [`offer_of`] for the choice, the
/// key files and the user to authenticate as.
pub fn plan_offer(
    step: CredentialStep,
    keys: &KeyDirectory,
    username: Option<&str>,
    allowed: AllowedAuth,
) -> (offer: CredentialOffer)
    ensures
        offer@ == offer_of(
            choice_for(step, first_present_of(presence(keys.candidates@)), allowed),
            key_paths(keys.candidates@),
            user_or_default(name_view(username)),
        ),
{
    let choice = settle(step, keys, allowed);
    match refusal_text(choice) {
        Some(text) => CredentialOffer::Refuse { text },
        None => match choice {
            CredentialChoice::KeyFile(i) => CredentialOffer::KeyFile {
                user: effective_user(username),
                path: keys.candidates[i].path.clone(),
            },
            CredentialChoice::Helper => CredentialOffer::Helper,
            _ => CredentialOffer::Agent { user: effective_user(username) },
        },
    }
}

/// Counts one more request and plans what is handed to the engine for it:
/// the offer of [`offer_of`] for the step of the attempts made before.
///
/// From the fourth request on the offer is the refusal that says that agent
/// and default keys were tried, whatever the remote accepts.
pub fn answer(
    negotiator: &mut CredentialNegotiator,
    keys: &KeyDirectory,
    username: Option<&str>,
    allowed: AllowedAuth,
) -> (offer: CredentialOffer)
    ensures
        final(negotiator).attempts == counted(old(negotiator).attempts),
        offer@ == offer_of(
            choice_for(
                step_for(old(negotiator).attempts as nat, allowed),
                first_present_of(presence(keys.candidates@)),
                allowed,
            ),
            key_paths(keys.candidates@),
            user_or_default(name_view(username)),
        ),
        old(negotiator).attempts > LAST_ATTEMPT ==> offer@ == (OfferView::Refuse {
            text: exhausted_text(),
        }),
{
    let step = negotiator.next_step(allowed);
    plan_offer(step, keys, username, allowed)
}

/// The failure that a refusal is handed back as: one of the authentication
/// kind, with the refusal's text.
pub fn refusal_failure(text: String) -> (failure: EngineFailure)
    ensures
        failure.kind == FailureKind::Auth,
        failure.message == text,
{
    EngineFailure { kind: FailureKind::Auth, message: text }
}

/// Answers one request for credentials.
///
/// The request is counted and the offer planned by [`answer`]. A refusal is
/// handed back as the failure that [`refusal_failure`] makes of it; for any other offer the
/// engine is asked to make the credential, and whether it can is its own
/// affair. So a refusal is owed when the attempts are used up or no method
/// fits.
pub fn negotiate(
    negotiator: &mut CredentialNegotiator,
    keys: &KeyDirectory,
    url: &str,
    username: Option<&str>,
    allowed: AllowedAuth,
) -> (r: Result<git2::Cred, git2::Error>)
    ensures
        final(negotiator).attempts == counted(old(negotiator).attempts),
        old(negotiator).attempts > LAST_ATTEMPT ==> r is Err,
        !allowed.ssh_key && !allowed.user_pass ==> r is Err,
{
    match answer(negotiator, keys, username, allowed) {
        CredentialOffer::Refuse { text } => Err(raise_failure(&refusal_failure(text))),
        CredentialOffer::Agent { user } => cred_from_agent(user.as_str()),
        CredentialOffer::KeyFile { user, path } => cred_from_key(user.as_str(), path.as_str()),
        CredentialOffer::Helper => match default_config() {
            Ok(config) => cred_from_helper(&config, url, username),
            Err(e) => Err(e),
        },
    }
}

/// What answers the requests of one fetch or push: a negotiator that has
/// not been asked yet, with the key files it may offer. Credentials come
/// from it by [`negotiate`], and hosts are judged by [`verify_host`].
pub fn create_callbacks(keys: KeyDirectory) -> (negotiation: Negotiation)
    ensures
        negotiation.negotiator.attempts == 0,
        negotiation.keys == keys,
{
    Negotiation { negotiator: CredentialNegotiator::new(), keys }
}

/// However often a negotiator is asked, from the fourth time on it refuses.
pub proof fn lemma_gives_up_for_good(attempts: u32, allowed: AllowedAuth)
    requires
        attempts > LAST_ATTEMPT,
    ensures
        step_for(attempts as nat, allowed) == CredentialStep::GiveUp,
        counted(attempts) > LAST_ATTEMPT,
{
}

/// The counter never goes back.
pub proof fn lemma_counter_monotone(attempts: u32)
    ensures
        counted(attempts) >= attempts,
        attempts < u32::MAX ==> counted(attempts) == attempts + 1,
{
}

} // verus!

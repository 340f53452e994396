use vstd::prelude::*;

use crate::config::AzureClientSecretCredentials;
use crate::service::OutboundRequest;

verus! {

/// The resource that every token is requested for.
pub fn token_resource() -> (r: &'static str)
    ensures
        r@ == "https://monitor.azure.com/"@,
{
    "https://monitor.azure.com/"
}

/// Seconds between two scheduled token refreshes; the first refresh comes
/// one full period after the initial fetch.
pub const REFRESH_PERIOD_SECS: u64 = 3600;

/// How tokens are acquired, fixed when the authenticator is built.
#[derive(Clone, Debug)]
pub enum CredentialSource {
    /// Exchange a tenant, client and secret of an App Registration.
    ServicePrincipalSecret { tenant_id: String, client_id: String, client_secret: String },
    /// Discover credentials from the runtime environment.
    AmbientIdentity,
}

/// The source that the configured credentials select: the service
/// principal with their values when present, the ambient identity otherwise.
pub open spec fn source_selected_by(
    source: CredentialSource,
    client_credentials: Option<AzureClientSecretCredentials>,
) -> bool {
    match client_credentials {
        Some(c) => source matches CredentialSource::ServicePrincipalSecret {
            tenant_id,
            client_id,
            client_secret,
        } && tenant_id@ == c.tenant_id@ && client_id@ == c.client_id@ && client_secret@
            == c.client_secret@,
        None => source is AmbientIdentity,
    }
}

impl CredentialSource {
    /// Explicit credentials select the service principal; their absence
    /// selects the ambient identity.
    pub fn from_credentials(client_credentials: Option<&AzureClientSecretCredentials>) -> (r:
        CredentialSource)
        ensures
            source_selected_by(
                r,
                match client_credentials {
                    Some(c) => Some(*c),
                    None => None,
                },
            ),
    {
        match client_credentials {
            Some(c) => CredentialSource::ServicePrincipalSecret {
                tenant_id: c.tenant_id.clone(),
                client_id: c.client_id.clone(),
                client_secret: c.client_secret.clone(),
            },
            None => CredentialSource::AmbientIdentity,
        }
    }
}

/// Why no token could be had.
#[derive(Clone, Debug, PartialEq, Eq)]
pub enum AuthFetchError {
    /// The identity provider rejected the request or could not be reached.
    Provider { message: String },
    /// The provider answered with a token that cannot be sent as a header.
    MalformedToken,
}

/// A character that a header value may hold: visible ASCII, a space, a
/// tab, or anything outside ASCII.
pub open spec fn is_header_char(c: char) -> bool {
    c == '\t' || (c as u32 >= 32 && c as u32 != 127)
}

/// A string that a header value may hold.
pub open spec fn is_header_text(s: Seq<char>) -> bool {
    forall|i: int| 0 <= i < s.len() ==> is_header_char(#[trigger] s[i])
}

/// A token that can be stored: not empty, and fit for a header.
pub open spec fn is_acceptable_token(t: Seq<char>) -> bool {
    t.len() > 0 && is_header_text(t)
}

/// The value of the Authorization header for a token.
pub open spec fn bearer_value(token: Seq<char>) -> Seq<char> {
    "Bearer "@ + token
}

/// Relies on `http::HeaderValue::from_str`, which accepts a string exactly
/// when each of its bytes is a tab or at least 32 and not 127.
#[verifier::external_body]
fn is_valid_header_value(s: &str) -> (r: bool)
    ensures
        r == is_header_text(s@),
{
    http::HeaderValue::from_str(s).is_ok()
}

/// The outcome of a token fetch, with a token that cannot be sent as a
/// header turned into an error.
pub open spec fn checked_fetch(fetched: Result<String, AuthFetchError>) -> Result<
    Seq<char>,
    AuthFetchError,
> {
    match fetched {
        Ok(t) => if is_acceptable_token(t@) {
            Ok(t@)
        } else {
            Err(AuthFetchError::MalformedToken)
        },
        Err(e) => Err(e),
    }
}

/// Checks a fetched token: it must be non-empty and fit for a header.
pub fn check_fetched_token(fetched: Result<String, AuthFetchError>) -> (r: Result<
    String,
    AuthFetchError,
>)
    ensures
        match (r, checked_fetch(fetched)) {
            (Ok(t), Ok(u)) => t@ == u,
            (Err(e), Err(f)) => e == f,
            _ => false,
        },
{
    match fetched {
        Ok(t) => {
            if t.as_str().is_empty() {
                Err(AuthFetchError::MalformedToken)
            } else if is_valid_header_value(t.as_str()) {
                Ok(t)
            } else {
                Err(AuthFetchError::MalformedToken)
            }
        },
        Err(e) => Err(e),
    }
}

/// Holder of the current bearer token; the token is replaced whole, never
/// edited in place.
#[derive(Clone, Debug)]
pub struct TokenStore {
    token: String,
}

impl View for TokenStore {
    type V = Seq<char>;

    closed spec fn view(&self) -> Seq<char> {
        self.token@
    }
}

impl TokenStore {
    /// The stored token is always one that can be sent.
    pub open spec fn wf(&self) -> bool {
        is_acceptable_token(self@)
    }

    /// A store holding the given token.
    pub fn new(token: String) -> (r: TokenStore)
        requires
            is_acceptable_token(token@),
        ensures
            r.wf(),
            r@ == token@,
    {
        TokenStore { token }
    }

    /// A copy of the current token.
    pub fn get(&self) -> (r: String)
        requires
            self.wf(),
        ensures
            r@ == self@,
            is_acceptable_token(r@),
    {
        self.token.clone()
    }

    /// Swaps in a new token.
    pub fn replace(&mut self, token: String)
        requires
            is_acceptable_token(token@),
        ensures
            final(self).wf(),
            final(self)@ == token@,
    {
        self.token = token;
    }
}

/// What a scheduled refresh did.
#[derive(Clone, Debug, PartialEq, Eq)]
pub enum RefreshOutcome {
    /// The new token is in place; observers are to be told.
    Refreshed,
    /// The fetch failed; the previous token stays.
    Failed(AuthFetchError),
}

/// The token held after a scheduled refresh whose fetch had this outcome.
pub open spec fn token_after_refresh(current: Seq<char>, fetched: Result<String, AuthFetchError>) -> Seq<char> {
    match checked_fetch(fetched) {
        Ok(t) => t,
        Err(_) => current,
    }
}

/// What a scheduled refresh whose fetch had this outcome reports.
pub open spec fn refresh_outcome(fetched: Result<String, AuthFetchError>) -> RefreshOutcome {
    match checked_fetch(fetched) {
        Ok(_) => RefreshOutcome::Refreshed,
        Err(e) => RefreshOutcome::Failed(e),
    }
}

/// After a refresh that fetched a good token, the store holds exactly that
/// token, and every later read returns it until the next refresh.
pub proof fn lemma_refresh_installs_token(current: Seq<char>, fetched: Result<String, AuthFetchError>)
    requires
        fetched matches Ok(t) && is_acceptable_token(t@),
    ensures
        fetched matches Ok(t) && token_after_refresh(current, fetched) == t@,
        refresh_outcome(fetched) is Refreshed,
{
}

/// A refresh whose fetch failed leaves the previous token in place.
pub proof fn lemma_failed_refresh_keeps_token(current: Seq<char>, fetched: Result<String, AuthFetchError>)
    requires
        fetched is Err,
    ensures
        token_after_refresh(current, fetched) == current,
        refresh_outcome(fetched) is Failed,
{
}

/// Whatever a refresh fetched, the store holds either the previous token
/// or the fetched one whole, and never an empty or unsendable one.
pub proof fn lemma_refresh_never_tears(current: Seq<char>, fetched: Result<String, AuthFetchError>)
    requires
        is_acceptable_token(current),
    ensures
        is_acceptable_token(token_after_refresh(current, fetched)),
        token_after_refresh(current, fetched) == current || (fetched matches Ok(t)
            && token_after_refresh(current, fetched) == t@),
{
}

/// A failed initial fetch fails construction with the fetch's own error, so
/// no authenticator exists for a refresher to run with.
pub proof fn lemma_startup_fails_fast(first_fetch: Result<String, AuthFetchError>)
    requires
        first_fetch is Err,
    ensures
        first_fetch matches Err(e) && checked_fetch(first_fetch) == Err::<Seq<char>, AuthFetchError>(e),
{
}

/// The credential source and the token fetched with it.
#[derive(Clone, Debug)]
pub struct AzureAuthenticator {
    credential: CredentialSource,
    token: TokenStore,
}

impl AzureAuthenticator {
    /// The held token can be sent.
    pub open spec fn wf(&self) -> bool {
        is_acceptable_token(self.token())
    }

    /// The current token.
    pub closed spec fn token(&self) -> Seq<char> {
        self.token@
    }

    /// The credential source, fixed at construction.
    pub closed spec fn source(&self) -> CredentialSource {
        self.credential
    }

    /// Builds the authenticator from the outcome of the initial fetch: a
    /// failed or malformed fetch fails construction.
    pub fn new(credential: CredentialSource, first_fetch: Result<String, AuthFetchError>) -> (r:
        Result<AzureAuthenticator, AuthFetchError>)
        ensures
            match (r, checked_fetch(first_fetch)) {
                (Ok(a), Ok(t)) => a.wf() && a.token() == t && a.source() == credential,
                (Err(e), Err(f)) => e == f,
                _ => false,
            },
    {
        match check_fetched_token(first_fetch) {
            Ok(t) => Ok(AzureAuthenticator { credential, token: TokenStore::new(t) }),
            Err(e) => Err(e),
        }
    }

    /// The credential source.
    pub fn credential(&self) -> (r: &CredentialSource)
        ensures
            *r == self.source(),
    {
        &self.credential
    }

    /// A copy of the current token.
    pub fn get_token(&self) -> (r: String)
        requires
            self.wf(),
        ensures
            r@ == self.token(),
            is_acceptable_token(r@),
    {
        self.token.get()
    }

    /// Applies the outcome of a scheduled fetch: a good token replaces the
    /// current one, a failure leaves it as it was.
    pub fn regenerate_token(&mut self, fetched: Result<String, AuthFetchError>) -> (r:
        RefreshOutcome)
        requires
            old(self).wf(),
        ensures
            final(self).wf(),
            final(self).source() == old(self).source(),
            final(self).token() == token_after_refresh(old(self).token(), fetched),
            r == refresh_outcome(fetched),
    {
        match check_fetched_token(fetched) {
            Ok(t) => {
                self.token.replace(t);
                RefreshOutcome::Refreshed
            },
            Err(e) => RefreshOutcome::Failed(e),
        }
    }

    /// Sets the Authorization header of a request to the current token.
    pub fn apply(&self, request: &mut OutboundRequest)
        requires
            self.wf(),
        ensures
            final(request).authorization matches Some(a) && a@ == bearer_value(self.token()),
            is_header_text(bearer_value(self.token())),
            final(request).uri@ == old(request).uri@,
            final(request).content_type@ == old(request).content_type@,
            final(request).content_length@ == old(request).content_length@,
            final(request).body@ == old(request).body@,
    {
        let token = self.token.get();
        let mut value = "Bearer ".to_owned();
        value.append(token.as_str());
        proof {
            reveal_strlit("Bearer ");
            assert forall|i: int| 0 <= i < value@.len() implies is_header_char(
                #[trigger] value@[i],
            ) by {
                if i >= 7 {
                    assert(value@[i] == token@[i - 7]);
                }
            }
        }
        request.authorization = Some(value);
    }
}

} // verus!

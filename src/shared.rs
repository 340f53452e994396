use vstd::prelude::*;
use vstd::rwlock::{RwLock, RwLockPredicate};

use crate::auth::{
    bearer_value, is_acceptable_token, refresh_outcome, AuthFetchError, AzureAuthenticator,
    RefreshOutcome,
};
use crate::service::{
    AzureMonitorLogsDceRequest, AzureMonitorLogsDceService, OutboundRequest, RequestMetadata,
};

verus! {

/// What every authenticator behind the lock satisfies: its token can be
/// sent.
pub struct HoldsSendableToken;

impl RwLockPredicate<AzureAuthenticator> for HoldsSendableToken {
    open spec fn inv(self, v: AzureAuthenticator) -> bool {
        v.wf()
    }
}

/// An authenticator shared between the delivery calls and the refresh
/// task. Reads hold the lock only to copy the token, the refresh only to
/// swap it, so no reader ever sees a token that is partly written, empty,
/// or unfit for a header.
pub struct SharedAuthenticator {
    lock: RwLock<AzureAuthenticator, HoldsSendableToken>,
}

impl SharedAuthenticator {
    /// Puts an authenticator behind the lock.
    pub fn new(authenticator: AzureAuthenticator) -> (r: SharedAuthenticator)
        requires
            authenticator.wf(),
    {
        SharedAuthenticator { lock: RwLock::new(authenticator, Ghost(HoldsSendableToken)) }
    }

    /// A copy of the current token.
    pub fn get_token(&self) -> (r: String)
        ensures
            is_acceptable_token(r@),
    {
        let handle = self.lock.acquire_read();
        let token = handle.borrow().get_token();
        handle.release_read();
        token
    }

    /// Applies the outcome of a scheduled fetch under the write lock: a
    /// good token replaces the current one, a failure leaves it in place.
    pub fn regenerate_token(&self, fetched: Result<String, AuthFetchError>) -> (r: RefreshOutcome)
        ensures
            r == refresh_outcome(fetched),
    {
        let (mut authenticator, handle) = self.lock.acquire_write();
        let outcome = authenticator.regenerate_token(fetched);
        handle.release_write(authenticator);
        outcome
    }

    /// Builds the HTTP call for a batch with the token current at the time
    /// of the call.
    pub fn prepare_call(
        &self,
        service: &AzureMonitorLogsDceService,
        request: AzureMonitorLogsDceRequest,
    ) -> (r: (OutboundRequest, RequestMetadata))
        ensures
            r.0.uri@ == service.uri_view(),
            r.0.content_type@ == "application/json"@,
            r.0.body@ == request.body@,
            r.1 == request.metadata,
            exists|t: Seq<char>|
                is_acceptable_token(t) && (r.0.authorization matches Some(a) && a@
                    == bearer_value(t)),
    {
        let handle = self.lock.acquire_read();
        let authenticator = handle.borrow();
        let r = service.call(request, authenticator);
        proof {
            let t = authenticator.token();
            assert(is_acceptable_token(t));
        }
        handle.release_read();
        r
    }
}

} // verus!

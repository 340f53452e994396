use vstd::prelude::*;

use crate::auth::{checked_fetch, source_selected_by, AuthFetchError, AzureAuthenticator, CredentialSource};
use crate::service::AzureMonitorLogsDceService;

verus! {

/// Authentication credentials using a client secret that was generated for
/// an App Registration.
#[derive(Clone, Debug)]
pub struct AzureClientSecretCredentials {
    pub tenant_id: String,
    pub client_id: String,
    pub client_secret: String,
}

/// Default batch limits of the Logs Ingestion API, which caps a call at
/// one megabyte.
#[derive(Clone, Copy, Debug, Default)]
pub struct LogsIngestionDefaultBatchSettings;

impl LogsIngestionDefaultBatchSettings {
    /// No cap on the number of events in a batch.
    pub fn max_events() -> (r: Option<usize>)
        ensures
            r is None,
    {
        None
    }

    /// At most one million bytes in a batch.
    pub fn max_bytes() -> (r: Option<usize>)
        ensures
            r == Some(1_000_000usize),
    {
        Some(1_000_000)
    }

    /// A batch is sent at the latest ten seconds after it was opened.
    pub fn timeout_secs() -> (r: u64)
        ensures
            r == 10,
    {
        10
    }
}

/// The ingestion URI of a stream of a Data Collection Rule.
pub open spec fn endpoint_uri(
    endpoint_host: Seq<char>,
    immutable_id: Seq<char>,
    stream_name: Seq<char>,
) -> Seq<char> {
    "https://"@ + endpoint_host + "/dataCollectionRules/"@ + immutable_id + "/streams/"@
        + stream_name + "?api-version=2021-11-01-preview"@
}

/// Where the delivery path sends and how it authenticates.
#[derive(Clone, Debug)]
pub struct AzureMonitorLogsDceConfig {
    /// Immutable ID of the Data Collection Rule
    pub immutable_id: String,
    /// Stream name inside the Data Collection Rule
    pub stream_name: String,
    /// Logs ingestion endpoint
    pub endpoint_host: String,
    /// Explicit service-principal credentials; without them the ambient
    /// identity of the environment is used.
    pub client_credentials: Option<AzureClientSecretCredentials>,
}

impl Default for AzureMonitorLogsDceConfig {
    fn default() -> (r: Self)
        ensures
            r.immutable_id@ == "dcr-00000000000000000000000000000000"@,
            r.stream_name@ == "Custom-CustomTableRawData"@,
            r.endpoint_host@ == "sample.westeurope.ingest.monitor.azure.com"@,
            r.client_credentials is None,
    {
        AzureMonitorLogsDceConfig {
            immutable_id: "dcr-00000000000000000000000000000000".to_owned(),
            stream_name: "Custom-CustomTableRawData".to_owned(),
            endpoint_host: "sample.westeurope.ingest.monitor.azure.com".to_owned(),
            client_credentials: None,
        }
    }
}

impl AzureMonitorLogsDceConfig {
    /// The URI that every batch is posted to.
    pub fn create_endpoint(&self) -> (r: String)
        ensures
            r@ == endpoint_uri(self.endpoint_host@, self.immutable_id@, self.stream_name@),
    {
        let mut uri = "https://".to_owned();
        uri.append(self.endpoint_host.as_str());
        uri.append("/dataCollectionRules/");
        uri.append(self.immutable_id.as_str());
        uri.append("/streams/");
        uri.append(self.stream_name.as_str());
        uri.append("?api-version=2021-11-01-preview");
        uri
    }

    /// The credential source that the config selects.
    pub fn credential_source(&self) -> (r: CredentialSource)
        ensures
            source_selected_by(r, self.client_credentials),
    {
        CredentialSource::from_credentials(self.client_credentials.as_ref())
    }

    /// Builds the delivery path from the outcome of the initial token fetch:
    /// the authenticator holding that token and the service posting to the
    /// configured stream. A failed or malformed fetch fails the build.
    pub fn build(&self, first_fetch: Result<String, AuthFetchError>) -> (r: Result<
        (AzureAuthenticator, AzureMonitorLogsDceService),
        AuthFetchError,
    >)
        ensures
            match (r, checked_fetch(first_fetch)) {
                (Ok((a, s)), Ok(t)) => a.wf() && a.token() == t && source_selected_by(
                    a.source(),
                    self.client_credentials,
                ) && s.uri_view() == endpoint_uri(
                    self.endpoint_host@,
                    self.immutable_id@,
                    self.stream_name@,
                ),
                (Err(e), Err(f)) => e == f,
                _ => false,
            },
    {
        let authenticator = AzureAuthenticator::new(self.credential_source(), first_fetch)?;
        let service = AzureMonitorLogsDceService::new(self.create_endpoint());
        Ok((authenticator, service))
    }
}

} // verus!

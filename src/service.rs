use vstd::prelude::*;

use crate::auth::{bearer_value, AzureAuthenticator};
use crate::status::{decimal_of, decimal_string, is_server_error_code, is_success_code};

verus! {

/// Event count and estimated encoded byte size of a batch.
#[derive(Clone, Copy, Debug, PartialEq, Eq, Structural)]
pub struct GroupedCountByteSize {
    pub count: usize,
    pub byte_size: usize,
}

/// Size accounting of a request, produced together with its payload.
#[derive(Clone, Copy, Debug, PartialEq, Eq, Structural)]
pub struct RequestMetadata {
    pub event_count: usize,
    pub events_estimated_json_encoded_byte_size: usize,
    pub request_encoded_size: usize,
}

impl RequestMetadata {
    /// Size of the encoded payload in bytes.
    pub fn request_encoded_size(&self) -> (r: usize)
        ensures
            r == self.request_encoded_size,
    {
        self.request_encoded_size
    }

    /// Consumes the metadata into the per-event byte-size accounting.
    pub fn into_events_estimated_json_encoded_byte_size(self) -> (r: GroupedCountByteSize)
        ensures
            r == (GroupedCountByteSize {
                count: self.event_count,
                byte_size: self.events_estimated_json_encoded_byte_size,
            }),
    {
        GroupedCountByteSize {
            count: self.event_count,
            byte_size: self.events_estimated_json_encoded_byte_size,
        }
    }
}

/// Acknowledgement handles of the events of a batch.
#[derive(Clone, Debug)]
pub struct EventFinalizers {
    pub batch_ids: Vec<u64>,
}

impl EventFinalizers {
    /// Finalizers that track nothing.
    pub fn empty() -> (r: EventFinalizers)
        ensures
            r.batch_ids@ == Seq::<u64>::empty(),
    {
        EventFinalizers { batch_ids: Vec::new() }
    }
}

/// One batch to deliver: its encoded body, its acknowledgement handles and
/// its size accounting.
#[derive(Clone, Debug)]
pub struct AzureMonitorLogsDceRequest {
    pub body: Vec<u8>,
    pub finalizers: EventFinalizers,
    pub metadata: RequestMetadata,
}

impl AzureMonitorLogsDceRequest {
    /// Takes the finalizers out of the request, leaving empty ones behind.
    pub fn take_finalizers(&mut self) -> (r: EventFinalizers)
        ensures
            r.batch_ids@ == old(self).finalizers.batch_ids@,
            final(self).finalizers.batch_ids@ == Seq::<u64>::empty(),
            final(self).body@ == old(self).body@,
            final(self).metadata == old(self).metadata,
    {
        let mut taken = EventFinalizers::empty();
        core::mem::swap(&mut self.finalizers, &mut taken);
        taken
    }

    /// The size accounting of the request.
    pub fn get_metadata(&self) -> (r: &RequestMetadata)
        ensures
            *r == self.metadata,
    {
        &self.metadata
    }
}

/// Assembles delivery requests from the parts that batching and encoding
/// produce.
#[derive(Clone, Copy, Debug)]
pub struct AzureMonitorLogsDceRequestBuilder;

impl AzureMonitorLogsDceRequestBuilder {
    /// A request carrying the encoded payload as its body, with the batch's
    /// finalizers and accounting.
    pub fn build_request(
        &self,
        finalizers: EventFinalizers,
        metadata: RequestMetadata,
        payload: Vec<u8>,
    ) -> (r: AzureMonitorLogsDceRequest)
        ensures
            r.body@ == payload@,
            r.finalizers.batch_ids@ == finalizers.batch_ids@,
            r.metadata == metadata,
    {
        AzureMonitorLogsDceRequest { body: payload, finalizers, metadata }
    }
}

/// What the delivery of one batch means for its events.
#[derive(Clone, Copy, Debug, PartialEq, Eq, Structural)]
pub enum EventStatus {
    Delivered,
    Errored,
    Rejected,
}

/// The event status that a response status code stands for.
pub open spec fn event_status_of(code: u16) -> EventStatus {
    if is_success_code(code) {
        EventStatus::Delivered
    } else if is_server_error_code(code) {
        EventStatus::Errored
    } else {
        EventStatus::Rejected
    }
}

/// A successful delivery: the response status and the accounting of what
/// was sent.
#[derive(Clone, Copy, Debug, PartialEq, Eq, Structural)]
pub struct AzureMonitorLogsDceResponse {
    pub status: u16,
    pub events_byte_size: GroupedCountByteSize,
    pub raw_byte_size: usize,
}

impl AzureMonitorLogsDceResponse {
    /// Delivered for 2xx, errored for 5xx, rejected otherwise.
    pub fn event_status(&self) -> (r: EventStatus)
        ensures
            r == event_status_of(self.status),
    {
        if 200 <= self.status && self.status < 300 {
            EventStatus::Delivered
        } else if 500 <= self.status && self.status < 600 {
            EventStatus::Errored
        } else {
            EventStatus::Rejected
        }
    }

    /// The accounting of the events that were sent.
    pub fn events_sent(&self) -> (r: &GroupedCountByteSize)
        ensures
            *r == self.events_byte_size,
    {
        &self.events_byte_size
    }

    /// The number of payload bytes that were sent.
    pub fn bytes_sent(&self) -> (r: Option<usize>)
        ensures
            r == Some(self.raw_byte_size),
    {
        Some(self.raw_byte_size)
    }
}

/// Why a delivery failed.
#[derive(Clone, Debug, PartialEq, Eq)]
pub enum AzureMonitorLogsDceResponseError {
    /// The endpoint answered with a status outside 2xx.
    ServerError { code: u16 },
    /// The request could not be made; the transport's description of why.
    HttpError { error: String },
}

/// The HTTP call to make for one batch: a POST of the body to the URI with
/// these header values.
#[derive(Clone, Debug)]
pub struct OutboundRequest {
    pub uri: String,
    pub content_type: String,
    pub content_length: String,
    pub authorization: Option<String>,
    pub body: Vec<u8>,
}

/// Delivers batches to one ingestion URI.
#[derive(Clone, Debug)]
pub struct AzureMonitorLogsDceService {
    uri: String,
}

/// The outcome of a delivery, given the transport's answer: a status code,
/// or the description of why no answer came.
pub open spec fn delivery_outcome(metadata: RequestMetadata, answer: Result<u16, String>) -> Result<
    AzureMonitorLogsDceResponse,
    AzureMonitorLogsDceResponseError,
> {
    match answer {
        Ok(code) => if is_success_code(code) {
            Ok(
                AzureMonitorLogsDceResponse {
                    status: code,
                    raw_byte_size: metadata.request_encoded_size,
                    events_byte_size: GroupedCountByteSize {
                        count: metadata.event_count,
                        byte_size: metadata.events_estimated_json_encoded_byte_size,
                    },
                },
            )
        } else {
            Err(AzureMonitorLogsDceResponseError::ServerError { code })
        },
        Err(error) => Err(AzureMonitorLogsDceResponseError::HttpError { error }),
    }
}

impl AzureMonitorLogsDceService {
    /// A service posting to the given URI.
    pub fn new(uri: String) -> (r: AzureMonitorLogsDceService)
        ensures
            r.uri_view() == uri@,
    {
        AzureMonitorLogsDceService { uri }
    }

    pub closed spec fn uri_view(&self) -> Seq<char> {
        self.uri@
    }

    /// The URI that batches are posted to.
    pub fn uri(&self) -> (r: &String)
        ensures
            r@ == self.uri_view(),
    {
        &self.uri
    }

    /// Builds the HTTP call for a batch: the body unmodified, a JSON content
    /// type, its length, and the current token. The metadata is handed back
    /// for `complete`.
    pub fn call(&self, request: AzureMonitorLogsDceRequest, creds: &AzureAuthenticator) -> (r: (
        OutboundRequest,
        RequestMetadata,
    ))
        requires
            creds.wf(),
        ensures
            r.0.uri@ == self.uri_view(),
            r.0.content_type@ == "application/json"@,
            r.0.content_length@ == decimal_of(request.body@.len()),
            r.0.authorization matches Some(a) && a@ == bearer_value(creds.token()),
            r.0.body@ == request.body@,
            r.1 == request.metadata,
    {
        let content_length = decimal_string(request.body.len());
        let mut http_request = OutboundRequest {
            uri: self.uri.clone(),
            content_type: "application/json".to_owned(),
            content_length,
            authorization: None,
            body: request.body,
        };
        creds.apply(&mut http_request);
        (http_request, request.metadata)
    }

    /// Maps the transport's answer to the outcome of the delivery: 2xx is
    /// a response carrying the request's accounting, any other status a
    /// server error, no answer a transport error.
    pub fn complete(metadata: RequestMetadata, answer: Result<u16, String>) -> (r: Result<
        AzureMonitorLogsDceResponse,
        AzureMonitorLogsDceResponseError,
    >)
        ensures
            r == delivery_outcome(metadata, answer),
    {
        match answer {
            Ok(code) => {
                if 200 <= code && code < 300 {
                    Ok(
                        AzureMonitorLogsDceResponse {
                            status: code,
                            raw_byte_size: metadata.request_encoded_size(),
                            events_byte_size:
                                metadata.into_events_estimated_json_encoded_byte_size(),
                        },
                    )
                } else {
                    Err(AzureMonitorLogsDceResponseError::ServerError { code })
                }
            },
            Err(error) => Err(AzureMonitorLogsDceResponseError::HttpError { error }),
        }
    }
}

} // verus!

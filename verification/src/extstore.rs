//! The external-storage call envelope: the request/response vocabulary a
//! storage server and its clients exchange, the dispatcher that routes one
//! enveloped call to the right service method, and the in-process client
//! that talks to a service directly.
//!
//! Transport — sockets, marshaling, foreign runtimes — lives outside this
//! crate; here the envelope itself is plain data, so that building,
//! validating and routing it can be verified.

use vstd::prelude::*;

verus! {

/// Status code for a malformed request.
pub const STATUS_INVALID_ARGUMENT: u32 = 3;

/// Status code for an internal failure, such as a response of the wrong
/// shape.
pub const STATUS_INTERNAL: u32 = 13;

/// The status a service answers with when it fails: a code and an
/// optional human-readable detail.
#[derive(Debug)]
pub struct RpcStatus {
    pub code: u32,
    pub details: Option<String>,
}

/// What a client call can fail with: a serialization failure, or a status
/// answered by the remote side.
#[derive(Debug)]
pub enum RpcError {
    Codec,
    RpcFailure(RpcStatus),
}

/// A registered store, as reported to clients.
#[derive(Debug)]
pub struct Store {
    pub id: String,
    pub provider: String,
}

/// An open multi-part upload, as reported to clients.
#[derive(Debug)]
pub struct Uploader {
    pub id: String,
    pub filepath: String,
}

#[derive(Debug)]
pub struct ListStoreRequest {}

#[derive(Debug)]
pub struct ListStoreResponse {
    pub items: Vec<Store>,
}

#[derive(Debug)]
pub struct GetStoreRequest {
    pub store_id: String,
}

#[derive(Debug)]
pub struct GetStoreResponse {
    pub store: Store,
}

#[derive(Debug)]
pub struct WriteFileRequest {
    pub store_id: String,
    pub filepath: String,
    pub data: Vec<u8>,
}

#[derive(Debug)]
pub struct WriteFileResponse {}

#[derive(Debug)]
pub struct CreateUploaderRequest {
    pub store_id: String,
    pub filepath: String,
}

#[derive(Debug)]
pub struct CreateUploaderResponse {
    pub uploader: Uploader,
}

#[derive(Debug)]
pub struct UploadPartRequest {
    pub store_id: String,
    pub uploader_id: String,
    pub part_number: i64,
    pub data: Vec<u8>,
}

#[derive(Debug)]
pub struct UploadPartResponse {}

#[derive(Debug)]
pub struct CompleteUploadRequest {
    pub store_id: String,
    pub uploader_id: String,
}

#[derive(Debug)]
pub struct CompleteUploadResponse {}

#[derive(Debug)]
pub struct AbortUploadRequest {
    pub store_id: String,
    pub uploader_id: String,
}

#[derive(Debug)]
pub struct AbortUploadResponse {}

/// The one-of payload of an enveloped request.
#[derive(Debug)]
pub enum RequestMessage {
    ListStore(ListStoreRequest),
    GetStore(GetStoreRequest),
    WriteFile(WriteFileRequest),
    CreateUploader(CreateUploaderRequest),
    UploadPart(UploadPartRequest),
    CompleteUpload(CompleteUploadRequest),
    AbortUpload(AbortUploadRequest),
}

/// The one-of payload of an enveloped response.
#[derive(Debug)]
pub enum ResponseMessage {
    ListStore(ListStoreResponse),
    GetStore(GetStoreResponse),
    WriteFile(WriteFileResponse),
    CreateUploader(CreateUploaderResponse),
    UploadPart(UploadPartResponse),
    CompleteUpload(CompleteUploadResponse),
    AbortUpload(AbortUploadResponse),
}

/// One enveloped call: a correlation id and the request payload.
#[derive(Debug)]
pub struct CallRequest {
    pub request_id: Vec<u8>,
    pub request: Option<RequestMessage>,
}

/// The error payload embedded in a response when the service failed.
#[derive(Debug)]
pub struct CallResponseError {
    pub status: u32,
    pub details: String,
}

/// One enveloped answer: the correlation id of the call it answers, and
/// either a response payload or an embedded error.
#[derive(Debug)]
pub struct CallResponse {
    pub request_id: Vec<u8>,
    pub response: Option<ResponseMessage>,
    pub error: Option<CallResponseError>,
}

/// The response payload answers the request payload: same method.
pub open spec fn response_matches_request(req: RequestMessage, resp: ResponseMessage) -> bool {
    match (req, resp) {
        (RequestMessage::ListStore(_), ResponseMessage::ListStore(_)) => true,
        (RequestMessage::GetStore(_), ResponseMessage::GetStore(_)) => true,
        (RequestMessage::WriteFile(_), ResponseMessage::WriteFile(_)) => true,
        (RequestMessage::CreateUploader(_), ResponseMessage::CreateUploader(_)) => true,
        (RequestMessage::UploadPart(_), ResponseMessage::UploadPart(_)) => true,
        (RequestMessage::CompleteUpload(_), ResponseMessage::CompleteUpload(_)) => true,
        (RequestMessage::AbortUpload(_), ResponseMessage::AbortUpload(_)) => true,
        _ => false,
    }
}

/// Embed a service failure into the response: the response keeps its
/// correlation id and payload, and gains an error carrying the status code
/// and its details (an empty detail string when the status has none).
pub fn put_status_error_to_call_response(resp: &mut CallResponse, err: &RpcStatus)
    ensures
        final(resp).request_id@ == old(resp).request_id@,
        final(resp).response == old(resp).response,
        final(resp).error matches Some(e) && e.status == err.code && (err.details matches Some(d)
            ==> e.details@ == d@) && (err.details is None ==> e.details@ == Seq::<char>::empty()),
{
    let details = match &err.details {
        Some(d) => d.clone(),
        None => String::new(),
    };
    resp.error = Some(CallResponseError { status: err.code, details });
}

/// Split a received response into success and failure: a response with an
/// embedded error becomes that error's status, any other passes through
/// unchanged.
pub fn check_status_of_call_response(resp: CallResponse) -> (r: Result<CallResponse, RpcStatus>)
    ensures
        resp.error is None ==> r == Result::<CallResponse, RpcStatus>::Ok(resp),
        resp.error matches Some(e) ==> (r matches Err(s) && s.code == e.status && (s.details
            matches Some(d) && d@ == e.details@)),
{
    let CallResponse { request_id, response, error } = resp;
    match error {
        Some(e) => Err(RpcStatus { code: e.status, details: Some(e.details) }),
        None => Ok(CallResponse { request_id, response, error: None }),
    }
}

/// The methods an external-storage service answers. Implementations are
/// supplied by the embedding program; nothing is assumed about what they
/// return.
pub trait ExternalStorageService {
    fn list_store(&mut self, req: ListStoreRequest) -> Result<ListStoreResponse, RpcStatus>;

    fn get_store(&mut self, req: GetStoreRequest) -> Result<GetStoreResponse, RpcStatus>;

    fn write_file(&mut self, req: WriteFileRequest) -> Result<WriteFileResponse, RpcStatus>;

    fn create_uploader(&mut self, req: CreateUploaderRequest) -> Result<
        CreateUploaderResponse,
        RpcStatus,
    >;

    fn upload_part(&mut self, req: UploadPartRequest) -> Result<UploadPartResponse, RpcStatus>;

    fn complete_upload(&mut self, req: CompleteUploadRequest) -> Result<
        CompleteUploadResponse,
        RpcStatus,
    >;

    fn abort_upload(&mut self, req: AbortUploadRequest) -> Result<AbortUploadResponse, RpcStatus>;
}

/// Route one enveloped call to the service method its payload names. A
/// call without a payload is rejected as invalid; a service failure is
/// passed through; a success is wrapped in an envelope that carries the
/// call's own correlation id and the matching response variant.
pub fn call_external_storage_service<T: ExternalStorageService>(
    service: &mut T,
    req: CallRequest,
) -> (r: Result<CallResponse, RpcStatus>)
    ensures
        req.request is None ==> (r matches Err(e) && e.code == STATUS_INVALID_ARGUMENT),
        r matches Ok(resp) ==> req.request is Some && resp.request_id@ == req.request_id@
            && resp.error is None && (resp.response matches Some(m) && response_matches_request(
            req.request->Some_0,
            m,
        )),
{
    let CallRequest { request_id, request } = req;
    match request {
        None => Err(
            RpcStatus {
                code: STATUS_INVALID_ARGUMENT,
                details: Some("request message is empty".to_owned()),
            },
        ),
        Some(message) => {
            let dispatched: Result<ResponseMessage, RpcStatus> = match message {
                RequestMessage::ListStore(inner) => match service.list_store(inner) {
                    Ok(resp) => Ok(ResponseMessage::ListStore(resp)),
                    Err(e) => Err(e),
                },
                RequestMessage::GetStore(inner) => match service.get_store(inner) {
                    Ok(resp) => Ok(ResponseMessage::GetStore(resp)),
                    Err(e) => Err(e),
                },
                RequestMessage::WriteFile(inner) => match service.write_file(inner) {
                    Ok(resp) => Ok(ResponseMessage::WriteFile(resp)),
                    Err(e) => Err(e),
                },
                RequestMessage::CreateUploader(inner) => match service.create_uploader(inner) {
                    Ok(resp) => Ok(ResponseMessage::CreateUploader(resp)),
                    Err(e) => Err(e),
                },
                RequestMessage::UploadPart(inner) => match service.upload_part(inner) {
                    Ok(resp) => Ok(ResponseMessage::UploadPart(resp)),
                    Err(e) => Err(e),
                },
                RequestMessage::CompleteUpload(inner) => match service.complete_upload(inner) {
                    Ok(resp) => Ok(ResponseMessage::CompleteUpload(resp)),
                    Err(e) => Err(e),
                },
                RequestMessage::AbortUpload(inner) => match service.abort_upload(inner) {
                    Ok(resp) => Ok(ResponseMessage::AbortUpload(resp)),
                    Err(e) => Err(e),
                },
            };
            match dispatched {
                Ok(m) => Ok(CallResponse { request_id, response: Some(m), error: None }),
                Err(e) => Err(e),
            }
        },
    }
}

/// How a client reaches a storage server: one enveloped call in, one
/// enveloped answer out. Implementations wrap whatever transport the
/// embedding program uses.
pub trait ExternalStorageRawClient {
    fn call(&mut self, req: CallRequest) -> Result<CallResponse, RpcError>;
}

/// Relies on uuid::Uuid::new_v4 to draw a fresh random version-4 UUID;
/// its 16 bytes become the call's correlation id. The value is random, so
/// nothing beyond its length can be said of it.
#[verifier::external_body]
fn fresh_request_id() -> (r: Vec<u8>)
    ensures
        r@.len() == 16,
{
    uuid::Uuid::new_v4().as_bytes().to_vec()
}

/// Wrap a request payload in an envelope with a fresh correlation id.
pub fn make_call_request(message: RequestMessage) -> (r: CallRequest)
    ensures
        r.request == Some(message),
        r.request_id@.len() == 16,
{
    CallRequest { request_id: fresh_request_id(), request: Some(message) }
}

/// Unwrap a received envelope: the payload if there is one, an internal
/// failure if the remote side answered an empty envelope.
pub fn take_response_message(resp: CallResponse) -> (r: Result<ResponseMessage, RpcError>)
    ensures
        resp.response matches Some(m) ==> (r matches Ok(m2) && m2 == m),
        resp.response is None ==> (r matches Err(RpcError::RpcFailure(e)) && e.code
            == STATUS_INTERNAL),
{
    match resp.response {
        Some(m) => Ok(m),
        None => Err(
            RpcError::RpcFailure(
                RpcStatus {
                    code: STATUS_INTERNAL,
                    details: Some("faild to get response".to_owned()),
                },
            ),
        ),
    }
}

fn wrong_variant_error() -> (r: RpcError)
    ensures
        r matches RpcError::RpcFailure(e) && e.code == STATUS_INTERNAL,
{
    RpcError::RpcFailure(
        RpcStatus { code: STATUS_INTERNAL, details: Some("faild to get response".to_owned()) },
    )
}

/// A typed client over any raw transport: each method wraps its request in
/// a fresh envelope, sends it through the raw client, and validates the
/// shape of what comes back. What the remote service answers is up to it;
/// every answer that reaches the caller passed the envelope checks.
pub struct ExternalStorageApiClient<T: ExternalStorageRawClient> {
    client: T,
}

impl<T: ExternalStorageRawClient> ExternalStorageApiClient<T> {
    /// The wrapped raw client.
    pub closed spec fn client(self) -> T {
        self.client
    }

    pub fn new(client: T) -> (r: Self)
        ensures
            r.client() == client,
    {
        ExternalStorageApiClient { client }
    }

    pub fn list_store(&mut self, req: ListStoreRequest) -> (r: Result<ListStoreResponse, RpcError>) {
        let call_resp = match self.client.call(make_call_request(RequestMessage::ListStore(req))) {
            Ok(c) => c,
            Err(e) => {
                return Err(e);
            },
        };
        match take_response_message(call_resp) {
            Ok(ResponseMessage::ListStore(inner)) => Ok(inner),
            Ok(_) => Err(wrong_variant_error()),
            Err(e) => Err(e),
        }
    }

    pub fn get_store(&mut self, req: GetStoreRequest) -> (r: Result<GetStoreResponse, RpcError>) {
        let call_resp = match self.client.call(make_call_request(RequestMessage::GetStore(req))) {
            Ok(c) => c,
            Err(e) => {
                return Err(e);
            },
        };
        match take_response_message(call_resp) {
            Ok(ResponseMessage::GetStore(inner)) => Ok(inner),
            Ok(_) => Err(wrong_variant_error()),
            Err(e) => Err(e),
        }
    }

    pub fn write_file(&mut self, req: WriteFileRequest) -> (r: Result<WriteFileResponse, RpcError>) {
        let call_resp = match self.client.call(make_call_request(RequestMessage::WriteFile(req))) {
            Ok(c) => c,
            Err(e) => {
                return Err(e);
            },
        };
        match take_response_message(call_resp) {
            Ok(ResponseMessage::WriteFile(inner)) => Ok(inner),
            Ok(_) => Err(wrong_variant_error()),
            Err(e) => Err(e),
        }
    }

    pub fn create_uploader(&mut self, req: CreateUploaderRequest) -> (r: Result<
        CreateUploaderResponse,
        RpcError,
    >) {
        let call_resp = match self.client.call(
            make_call_request(RequestMessage::CreateUploader(req)),
        ) {
            Ok(c) => c,
            Err(e) => {
                return Err(e);
            },
        };
        match take_response_message(call_resp) {
            Ok(ResponseMessage::CreateUploader(inner)) => Ok(inner),
            Ok(_) => Err(wrong_variant_error()),
            Err(e) => Err(e),
        }
    }

    pub fn upload_part(&mut self, req: UploadPartRequest) -> (r: Result<UploadPartResponse, RpcError>) {
        let call_resp = match self.client.call(make_call_request(RequestMessage::UploadPart(req))) {
            Ok(c) => c,
            Err(e) => {
                return Err(e);
            },
        };
        match take_response_message(call_resp) {
            Ok(ResponseMessage::UploadPart(inner)) => Ok(inner),
            Ok(_) => Err(wrong_variant_error()),
            Err(e) => Err(e),
        }
    }

    pub fn complete_upload(&mut self, req: CompleteUploadRequest) -> (r: Result<
        CompleteUploadResponse,
        RpcError,
    >) {
        let call_resp = match self.client.call(
            make_call_request(RequestMessage::CompleteUpload(req)),
        ) {
            Ok(c) => c,
            Err(e) => {
                return Err(e);
            },
        };
        match take_response_message(call_resp) {
            Ok(ResponseMessage::CompleteUpload(inner)) => Ok(inner),
            Ok(_) => Err(wrong_variant_error()),
            Err(e) => Err(e),
        }
    }

    pub fn abort_upload(&mut self, req: AbortUploadRequest) -> (r: Result<
        AbortUploadResponse,
        RpcError,
    >) {
        let call_resp = match self.client.call(make_call_request(RequestMessage::AbortUpload(req))) {
            Ok(c) => c,
            Err(e) => {
                return Err(e);
            },
        };
        match take_response_message(call_resp) {
            Ok(ResponseMessage::AbortUpload(inner)) => Ok(inner),
            Ok(_) => Err(wrong_variant_error()),
            Err(e) => Err(e),
        }
    }
}

/// A raw client that reaches its service without any transport at all:
/// every call is routed straight into the service in the same process. A
/// service failure is surfaced as the call's failure status.
pub struct DirectRawClient<T: ExternalStorageService> {
    service: T,
}

impl<T: ExternalStorageService> DirectRawClient<T> {
    /// The wrapped service.
    pub closed spec fn service(self) -> T {
        self.service
    }

    pub fn new(service: T) -> (r: Self)
        ensures
            r.service() == service,
    {
        DirectRawClient { service }
    }
}

impl<T: ExternalStorageService> ExternalStorageRawClient for DirectRawClient<T> {
    fn call(&mut self, req: CallRequest) -> Result<CallResponse, RpcError> {
        match call_external_storage_service(&mut self.service, req) {
            Ok(resp) => Ok(resp),
            Err(status) => Err(RpcError::RpcFailure(status)),
        }
    }
}

/// A typed client over a direct, in-process connection to `service`.
pub fn new_direct_client<T: ExternalStorageService>(service: T) -> (r: ExternalStorageApiClient<
    DirectRawClient<T>,
>)
    ensures
        r.client().service() == service,
{
    ExternalStorageApiClient::new(DirectRawClient::new(service))
}

/// The server side of the envelope: the service a storage server answers
/// incoming calls with. The embedding program owns the transport and the
/// executor; it hands every decoded call to `handle_request`.
pub struct ServerContext<T: ExternalStorageService> {
    service: T,
}

impl<T: ExternalStorageService> ServerContext<T> {
    /// The service this server answers with.
    pub closed spec fn service(self) -> T {
        self.service
    }

    pub fn new(service: T) -> (r: Self)
        ensures
            r.service() == service,
    {
        ServerContext { service }
    }

    /// Answer one incoming call. The answer always carries the call's own
    /// correlation id; a malformed call or a service failure is embedded
    /// as an error payload rather than escalated, so the caller always
    /// gets an envelope back.
    pub fn handle_request(&mut self, req: CallRequest) -> (resp: CallResponse)
        ensures
            resp.request_id@ == req.request_id@,
            req.request is None ==> (resp.error matches Some(e) && e.status
                == STATUS_INVALID_ARGUMENT),
            resp.error is None ==> req.request is Some && (resp.response matches Some(m)
                && response_matches_request(req.request->Some_0, m)),
    {
        let request_id = req.request_id.clone();
        match call_external_storage_service(&mut self.service, req) {
            Ok(resp) => resp,
            Err(status) => {
                let mut resp = CallResponse { request_id, response: None, error: None };
                put_status_error_to_call_response(&mut resp, &status);
                resp
            },
        }
    }
}


/// The client side of an asynchronous transport: calls in flight, keyed by
/// their correlation id. The embedding program records each call together
/// with a ticket — in the full system, the reply channel to complete — and
/// claims the ticket back when the answer arrives.
pub struct ClientContext<T> {
    requests: Vec<(Vec<u8>, T)>,
}

impl<T> ClientContext<T> {
    /// The calls in flight, oldest first: correlation id and ticket.
    pub closed spec fn requests(self) -> Seq<(Vec<u8>, T)> {
        self.requests@
    }

    /// Some call with this correlation id is in flight.
    pub open spec fn has_request(self, id: Seq<u8>) -> bool {
        exists|i: int|
            0 <= i < self.requests().len() && (#[trigger] self.requests()[i]).0@ == id
    }

    pub fn new() -> (r: Self)
        ensures
            r.requests() == Seq::<(Vec<u8>, T)>::empty(),
    {
        ClientContext { requests: Vec::new() }
    }

    /// Record a call going out, keeping the ticket to complete it with.
    pub fn record_request(&mut self, request_id: Vec<u8>, ticket: T)
        ensures
            final(self).requests() == old(self).requests().push((request_id, ticket)),
    {
        self.requests.push((request_id, ticket));
    }

    /// An answer arrived: claim the ticket of the oldest call in flight
    /// under this correlation id. An answer nobody waits for is dropped,
    /// and the registry is left as it was.
    pub fn response_request(&mut self, request_id: &Vec<u8>) -> (r: Option<T>)
        ensures
            r is Some <==> old(self).has_request(request_id@),
            r is None ==> final(self).requests() == old(self).requests(),
            r matches Some(t) ==> exists|i: int|
                0 <= i < old(self).requests().len() && (#[trigger] old(self).requests()[i]).0@
                    == request_id@ && old(self).requests()[i].1 == t && final(self).requests()
                    == old(self).requests().remove(i),
    {
        let mut i: usize = 0;
        while i < self.requests.len()
            invariant
                0 <= i <= self.requests@.len(),
                self.requests@ == old(self).requests@,
                forall|j: int| 0 <= j < i ==> (#[trigger] self.requests@[j]).0@ != request_id@,
            decreases self.requests@.len() - i,
        {
            if bytes_equal(&self.requests[i].0, request_id) {
                proof {
                    assert((old(self).requests()[i as int]).0@ == request_id@);
                }
                let (_, ticket) = self.requests.remove(i);
                return Some(ticket);
            }
            i = i + 1;
        }
        None
    }
}

fn bytes_equal(a: &Vec<u8>, b: &Vec<u8>) -> (r: bool)
    ensures
        r == (a@ == b@),
{
    if a.len() != b.len() {
        return false;
    }
    let mut i: usize = 0;
    while i < a.len()
        invariant
            0 <= i <= a@.len(),
            a@.len() == b@.len(),
            forall|j: int| 0 <= j < i ==> a@[j] == b@[j],
        decreases a@.len() - i,
    {
        if a[i] != b[i] {
            return false;
        }
        i = i + 1;
    }
    proof {
        assert(a@ =~= b@);
    }
    true
}

} // verus!

use unsafe_recovery::extstore::{
    call_external_storage_service, check_status_of_call_response, make_call_request,
    new_direct_client, put_status_error_to_call_response, CallRequest, CallResponse,
    CallResponseError, ExternalStorageRawClient, ExternalStorageService, GetStoreRequest,
    GetStoreResponse, ListStoreRequest, ListStoreResponse, RequestMessage, ResponseMessage,
    RpcError, RpcStatus, ServerContext, Store, WriteFileRequest, WriteFileResponse,
    STATUS_INTERNAL, STATUS_INVALID_ARGUMENT,
};

// A small in-memory service: answers get-store by echoing the id, fails
// write-file with a fixed status, answers everything else emptily.
struct EchoService;

impl ExternalStorageService for EchoService {
    fn list_store(&mut self, _req: ListStoreRequest) -> Result<ListStoreResponse, RpcStatus> {
        Ok(ListStoreResponse {
            items: vec![Store { id: "s1".to_owned(), provider: "memory".to_owned() }],
        })
    }

    fn get_store(&mut self, req: GetStoreRequest) -> Result<GetStoreResponse, RpcStatus> {
        Ok(GetStoreResponse {
            store: Store { id: req.store_id, provider: "memory".to_owned() },
        })
    }

    fn write_file(&mut self, _req: WriteFileRequest) -> Result<WriteFileResponse, RpcStatus> {
        Err(RpcStatus { code: 99, details: Some("write refused".to_owned()) })
    }

    fn create_uploader(
        &mut self,
        _req: unsafe_recovery::extstore::CreateUploaderRequest,
    ) -> Result<unsafe_recovery::extstore::CreateUploaderResponse, RpcStatus> {
        Err(RpcStatus { code: 99, details: None })
    }

    fn upload_part(
        &mut self,
        _req: unsafe_recovery::extstore::UploadPartRequest,
    ) -> Result<unsafe_recovery::extstore::UploadPartResponse, RpcStatus> {
        Err(RpcStatus { code: 99, details: None })
    }

    fn complete_upload(
        &mut self,
        _req: unsafe_recovery::extstore::CompleteUploadRequest,
    ) -> Result<unsafe_recovery::extstore::CompleteUploadResponse, RpcStatus> {
        Err(RpcStatus { code: 99, details: None })
    }

    fn abort_upload(
        &mut self,
        _req: unsafe_recovery::extstore::AbortUploadRequest,
    ) -> Result<unsafe_recovery::extstore::AbortUploadResponse, RpcStatus> {
        Err(RpcStatus { code: 99, details: None })
    }
}

// The direct client routes a typed call straight into the service and
// returns the typed response.
#[test]
fn direct_client_round_trip() {
    let mut client = new_direct_client(EchoService);
    let resp = client
        .get_store(GetStoreRequest { store_id: "alpha".to_owned() })
        .expect("the echo service answers");
    assert_eq!(resp.store.id, "alpha");
    assert_eq!(resp.store.provider, "memory");

    let stores = client.list_store(ListStoreRequest {}).expect("listing succeeds");
    assert_eq!(stores.items.len(), 1);
    assert_eq!(stores.items[0].id, "s1");
}

// A service failure surfaces as the call's failure status.
#[test]
fn direct_client_passes_service_failure_through() {
    let mut client = new_direct_client(EchoService);
    let err = client
        .write_file(WriteFileRequest {
            store_id: "alpha".to_owned(),
            filepath: "f".to_owned(),
            data: vec![1, 2, 3],
        })
        .expect_err("the echo service refuses writes");
    match err {
        RpcError::RpcFailure(status) => {
            assert_eq!(status.code, 99);
            assert_eq!(status.details.as_deref(), Some("write refused"));
        }
        RpcError::Codec => panic!("expected an rpc failure"),
    }
}

// A call without a payload is rejected as invalid before any dispatch.
#[test]
fn empty_call_is_invalid_argument() {
    let req = CallRequest { request_id: vec![9], request: None };
    let mut service = EchoService;
    let err = call_external_storage_service(&mut service, req).expect_err("no payload");
    assert_eq!(err.code, STATUS_INVALID_ARGUMENT);
}

// A dispatched call answers with the caller's own correlation id and the
// matching response variant.
#[test]
fn dispatch_preserves_correlation_id_and_variant() {
    let req = CallRequest {
        request_id: vec![1, 2, 3],
        request: Some(RequestMessage::GetStore(GetStoreRequest { store_id: "x".to_owned() })),
    };
    let mut service = EchoService;
    let resp = call_external_storage_service(&mut service, req).expect("dispatch succeeds");
    assert_eq!(resp.request_id, vec![1, 2, 3]);
    assert!(resp.error.is_none());
    assert!(matches!(resp.response, Some(ResponseMessage::GetStore(_))));
}

// Every fresh envelope carries a sixteen-byte correlation id, and two
// envelopes never share one.
#[test]
fn fresh_envelopes_have_distinct_ids() {
    let a = make_call_request(RequestMessage::ListStore(ListStoreRequest {}));
    let b = make_call_request(RequestMessage::ListStore(ListStoreRequest {}));
    assert_eq!(a.request_id.len(), 16);
    assert_eq!(b.request_id.len(), 16);
    assert_ne!(a.request_id, b.request_id);
}

// The server context always answers with an envelope: a service failure is
// embedded as an error payload carrying the status and its details.
#[test]
fn server_context_embeds_failures() {
    let mut server = ServerContext::new(EchoService);
    let req = CallRequest {
        request_id: vec![7, 7],
        request: Some(RequestMessage::WriteFile(WriteFileRequest {
            store_id: "a".to_owned(),
            filepath: "f".to_owned(),
            data: vec![],
        })),
    };
    let resp = server.handle_request(req);
    assert_eq!(resp.request_id, vec![7, 7]);
    let error = resp.error.expect("the write was refused");
    assert_eq!(error.status, 99);
    assert_eq!(error.details, "write refused");

    let malformed = server.handle_request(CallRequest { request_id: vec![1], request: None });
    assert_eq!(malformed.request_id, vec![1]);
    assert_eq!(malformed.error.expect("malformed").status, STATUS_INVALID_ARGUMENT);
}

// Checking a received envelope splits it into success and failure.
#[test]
fn check_status_splits_error_and_success() {
    let failed = CallResponse {
        request_id: vec![1],
        response: None,
        error: Some(CallResponseError { status: 5, details: "gone".to_owned() }),
    };
    let err = check_status_of_call_response(failed).expect_err("an embedded error");
    assert_eq!(err.code, 5);
    assert_eq!(err.details.as_deref(), Some("gone"));

    let ok = CallResponse { request_id: vec![2], response: None, error: None };
    let passed = check_status_of_call_response(ok).expect("no embedded error");
    assert_eq!(passed.request_id, vec![2]);
}

// Embedding a status without details leaves an empty detail string.
#[test]
fn embedding_status_without_details() {
    let mut resp = CallResponse { request_id: vec![3], response: None, error: None };
    put_status_error_to_call_response(&mut resp, &RpcStatus { code: 13, details: None });
    let error = resp.error.expect("embedded");
    assert_eq!(error.status, 13);
    assert_eq!(error.details, "");
}

// A raw client that answers with the wrong variant: the typed client
// rejects the answer as an internal failure instead of handing it out.
struct WrongVariantClient;

impl ExternalStorageRawClient for WrongVariantClient {
    fn call(&mut self, req: CallRequest) -> Result<CallResponse, RpcError> {
        Ok(CallResponse {
            request_id: req.request_id,
            response: Some(ResponseMessage::WriteFile(WriteFileResponse {})),
            error: None,
        })
    }
}

#[test]
fn typed_client_rejects_wrong_variant() {
    let mut client = unsafe_recovery::extstore::ExternalStorageApiClient::new(WrongVariantClient);
    let err = client
        .get_store(GetStoreRequest { store_id: "x".to_owned() })
        .expect_err("the variant does not match");
    match err {
        RpcError::RpcFailure(status) => assert_eq!(status.code, STATUS_INTERNAL),
        RpcError::Codec => panic!("expected an rpc failure"),
    }
}

// A raw client that answers an empty envelope: rejected the same way.
struct EmptyEnvelopeClient;

impl ExternalStorageRawClient for EmptyEnvelopeClient {
    fn call(&mut self, req: CallRequest) -> Result<CallResponse, RpcError> {
        Ok(CallResponse { request_id: req.request_id, response: None, error: None })
    }
}

#[test]
fn typed_client_rejects_empty_envelope() {
    let mut client = unsafe_recovery::extstore::ExternalStorageApiClient::new(EmptyEnvelopeClient);
    let err = client
        .list_store(ListStoreRequest {})
        .expect_err("the envelope is empty");
    match err {
        RpcError::RpcFailure(status) => assert_eq!(status.code, STATUS_INTERNAL),
        RpcError::Codec => panic!("expected an rpc failure"),
    }
}

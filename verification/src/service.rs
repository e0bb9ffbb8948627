//! The default external-storage service: a registry of named stores and
//! open uploads, routing each request to the backend that owns it.
//!
//! The registry and its lookups are verified; the backends that actually
//! move bytes are supplied by the embedding program and nothing is assumed
//! about what they return.

use vstd::prelude::*;

use crate::extstore::{
    AbortUploadRequest, AbortUploadResponse, CompleteUploadRequest, CompleteUploadResponse,
    CreateUploaderRequest, CreateUploaderResponse, ExternalStorageService, GetStoreRequest,
    GetStoreResponse, ListStoreRequest, ListStoreResponse, RpcStatus, Store, UploadPartRequest,
    UploadPartResponse, Uploader, WriteFileRequest, WriteFileResponse, STATUS_INTERNAL,
};

verus! {

/// Status code when a store or uploader is unknown.
pub const STATUS_NOT_FOUND: u32 = 5;

/// What a storage backend does for the service. Implementations are
/// supplied by the embedding program — an object store, a local disk, a
/// mock — and nothing is assumed about their outcomes; a failure carries a
/// message for the caller.
pub trait ExternalStorageBackend {
    /// Write a whole file in one shot.
    fn write_file(&mut self, filepath: &String, data: &Vec<u8>) -> Result<(), String>;

    /// Open a new multi-part upload under the given id.
    fn create_uploader(&mut self, uploader_id: &String, filepath: &String);

    /// Append one part to an open upload.
    fn upload_part(&mut self, uploader_id: &String, part_number: i64, data: &Vec<u8>) -> Result<
        (),
        String,
    >;

    /// Join the parts of an open upload into the final file.
    fn complete_upload(&mut self, uploader_id: &String) -> Result<(), String>;

    /// Abandon an open upload, discarding its parts.
    fn abort_upload(&mut self, uploader_id: &String) -> Result<(), String>;
}

struct StoreEntry<B> {
    store_id: String,
    provider: String,
    backend: B,
}

struct UploaderEntry {
    uploader_id: String,
    store_id: String,
    filepath: String,
}

/// A registry-backed service: stores registered under their ids, uploads
/// opened against them, every request routed by lookup.
pub struct DefaultExternalStorageService<B: ExternalStorageBackend> {
    storages: Vec<StoreEntry<B>>,
    uploaders: Vec<UploaderEntry>,
}

impl<B: ExternalStorageBackend> DefaultExternalStorageService<B> {
    /// The registered stores, in registration order: id and provider.
    pub closed spec fn stores(self) -> Seq<(Seq<char>, Seq<char>)> {
        self.storages@.map_values(|e: StoreEntry<B>| (e.store_id@, e.provider@))
    }

    /// The open uploads, in creation order: uploader id, store id, path.
    pub closed spec fn uploads(self) -> Seq<(Seq<char>, Seq<char>, Seq<char>)> {
        self.uploaders@.map_values(|e: UploaderEntry| (e.uploader_id@, e.store_id@, e.filepath@))
    }

    /// A store is registered under `id`.
    pub open spec fn has_store(self, id: Seq<char>) -> bool {
        exists|i: int| 0 <= i < self.stores().len() && (#[trigger] self.stores()[i]).0 == id
    }

    /// An upload with `uploader_id` is open against the store `store_id`.
    pub open spec fn has_upload(self, uploader_id: Seq<char>, store_id: Seq<char>) -> bool {
        exists|i: int|
            0 <= i < self.uploads().len() && (#[trigger] self.uploads()[i]).0 == uploader_id
                && self.uploads()[i].1 == store_id
    }

    pub fn new() -> (r: Self)
        ensures
            r.stores() == Seq::<(Seq<char>, Seq<char>)>::empty(),
            r.uploads() == Seq::<(Seq<char>, Seq<char>, Seq<char>)>::empty(),
    {
        let r = DefaultExternalStorageService { storages: Vec::new(), uploaders: Vec::new() };
        proof {
            assert(r.stores() =~= Seq::<(Seq<char>, Seq<char>)>::empty());
            assert(r.uploads() =~= Seq::<(Seq<char>, Seq<char>, Seq<char>)>::empty());
        }
        r
    }

    /// Register `store` under `store_id`: a new id is appended, a known id
    /// has its entry replaced.
    pub fn register_store(&mut self, store_id: &str, provider: &str, store: B)
        ensures
            final(self).uploads() == old(self).uploads(),
            !old(self).has_store(store_id@) ==> final(self).stores() == old(self).stores().push(
                (store_id@, provider@),
            ),
            old(self).has_store(store_id@) ==> exists|i: int|
                0 <= i < old(self).stores().len() && (#[trigger] old(self).stores()[i]).0
                    == store_id@ && final(self).stores() == old(self).stores().update(
                    i,
                    (store_id@, provider@),
                ),
    {
        let entry = StoreEntry {
            store_id: store_id.to_owned(),
            provider: provider.to_owned(),
            backend: store,
        };
        let owned_id = store_id.to_owned();
        match self.find_store_index(&owned_id) {
            Some(i) => {
                let _ = self.storages.remove(i);
                self.storages.insert(i, entry);
                proof {
                    assert(final(self).stores() =~= old(self).stores().update(
                        i as int,
                        (store_id@, provider@),
                    ));
                    assert(self.uploads() =~= old(self).uploads());
                }
            },
            None => {
                self.storages.push(entry);
                proof {
                    assert(final(self).stores() =~= old(self).stores().push(
                        (store_id@, provider@),
                    ));
                    assert(self.uploads() =~= old(self).uploads());
                }
            },
        }
    }

    fn find_store_index(&self, store_id: &String) -> (r: Option<usize>)
        ensures
            r matches Some(i) ==> i < self.stores().len() && self.stores()[i as int].0
                == store_id@,
            r is None ==> !self.has_store(store_id@),
    {
        let mut i: usize = 0;
        while i < self.storages.len()
            invariant
                0 <= i <= self.storages@.len(),
                self.stores().len() == self.storages@.len(),
                forall|j: int| 0 <= j < i ==> (#[trigger] self.stores()[j]).0 != store_id@,
                forall|j: int|
                    0 <= j < self.storages@.len() ==> (#[trigger] self.stores()[j]).0
                        == self.storages@[j].store_id@,
            decreases self.storages@.len() - i,
        {
            if self.storages[i].store_id == *store_id {
                return Some(i);
            }
            i = i + 1;
        }
        None
    }

    fn store_not_found() -> (r: RpcStatus)
        ensures
            r.code == STATUS_NOT_FOUND,
    {
        RpcStatus {
            code: STATUS_NOT_FOUND,
            details: Some("cannot find store with that id".to_owned()),
        }
    }

    fn uploader_not_found() -> (r: RpcStatus)
        ensures
            r.code == STATUS_NOT_FOUND,
    {
        RpcStatus {
            code: STATUS_NOT_FOUND,
            details: Some("cannot find uploader with that id".to_owned()),
        }
    }

    fn backend_failed(message: String) -> (r: RpcStatus)
        ensures
            r.code == STATUS_INTERNAL,
            r.details matches Some(d) && d@ == message@,
    {
        RpcStatus { code: STATUS_INTERNAL, details: Some(message) }
    }

    /// List every registered store, in registration order.
    pub fn handle_list_store(&self, _req: ListStoreRequest) -> (r: Result<
        ListStoreResponse,
        RpcStatus,
    >)
        ensures
            r matches Ok(resp) && resp.items@.len() == self.stores().len() && (forall|i: int|
                0 <= i < self.stores().len() ==> ((#[trigger] resp.items@[i]).id@
                    == self.stores()[i].0 && resp.items@[i].provider@ == self.stores()[i].1)),
    {
        let mut items: Vec<Store> = Vec::new();
        let mut i: usize = 0;
        while i < self.storages.len()
            invariant
                0 <= i <= self.storages@.len(),
                self.stores().len() == self.storages@.len(),
                items@.len() == i,
                forall|j: int|
                    0 <= j < i ==> ((#[trigger] items@[j]).id@ == self.stores()[j].0
                        && items@[j].provider@ == self.stores()[j].1),
                forall|j: int|
                    0 <= j < self.storages@.len() ==> (#[trigger] self.stores()[j]) == (
                        self.storages@[j].store_id@,
                        self.storages@[j].provider@,
                    ),
            decreases self.storages@.len() - i,
        {
            items.push(
                Store {
                    id: self.storages[i].store_id.clone(),
                    provider: self.storages[i].provider.clone(),
                },
            );
            i = i + 1;
        }
        Ok(ListStoreResponse { items })
    }

    /// Describe one registered store; unknown ids are not found.
    pub fn handle_get_store(&self, req: GetStoreRequest) -> (r: Result<GetStoreResponse, RpcStatus>)
        ensures
            r is Ok <==> self.has_store(req.store_id@),
            r matches Ok(resp) ==> resp.store.id@ == req.store_id@ && exists|i: int|
                0 <= i < self.stores().len() && #[trigger] self.stores()[i] == (
                    req.store_id@,
                    resp.store.provider@,
                ),
            r matches Err(e) ==> e.code == STATUS_NOT_FOUND,
    {
        match self.find_store_index(&req.store_id) {
            Some(i) => {
                let resp = GetStoreResponse {
                    store: Store {
                        id: self.storages[i].store_id.clone(),
                        provider: self.storages[i].provider.clone(),
                    },
                };
                proof {
                    assert(self.stores()[i as int] == (req.store_id@, resp.store.provider@));
                }
                Ok(resp)
            },
            None => Err(Self::store_not_found()),
        }
    }

    /// Write a whole file through the store's backend; unknown stores are
    /// not found, and a backend failure is surfaced as an internal status
    /// carrying the backend's message.
    pub fn handle_write_file(&mut self, req: WriteFileRequest) -> (r: Result<
        WriteFileResponse,
        RpcStatus,
    >)
        ensures
            final(self).stores() == old(self).stores(),
            final(self).uploads() == old(self).uploads(),
            !old(self).has_store(req.store_id@) ==> (r matches Err(e) && e.code
                == STATUS_NOT_FOUND),
            old(self).has_store(req.store_id@) ==> (r is Ok || (r matches Err(e) && e.code
                == STATUS_INTERNAL)),
    {
        match self.find_store_index(&req.store_id) {
            Some(i) => {
                let mut entry = self.storages.remove(i);
                let outcome = entry.backend.write_file(&req.filepath, &req.data);
                self.storages.insert(i, entry);
                proof {
                    assert(self.stores() =~= old(self).stores());
                    assert(self.uploads() =~= old(self).uploads());
                }
                match outcome {
                    Ok(_) => Ok(WriteFileResponse {}),
                    Err(message) => Err(Self::backend_failed(message)),
                }
            },
            None => Err(Self::store_not_found()),
        }
    }

    /// Open a new upload against a registered store: a fresh uploader id
    /// is drawn, the backend is told to open the upload, and the upload is
    /// recorded in the registry.
    pub fn handle_create_uploader(&mut self, req: CreateUploaderRequest) -> (r: Result<
        CreateUploaderResponse,
        RpcStatus,
    >)
        ensures
            final(self).stores() == old(self).stores(),
            !old(self).has_store(req.store_id@) ==> (r matches Err(e) && e.code
                == STATUS_NOT_FOUND) && final(self).uploads() == old(self).uploads(),
            old(self).has_store(req.store_id@) ==> (r matches Ok(resp) && resp.uploader.filepath@
                == req.filepath@ && resp.uploader.id@.len() == 36 && final(self).uploads() == old(
                self,
            ).uploads().push((resp.uploader.id@, req.store_id@, req.filepath@))),
    {
        match self.find_store_index(&req.store_id) {
            Some(i) => {
                let uploader_id = fresh_uploader_id();
                let mut entry = self.storages.remove(i);
                entry.backend.create_uploader(&uploader_id, &req.filepath);
                self.storages.insert(i, entry);
                self.uploaders.push(
                    UploaderEntry {
                        uploader_id: uploader_id.clone(),
                        store_id: req.store_id.clone(),
                        filepath: req.filepath.clone(),
                    },
                );
                proof {
                    assert(self.stores() =~= old(self).stores());
                    assert(final(self).uploads() =~= old(self).uploads().push(
                        (uploader_id@, req.store_id@, req.filepath@),
                    ));
                }
                Ok(
                    CreateUploaderResponse {
                        uploader: Uploader { id: uploader_id, filepath: req.filepath },
                    },
                )
            },
            None => Err(Self::store_not_found()),
        }
    }

    fn route_to_backend(&self, uploader_id: &String, store_id: &String) -> (r: Result<
        usize,
        RpcStatus,
    >)
        ensures
            r matches Ok(i) ==> i < self.storages@.len() && self.stores()[i as int].0 == store_id@
                && self.has_upload(uploader_id@, store_id@),
            r matches Err(e) ==> e.code == STATUS_NOT_FOUND,
            r is Ok <==> self.has_upload(uploader_id@, store_id@) && self.has_store(store_id@),
    {
        proof {
            assert(self.stores().len() == self.storages@.len());
        }
        if !self.upload_registered(uploader_id, store_id) {
            return Err(Self::uploader_not_found());
        }
        match self.find_store_index(store_id) {
            Some(i) => Ok(i),
            None => Err(Self::store_not_found()),
        }
    }

    fn upload_registered(&self, uploader_id: &String, store_id: &String) -> (r: bool)
        ensures
            r == self.has_upload(uploader_id@, store_id@),
    {
        let mut i: usize = 0;
        while i < self.uploaders.len()
            invariant
                0 <= i <= self.uploaders@.len(),
                self.uploads().len() == self.uploaders@.len(),
                forall|j: int|
                    0 <= j < i ==> !((#[trigger] self.uploads()[j]).0 == uploader_id@
                        && self.uploads()[j].1 == store_id@),
                forall|j: int|
                    0 <= j < self.uploaders@.len() ==> (#[trigger] self.uploads()[j]) == (
                        self.uploaders@[j].uploader_id@,
                        self.uploaders@[j].store_id@,
                        self.uploaders@[j].filepath@,
                    ),
            decreases self.uploaders@.len() - i,
        {
            if self.uploaders[i].uploader_id == *uploader_id && self.uploaders[i].store_id
                == *store_id {
                proof {
                    assert(self.uploads()[i as int].0 == uploader_id@ && self.uploads()[i as int].1
                        == store_id@);
                }
                return true;
            }
            i = i + 1;
        }
        false
    }

    /// Append one part to an open upload, through the backend of the store
    /// the upload was opened against.
    pub fn handle_upload_part(&mut self, req: UploadPartRequest) -> (r: Result<
        UploadPartResponse,
        RpcStatus,
    >)
        ensures
            final(self).stores() == old(self).stores(),
            final(self).uploads() == old(self).uploads(),
            !(old(self).has_upload(req.uploader_id@, req.store_id@) && old(self).has_store(
                req.store_id@,
            )) ==> (r matches Err(e) && e.code == STATUS_NOT_FOUND),
            old(self).has_upload(req.uploader_id@, req.store_id@) && old(self).has_store(
                req.store_id@,
            ) ==> (r is Ok || (r matches Err(e) && e.code == STATUS_INTERNAL)),
            r matches Err(e) ==> e.code == STATUS_NOT_FOUND || e.code == STATUS_INTERNAL,
    {
        let i = match self.route_to_backend(&req.uploader_id, &req.store_id) {
            Ok(i) => i,
            Err(e) => {
                return Err(e);
            },
        };
        let mut entry = self.storages.remove(i);
        let outcome = entry.backend.upload_part(&req.uploader_id, req.part_number, &req.data);
        self.storages.insert(i, entry);
        proof {
            assert(self.stores() =~= old(self).stores());
            assert(self.uploads() =~= old(self).uploads());
        }
        match outcome {
            Ok(_) => Ok(UploadPartResponse {}),
            Err(message) => Err(Self::backend_failed(message)),
        }
    }

    /// Join the parts of an open upload into the final file.
    pub fn handle_complete_upload(&mut self, req: CompleteUploadRequest) -> (r: Result<
        CompleteUploadResponse,
        RpcStatus,
    >)
        ensures
            final(self).stores() == old(self).stores(),
            final(self).uploads() == old(self).uploads(),
            !(old(self).has_upload(req.uploader_id@, req.store_id@) && old(self).has_store(
                req.store_id@,
            )) ==> (r matches Err(e) && e.code == STATUS_NOT_FOUND),
            old(self).has_upload(req.uploader_id@, req.store_id@) && old(self).has_store(
                req.store_id@,
            ) ==> (r is Ok || (r matches Err(e) && e.code == STATUS_INTERNAL)),
            r matches Err(e) ==> e.code == STATUS_NOT_FOUND || e.code == STATUS_INTERNAL,
    {
        let i = match self.route_to_backend(&req.uploader_id, &req.store_id) {
            Ok(i) => i,
            Err(e) => {
                return Err(e);
            },
        };
        let mut entry = self.storages.remove(i);
        let outcome = entry.backend.complete_upload(&req.uploader_id);
        self.storages.insert(i, entry);
        proof {
            assert(self.stores() =~= old(self).stores());
            assert(self.uploads() =~= old(self).uploads());
        }
        match outcome {
            Ok(_) => Ok(CompleteUploadResponse {}),
            Err(message) => Err(Self::backend_failed(message)),
        }
    }

    /// Abandon an open upload, discarding its parts.
    pub fn handle_abort_upload(&mut self, req: AbortUploadRequest) -> (r: Result<
        AbortUploadResponse,
        RpcStatus,
    >)
        ensures
            final(self).stores() == old(self).stores(),
            final(self).uploads() == old(self).uploads(),
            !(old(self).has_upload(req.uploader_id@, req.store_id@) && old(self).has_store(
                req.store_id@,
            )) ==> (r matches Err(e) && e.code == STATUS_NOT_FOUND),
            old(self).has_upload(req.uploader_id@, req.store_id@) && old(self).has_store(
                req.store_id@,
            ) ==> (r is Ok || (r matches Err(e) && e.code == STATUS_INTERNAL)),
            r matches Err(e) ==> e.code == STATUS_NOT_FOUND || e.code == STATUS_INTERNAL,
    {
        let i = match self.route_to_backend(&req.uploader_id, &req.store_id) {
            Ok(i) => i,
            Err(e) => {
                return Err(e);
            },
        };
        let mut entry = self.storages.remove(i);
        let outcome = entry.backend.abort_upload(&req.uploader_id);
        self.storages.insert(i, entry);
        proof {
            assert(self.stores() =~= old(self).stores());
            assert(self.uploads() =~= old(self).uploads());
        }
        match outcome {
            Ok(_) => Ok(AbortUploadResponse {}),
            Err(message) => Err(Self::backend_failed(message)),
        }
    }
}

impl<B: ExternalStorageBackend> ExternalStorageService for DefaultExternalStorageService<B> {
    fn list_store(&mut self, req: ListStoreRequest) -> Result<ListStoreResponse, RpcStatus> {
        self.handle_list_store(req)
    }

    fn get_store(&mut self, req: GetStoreRequest) -> Result<GetStoreResponse, RpcStatus> {
        self.handle_get_store(req)
    }

    fn write_file(&mut self, req: WriteFileRequest) -> Result<WriteFileResponse, RpcStatus> {
        self.handle_write_file(req)
    }

    fn create_uploader(&mut self, req: CreateUploaderRequest) -> Result<
        CreateUploaderResponse,
        RpcStatus,
    > {
        self.handle_create_uploader(req)
    }

    fn upload_part(&mut self, req: UploadPartRequest) -> Result<UploadPartResponse, RpcStatus> {
        self.handle_upload_part(req)
    }

    fn complete_upload(&mut self, req: CompleteUploadRequest) -> Result<
        CompleteUploadResponse,
        RpcStatus,
    > {
        self.handle_complete_upload(req)
    }

    fn abort_upload(&mut self, req: AbortUploadRequest) -> Result<AbortUploadResponse, RpcStatus> {
        self.handle_abort_upload(req)
    }
}

/// Relies on uuid::Uuid::new_v4 and its hyphenated text form: a fresh
/// random version-4 UUID, 36 characters. The value is random, so nothing
/// beyond its length can be said of it.
#[verifier::external_body]
fn fresh_uploader_id() -> (r: String)
    ensures
        r@.len() == 36,
{
    uuid::Uuid::new_v4().to_string()
}

} // verus!

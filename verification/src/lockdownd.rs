//! The wrapper objects around native lockdownd and image-mounter handles.
//! Each owns a `Lock` instead of a raw handle and small, lifetime-neutral
//! metadata. Every operation splits in two around the native call, which
//! this layer never performs itself: a first phase that runs the validity
//! check and assembles the exact arguments the native call must receive,
//! and a finishing phase that translates the native status and, for
//! constructing calls, chains the fresh handle under its parent's cell.
//! Release paths hand back the handle to free only while the chain is
//! still alive, and always leave the wrapper's own cell dead.

use vstd::prelude::*;
use vstd::string::StrSliceExecFns;

use crate::error::{LockdowndError, MobileImageMounterError};
use crate::memory_lock::{cell_same, invalidated_at, preserves_dead, same_cells, CellTable, Lock};

verus! {

/// An opaque property-list value handed back by the native layer; carried
/// through untouched.
#[derive(Clone, Copy, PartialEq, Eq, Structural, Debug)]
pub struct Plist {
    pub pointer: u64,
}

/// A device wrapper: the root of an ownership chain. The handle itself
/// comes from the native discovery layer, outside this library.
pub struct Device {
    pub pointer: Lock,
}

/// A lockdownd client derived from a device; its cell is chained under the
/// device's cell.
pub struct LockdowndClient {
    pub pointer: Lock,
    pub label: String,
}

/// A lockdownd service descriptor derived from a client.
pub struct LockdowndService {
    pub pointer: Lock,
    pub label: String,
    pub port: u32,
}

/// An image mounter derived from a service.
pub struct MobileImageMounter {
    pub pointer: Lock,
}

/// The exact arguments of a native get-value call: the checked client
/// handle, and the domain and key with an empty string already turned into
/// the native null argument.
pub struct GetValueCall {
    pub handle: u64,
    pub domain: Option<String>,
    pub key: Option<String>,
}

/// The exact arguments of a native start-service call.
pub struct StartServiceCall {
    pub handle: u64,
    pub label: Option<String>,
}

/// The exact arguments of a native upload call: the checked mounter handle,
/// both payloads fully in memory, and the image type with an empty string
/// already turned into the native null argument.
pub struct UploadCall {
    pub handle: u64,
    pub image: Vec<u8>,
    pub image_type: Option<String>,
    pub signature: Vec<u8>,
}

/// The exact arguments of a native mount call.
pub struct MountCall {
    pub handle: u64,
    pub name: String,
    pub image_path: String,
    pub image_type: String,
    pub signature_path: String,
}

/// Turns the empty string into the native null argument, any other string
/// into itself.
fn nonempty_or_none(s: String) -> (r: Option<String>)
    ensures
        (match r {
            Some(x) => x@ == s@ && s@.len() > 0,
            None => s@.len() == 0,
        }),
{
    if s.as_str().unicode_len() == 0 {
        None
    } else {
        Some(s)
    }
}

impl Device {
    /// Wraps a handle obtained from the native discovery layer as the root
    /// of a fresh ownership chain. Always succeeds.
    pub fn new(t: &mut CellTable, handle: u64) -> (r: Device)
        requires
            old(t).wf(),
        ensures
            final(t).wf(),
            r.pointer.valid(*final(t)),
            r.pointer.index() == old(t).len(),
            final(t).len() == old(t).len() + 1,
            final(t).cell_alive(r.pointer.index()),
            final(t).cell_value(r.pointer.index()) == handle,
            final(t).parent_of(r.pointer.index()) == None::<int>,
            forall|j: int| old(t).valid_index(j) ==> #[trigger] cell_same(*old(t), *final(t), j),
            preserves_dead(*old(t), *final(t)),
    {
        Device { pointer: Lock::new(t, handle, None) }
    }
}

impl LockdowndClient {
    /// The validity check before the native handshake: returns the device
    /// handle the native constructor must receive, or the dependency error.
    /// Performs no other work, so on failure no native call has anything to
    /// run with.
    pub fn prepare(t: &CellTable, device: &Device) -> (r: Result<u64, LockdowndError>)
        requires
            t.wf(),
            device.pointer.valid(*t),
        ensures
            r is Ok <==> t.chain_alive(device.pointer.index()),
            (r matches Ok(h) ==> h == t.cell_value(device.pointer.index())),
            (r matches Err(e) ==> e == LockdowndError::MissingObjectDependency),
    {
        match device.pointer.check(t) {
            Ok(h) => Ok(h),
            Err(_) => Err(LockdowndError::MissingObjectDependency),
        }
    }

    /// Wraps the outcome of the native handshake. While the device chain is
    /// alive and the native status reports success, the fresh client handle
    /// is chained under the device's cell and the client is live; a failed
    /// check or a failing status leaves the table untouched and returns the
    /// typed error.
    pub fn new(
        t: &mut CellTable,
        device: &Device,
        label: String,
        status: i32,
        client_handle: u64,
    ) -> (r: Result<LockdowndClient, LockdowndError>)
        requires
            old(t).wf(),
            device.pointer.valid(*old(t)),
        ensures
            final(t).wf(),
            preserves_dead(*old(t), *final(t)),
            (!old(t).chain_alive(device.pointer.index()) ==> (r matches Err(e)
                && e == LockdowndError::MissingObjectDependency) && same_cells(
                *old(t),
                *final(t),
            )),
            (old(t).chain_alive(device.pointer.index()) && status != 0 ==> (r matches Err(e)
                && e == LockdowndError::spec_from_code(status)) && same_cells(
                *old(t),
                *final(t),
            )),
            (old(t).chain_alive(device.pointer.index()) && status == 0 ==> (r matches Ok(c)
                && c.pointer.valid(*final(t))
                && c.pointer.index() == old(t).len()
                && final(t).len() == old(t).len() + 1
                && final(t).cell_alive(c.pointer.index())
                && final(t).cell_value(c.pointer.index()) == client_handle
                && final(t).parent_of(c.pointer.index()) == Some(device.pointer.index())
                && c.label@ == label@
                && (forall|j: int|
                    old(t).valid_index(j) ==> #[trigger] cell_same(*old(t), *final(t), j)))),
    {
        if device.pointer.check(t).is_err() {
            return Err(LockdowndError::MissingObjectDependency);
        }
        let code = LockdowndError::from_code(status);
        if !matches!(code, LockdowndError::Success) {
            return Err(code);
        }
        let pointer = Lock::new(t, client_handle, Some(device.pointer));
        Ok(LockdowndClient { pointer, label })
    }

    /// The first phase of reading a value from the device: checks the whole
    /// ancestor chain, then assembles the native call's arguments, turning
    /// an empty domain or key into the native null argument.
    pub fn get_value(&self, t: &CellTable, key: String, domain: String) -> (r: Result<
        GetValueCall,
        LockdowndError,
    >)
        requires
            t.wf(),
            self.pointer.valid(*t),
        ensures
            r is Ok <==> t.chain_alive(self.pointer.index()),
            (r matches Err(e) ==> e == LockdowndError::MissingObjectDependency),
            (r matches Ok(call) ==> call.handle == t.cell_value(self.pointer.index()) && (
            match call.domain {
                Some(d) => d@ == domain@ && domain@.len() > 0,
                None => domain@.len() == 0,
            }) && (match call.key {
                Some(k) => k@ == key@ && key@.len() > 0,
                None => key@.len() == 0,
            })),
    {
        let handle = match self.pointer.check(t) {
            Ok(h) => h,
            Err(_) => {
                return Err(LockdowndError::MissingObjectDependency);
            }
        };
        Ok(GetValueCall { handle, domain: nonempty_or_none(domain), key: nonempty_or_none(key) })
    }

    /// The finishing phase of reading a value: translates the native status
    /// and, on success, wraps the returned property list.
    pub fn finish_get_value(status: i32, value: u64) -> (r: Result<Plist, LockdowndError>)
        ensures
            status == 0 ==> r == Ok::<Plist, LockdowndError>((Plist { pointer: value })),
            status != 0 ==> (r matches Err(e) && e == LockdowndError::spec_from_code(status)),
    {
        let code = LockdowndError::from_code(status);
        if matches!(code, LockdowndError::Success) {
            Ok(Plist { pointer: value })
        } else {
            Err(code)
        }
    }

    /// The first phase of starting a service: checks the whole ancestor
    /// chain, then assembles the native call's arguments, turning an empty
    /// label into the native null argument.
    pub fn start_service(&self, t: &CellTable, label: String) -> (r: Result<
        StartServiceCall,
        LockdowndError,
    >)
        requires
            t.wf(),
            self.pointer.valid(*t),
        ensures
            r is Ok <==> t.chain_alive(self.pointer.index()),
            (r matches Err(e) ==> e == LockdowndError::MissingObjectDependency),
            (r matches Ok(call) ==> call.handle == t.cell_value(self.pointer.index()) && (
            match call.label {
                Some(l) => l@ == label@ && label@.len() > 0,
                None => label@.len() == 0,
            })),
    {
        let handle = match self.pointer.check(t) {
            Ok(h) => h,
            Err(_) => {
                return Err(LockdowndError::MissingObjectDependency);
            }
        };
        Ok(StartServiceCall { handle, label: nonempty_or_none(label) })
    }

    /// The finishing phase of starting a service: on native success the
    /// fresh service descriptor is chained under this client's cell, with
    /// the label recorded and the port left at zero; a failing status
    /// leaves the table untouched.
    pub fn finish_start_service(
        &self,
        t: &mut CellTable,
        label: String,
        status: i32,
        service_handle: u64,
    ) -> (r: Result<LockdowndService, LockdowndError>)
        requires
            old(t).wf(),
            self.pointer.valid(*old(t)),
        ensures
            final(t).wf(),
            preserves_dead(*old(t), *final(t)),
            (status != 0 ==> (r matches Err(e) && e == LockdowndError::spec_from_code(status))
                && same_cells(*old(t), *final(t))),
            (status == 0 ==> (r matches Ok(s)
                && s.pointer.valid(*final(t))
                && s.pointer.index() == old(t).len()
                && final(t).len() == old(t).len() + 1
                && final(t).cell_alive(s.pointer.index())
                && final(t).cell_value(s.pointer.index()) == service_handle
                && final(t).parent_of(s.pointer.index()) == Some(self.pointer.index())
                && s.label@ == label@
                && s.port == 0
                && (forall|j: int|
                    old(t).valid_index(j) ==> #[trigger] cell_same(*old(t), *final(t), j)))),
    {
        let code = LockdowndError::from_code(status);
        if !matches!(code, LockdowndError::Success) {
            return Err(code);
        }
        let pointer = Lock::new(t, service_handle, Some(self.pointer));
        Ok(LockdowndService { pointer, label, port: 0 })
    }

    /// The scoped release path: hands back the client handle for the native
    /// free only while the whole chain is still alive, and marks this
    /// client's own cell — and nothing else — dead either way, so a second
    /// release finds nothing to free.
    pub fn release(&self, t: &mut CellTable) -> (r: Option<u64>)
        requires
            old(t).wf(),
            self.pointer.valid(*old(t)),
        ensures
            final(t).wf(),
            r == (if old(t).chain_alive(self.pointer.index()) {
                Some(old(t).cell_value(self.pointer.index()))
            } else {
                None::<u64>
            }),
            invalidated_at(*old(t), *final(t), self.pointer.index()),
            preserves_dead(*old(t), *final(t)),
            !final(t).chain_alive(self.pointer.index()),
    {
        self.pointer.release(t)
    }
}

impl LockdowndService {
    /// The scoped release path of a service descriptor; local to its own
    /// cell, exactly as the client's.
    pub fn release(&self, t: &mut CellTable) -> (r: Option<u64>)
        requires
            old(t).wf(),
            self.pointer.valid(*old(t)),
        ensures
            final(t).wf(),
            r == (if old(t).chain_alive(self.pointer.index()) {
                Some(old(t).cell_value(self.pointer.index()))
            } else {
                None::<u64>
            }),
            invalidated_at(*old(t), *final(t), self.pointer.index()),
            preserves_dead(*old(t), *final(t)),
            !final(t).chain_alive(self.pointer.index()),
    {
        self.pointer.release(t)
    }
}

impl MobileImageMounter {
    /// The validity check before the native mounter constructor: returns
    /// the service handle it must receive, or the dependency error.
    pub fn prepare(t: &CellTable, service: &LockdowndService) -> (r: Result<
        u64,
        MobileImageMounterError,
    >)
        requires
            t.wf(),
            service.pointer.valid(*t),
        ensures
            r is Ok <==> t.chain_alive(service.pointer.index()),
            (r matches Ok(h) ==> h == t.cell_value(service.pointer.index())),
            (r matches Err(e) ==> e == MobileImageMounterError::MissingObjectDependency),
    {
        match service.pointer.check(t) {
            Ok(h) => Ok(h),
            Err(_) => Err(MobileImageMounterError::MissingObjectDependency),
        }
    }

    /// Wraps the outcome of the native mounter constructor; the fresh
    /// mounter handle is chained under the service's cell on success.
    pub fn new(
        t: &mut CellTable,
        service: &LockdowndService,
        status: i32,
        mounter_handle: u64,
    ) -> (r: Result<MobileImageMounter, MobileImageMounterError>)
        requires
            old(t).wf(),
            service.pointer.valid(*old(t)),
        ensures
            final(t).wf(),
            preserves_dead(*old(t), *final(t)),
            (!old(t).chain_alive(service.pointer.index()) ==> (r matches Err(e)
                && e == MobileImageMounterError::MissingObjectDependency) && same_cells(
                *old(t),
                *final(t),
            )),
            (old(t).chain_alive(service.pointer.index()) && status != 0 ==> (r matches Err(e)
                && e == MobileImageMounterError::spec_from_code(status)) && same_cells(
                *old(t),
                *final(t),
            )),
            (old(t).chain_alive(service.pointer.index()) && status == 0 ==> (r matches Ok(m)
                && m.pointer.valid(*final(t))
                && m.pointer.index() == old(t).len()
                && final(t).len() == old(t).len() + 1
                && final(t).cell_alive(m.pointer.index())
                && final(t).cell_value(m.pointer.index()) == mounter_handle
                && final(t).parent_of(m.pointer.index()) == Some(service.pointer.index())
                && (forall|j: int|
                    old(t).valid_index(j) ==> #[trigger] cell_same(*old(t), *final(t), j)))),
    {
        if service.pointer.check(t).is_err() {
            return Err(MobileImageMounterError::MissingObjectDependency);
        }
        let code = MobileImageMounterError::from_code(status);
        if !matches!(code, MobileImageMounterError::Success) {
            return Err(code);
        }
        let pointer = Lock::new(t, mounter_handle, Some(service.pointer));
        Ok(MobileImageMounter { pointer })
    }

    /// The first phase of uploading a disk image. Both payloads must
    /// already be fully in memory: a missing image fails with the payload
    /// error and a missing signature with the signature error, both before
    /// the chain is even consulted, and only when both are present and the
    /// whole chain is alive does the call assembly succeed — so a native
    /// upload can only ever run with a checked handle and complete buffers.
    pub fn upload_image(
        &self,
        t: &CellTable,
        image: Option<Vec<u8>>,
        image_type: String,
        signature: Option<Vec<u8>>,
    ) -> (r: Result<UploadCall, MobileImageMounterError>)
        requires
            t.wf(),
            self.pointer.valid(*t),
        ensures
            (image is None ==> (r matches Err(e) && e == MobileImageMounterError::DmgNotFound)),
            (image is Some && signature is None ==> (r matches Err(e)
                && e == MobileImageMounterError::SignatureNotFound)),
            (image is Some && signature is Some && !t.chain_alive(self.pointer.index()) ==> (
            r matches Err(e) && e == MobileImageMounterError::MissingObjectDependency)),
            (image is Some && signature is Some && t.chain_alive(self.pointer.index()) ==> (
            r matches Ok(call)
                && call.handle == t.cell_value(self.pointer.index())
                && call.image@ == image->Some_0@
                && call.signature@ == signature->Some_0@
                && (match call.image_type {
                Some(s) => s@ == image_type@ && image_type@.len() > 0,
                None => image_type@.len() == 0,
            }))),
    {
        let image = match image {
            Some(b) => b,
            None => {
                return Err(MobileImageMounterError::DmgNotFound);
            }
        };
        let signature = match signature {
            Some(b) => b,
            None => {
                return Err(MobileImageMounterError::SignatureNotFound);
            }
        };
        let handle = match self.pointer.check(t) {
            Ok(h) => h,
            Err(_) => {
                return Err(MobileImageMounterError::MissingObjectDependency);
            }
        };
        Ok(UploadCall { handle, image, image_type: nonempty_or_none(image_type), signature })
    }

    /// The finishing phase of an upload: translates the native status.
    pub fn finish_upload(status: i32) -> (r: Result<(), MobileImageMounterError>)
        ensures
            status == 0 ==> r == Ok::<(), MobileImageMounterError>(()),
            status != 0 ==> (r matches Err(e) && e == MobileImageMounterError::spec_from_code(
                status,
            )),
    {
        let code = MobileImageMounterError::from_code(status);
        if matches!(code, MobileImageMounterError::Success) {
            Ok(())
        } else {
            Err(code)
        }
    }

    /// The first phase of mounting an uploaded image on the device: checks
    /// the whole ancestor chain, then assembles the native mount call's
    /// arguments unchanged.
    pub fn mount_image(
        &self,
        t: &CellTable,
        name: String,
        image_path: String,
        image_type: String,
        signature_path: String,
    ) -> (r: Result<MountCall, MobileImageMounterError>)
        requires
            t.wf(),
            self.pointer.valid(*t),
        ensures
            r is Ok <==> t.chain_alive(self.pointer.index()),
            (r matches Err(e) ==> e == MobileImageMounterError::MissingObjectDependency),
            (r matches Ok(call) ==> call.handle == t.cell_value(self.pointer.index())
                && call.name@ == name@
                && call.image_path@ == image_path@
                && call.image_type@ == image_type@
                && call.signature_path@ == signature_path@),
    {
        let handle = match self.pointer.check(t) {
            Ok(h) => h,
            Err(_) => {
                return Err(MobileImageMounterError::MissingObjectDependency);
            }
        };
        Ok(MountCall { handle, name, image_path, image_type, signature_path })
    }

    /// The finishing phase of a mount: translates the native status and, on
    /// success, wraps the result property list the device reported.
    pub fn finish_mount(status: i32, result: u64) -> (r: Result<Plist, MobileImageMounterError>)
        ensures
            status == 0 ==> r == Ok::<Plist, MobileImageMounterError>((Plist { pointer: result })),
            status != 0 ==> (r matches Err(e) && e == MobileImageMounterError::spec_from_code(
                status,
            )),
    {
        let code = MobileImageMounterError::from_code(status);
        if matches!(code, MobileImageMounterError::Success) {
            Ok(Plist { pointer: result })
        } else {
            Err(code)
        }
    }

    /// The scoped release path of a mounter; local to its own cell, exactly
    /// as the client's.
    pub fn release(&self, t: &mut CellTable) -> (r: Option<u64>)
        requires
            old(t).wf(),
            self.pointer.valid(*old(t)),
        ensures
            final(t).wf(),
            r == (if old(t).chain_alive(self.pointer.index()) {
                Some(old(t).cell_value(self.pointer.index()))
            } else {
                None::<u64>
            }),
            invalidated_at(*old(t), *final(t), self.pointer.index()),
            preserves_dead(*old(t), *final(t)),
            !final(t).chain_alive(self.pointer.index()),
    {
        self.pointer.release(t)
    }
}

} // verus!

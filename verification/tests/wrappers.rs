// Tests of the wrapper objects: construction chained under a parent,
// operations guarded by the validity check, error translation, and the
// release paths.

use lockdownd::error::{LockdowndError, MobileImageMounterError};
use lockdownd::lockdownd::{Device, LockdowndClient, MobileImageMounter, Plist};
use lockdownd::memory_lock::CellTable;

fn live_client(t: &mut CellTable) -> (Device, LockdowndClient) {
    let device = Device::new(t, 100);
    let client = LockdowndClient::new(t, &device, String::from("label"), 0, 200).unwrap();
    (device, client)
}

fn live_mounter(t: &mut CellTable) -> (Device, LockdowndClient, MobileImageMounter) {
    let (device, client) = live_client(t);
    let service = client
        .finish_start_service(t, String::from("com.apple.mobile_image_mounter"), 0, 300)
        .unwrap();
    let mounter = MobileImageMounter::new(t, &service, 0, 400).unwrap();
    (device, client, mounter)
}

#[test]
fn client_construction_needs_a_live_device() {
    let mut t = CellTable::new();
    let device = Device::new(&mut t, 100);
    assert_eq!(LockdowndClient::prepare(&t, &device).ok(), Some(100));
    device.pointer.invalidate(&mut t);
    assert_eq!(
        LockdowndClient::prepare(&t, &device),
        Err(LockdowndError::MissingObjectDependency)
    );
    let r = LockdowndClient::new(&mut t, &device, String::from("x"), 0, 200);
    assert!(matches!(r, Err(LockdowndError::MissingObjectDependency)));
}

#[test]
fn failed_handshake_is_translated_and_wraps_nothing() {
    let mut t = CellTable::new();
    let device = Device::new(&mut t, 100);
    let r = LockdowndClient::new(&mut t, &device, String::from("x"), -8, 200);
    assert!(matches!(r, Err(LockdowndError::MuxError)));
}

#[test]
fn get_value_maps_empty_strings_to_null_arguments() {
    let mut t = CellTable::new();
    let (_device, client) = live_client(&mut t);
    let call = client
        .get_value(&t, String::from("ProductVersion"), String::new())
        .unwrap_or_else(|_| panic!("live chain"));
    assert_eq!(call.handle, 200);
    assert_eq!(call.domain, None);
    assert_eq!(call.key.as_deref(), Some("ProductVersion"));
}

#[test]
fn get_value_after_device_release_reports_the_dependency() {
    let mut t = CellTable::new();
    let (device, client) = live_client(&mut t);
    assert_eq!(device.pointer.release(&mut t), Some(100));
    let r = client.get_value(&t, String::from("k"), String::from("d"));
    assert!(matches!(r, Err(LockdowndError::MissingObjectDependency)));
}

#[test]
fn finish_get_value_translates_the_status() {
    assert_eq!(
        LockdowndClient::finish_get_value(0, 77),
        Ok(Plist { pointer: 77 })
    );
    assert_eq!(
        LockdowndClient::finish_get_value(-3, 77),
        Err(LockdowndError::PlistError)
    );
}

#[test]
fn started_service_is_chained_under_the_client() {
    let mut t = CellTable::new();
    let (_device, client) = live_client(&mut t);
    let call = client
        .start_service(&t, String::from("svc"))
        .unwrap_or_else(|_| panic!("live chain"));
    assert_eq!(call.handle, 200);
    assert_eq!(call.label.as_deref(), Some("svc"));
    let service = client
        .finish_start_service(&mut t, String::from("svc"), 0, 300)
        .unwrap();
    assert_eq!(service.label, "svc");
    assert_eq!(service.port, 0);
    assert_eq!(service.pointer.check(&t).ok(), Some(300));
    // releasing the client kills the service's chain, not its own cell only
    client.release(&mut t);
    assert!(service.pointer.check(&t).is_err());
}

#[test]
fn parent_release_is_detected_lazily_by_the_child() {
    let mut t = CellTable::new();
    let device = Device::new(&mut t, 100);
    let client = LockdowndClient::new(&mut t, &device, String::from("x"), 0, 200).unwrap();
    // child checks fine while the whole chain is alive, and returns its own
    // handle
    assert_eq!(client.pointer.check(&t).ok(), Some(200));
    // release the parent: the child's own cell was never touched, yet its
    // next check fails with the dependency error
    assert_eq!(device.pointer.release(&mut t), Some(100));
    let r = client.get_value(&t, String::from("k"), String::new());
    assert!(matches!(r, Err(LockdowndError::MissingObjectDependency)));
    // releasing the child afterwards skips the native free but still leaves
    // it released for good
    assert_eq!(client.release(&mut t), None);
    assert!(client.pointer.check(&t).is_err());
}

#[test]
fn upload_without_payload_fails_before_any_native_work() {
    let mut t = CellTable::new();
    let (_device, _client, mounter) = live_mounter(&mut t);
    // a missing payload is reported as such, and no call arguments — the
    // only thing a native invocation could run with — are ever produced
    let r = mounter.upload_image(&t, None, String::from("Developer"), Some(vec![1, 2]));
    assert!(matches!(r, Err(MobileImageMounterError::DmgNotFound)));
    let r = mounter.upload_image(&t, Some(vec![1, 2]), String::from("Developer"), None);
    assert!(matches!(r, Err(MobileImageMounterError::SignatureNotFound)));
}

#[test]
fn upload_with_both_payloads_checks_the_chain() {
    let mut t = CellTable::new();
    let (device, _client, mounter) = live_mounter(&mut t);
    let call = mounter
        .upload_image(
            &t,
            Some(vec![1, 2, 3]),
            String::from("Developer"),
            Some(vec![9]),
        )
        .unwrap_or_else(|_| panic!("live chain"));
    assert_eq!(call.handle, 400);
    assert_eq!(call.image, vec![1, 2, 3]);
    assert_eq!(call.signature, vec![9]);
    assert_eq!(call.image_type.as_deref(), Some("Developer"));
    // an empty image type becomes the native null argument
    let call = mounter
        .upload_image(&t, Some(vec![1]), String::new(), Some(vec![2]))
        .unwrap_or_else(|_| panic!("live chain"));
    assert_eq!(call.image_type, None);
    // payload errors take precedence, but a dead chain fails the rest
    device.pointer.invalidate(&mut t);
    let r = mounter.upload_image(&t, Some(vec![1]), String::new(), Some(vec![2]));
    assert!(matches!(r, Err(MobileImageMounterError::MissingObjectDependency)));
    let r = mounter.upload_image(&t, None, String::new(), Some(vec![2]));
    assert!(matches!(r, Err(MobileImageMounterError::DmgNotFound)));
}

#[test]
fn finish_upload_translates_the_status() {
    assert_eq!(MobileImageMounter::finish_upload(0), Ok(()));
    assert_eq!(
        MobileImageMounter::finish_upload(-5),
        Err(MobileImageMounterError::DeviceLocked)
    );
    assert_eq!(
        MobileImageMounter::finish_upload(-77),
        Err(MobileImageMounterError::Unknown)
    );
}

#[test]
fn mount_image_assembles_the_call_on_a_live_chain() {
    let mut t = CellTable::new();
    let (_device, _client, mounter) = live_mounter(&mut t);
    let call = mounter
        .mount_image(
            &t,
            String::from("Developer"),
            String::from("/tmp/dev.dmg"),
            String::from("Developer"),
            String::from("/tmp/dev.dmg.signature"),
        )
        .unwrap_or_else(|_| panic!("live chain"));
    assert_eq!(call.handle, 400);
    assert_eq!(call.name, "Developer");
    assert_eq!(call.image_path, "/tmp/dev.dmg");
    assert_eq!(call.image_type, "Developer");
    assert_eq!(call.signature_path, "/tmp/dev.dmg.signature");
    mounter.release(&mut t);
    let r = mounter.mount_image(
        &t,
        String::from("n"),
        String::from("i"),
        String::from("t"),
        String::from("s"),
    );
    assert!(matches!(r, Err(MobileImageMounterError::MissingObjectDependency)));
}

#[test]
fn finish_mount_translates_the_status() {
    assert_eq!(
        MobileImageMounter::finish_mount(0, 55),
        Ok(Plist { pointer: 55 })
    );
    assert_eq!(
        MobileImageMounter::finish_mount(-1, 55),
        Err(MobileImageMounterError::InvalidArg)
    );
}

#[test]
fn every_native_code_has_its_fixed_translation() {
    assert_eq!(LockdowndError::from_code(0), LockdowndError::Success);
    assert_eq!(LockdowndError::from_code(-1), LockdowndError::InvalidArg);
    assert_eq!(LockdowndError::from_code(-2), LockdowndError::InvalidConf);
    assert_eq!(LockdowndError::from_code(-3), LockdowndError::PlistError);
    assert_eq!(LockdowndError::from_code(-4), LockdowndError::PairingFailed);
    assert_eq!(LockdowndError::from_code(-5), LockdowndError::SslError);
    assert_eq!(LockdowndError::from_code(-6), LockdowndError::DictError);
    assert_eq!(LockdowndError::from_code(-7), LockdowndError::ReceiveTimeout);
    assert_eq!(LockdowndError::from_code(-8), LockdowndError::MuxError);
    assert_eq!(LockdowndError::from_code(-9), LockdowndError::NoRunningSession);
    assert_eq!(LockdowndError::from_code(-10), LockdowndError::InvalidResponse);
    assert_eq!(LockdowndError::from_code(-256), LockdowndError::Unknown);
    assert_eq!(
        MobileImageMounterError::from_code(0),
        MobileImageMounterError::Success
    );
    assert_eq!(
        MobileImageMounterError::from_code(-1),
        MobileImageMounterError::InvalidArg
    );
    assert_eq!(
        MobileImageMounterError::from_code(-2),
        MobileImageMounterError::PlistError
    );
    assert_eq!(
        MobileImageMounterError::from_code(-3),
        MobileImageMounterError::ConnFailed
    );
    assert_eq!(
        MobileImageMounterError::from_code(-4),
        MobileImageMounterError::CommandFailed
    );
    assert_eq!(
        MobileImageMounterError::from_code(-5),
        MobileImageMounterError::DeviceLocked
    );
    assert_eq!(
        MobileImageMounterError::from_code(-256),
        MobileImageMounterError::Unknown
    );
}

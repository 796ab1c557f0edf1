use registry::error::Error;
use registry::hive::Hive;
use registry::key::RegKey;
use registry::path::EncodedPath;
use registry::sec::Security;

#[test]
fn new_key_is_open_and_remembers_where_it_came_from() {
    let path = EncodedPath::from_str("Software\\ExampleApp").unwrap();
    let key = RegKey::new(Hive::CurrentUser, 0x1234, path);
    assert!(key.is_open());
    assert_eq!(key.hive(), Hive::CurrentUser);
    assert_eq!(key.handle(), Some(0x1234));
    assert_eq!(
        key.path(),
        &EncodedPath::from_str("Software\\ExampleApp").unwrap()
    );
}

#[test]
fn close_hands_the_handle_out_once() {
    let path = EncodedPath::from_str("Software").unwrap();
    let mut key = RegKey::new(Hive::LocalMachine, 42, path);
    assert_eq!(key.close(), Some(42));
    assert!(!key.is_open());
    assert_eq!(key.handle(), None);
    assert_eq!(key.close(), None);
    assert_eq!(key.close(), None);
    assert!(!key.is_open());
}

#[test]
fn closed_key_keeps_hive_and_path() {
    let path = EncodedPath::from_str("Software").unwrap();
    let mut key = RegKey::new(Hive::Users, -7, path);
    key.close();
    assert_eq!(key.hive(), Hive::Users);
    assert_eq!(key.path().as_units(), &vec![83u16, 111, 102, 116, 119, 97, 114, 101]);
}

#[test]
fn finish_with_success_gives_the_open_key() {
    let sec = Security::from_bits(0x20019);
    let req = Hive::CurrentUser.open("Software\\ExampleApp", sec).unwrap();
    let key = req.finish(0, 99).unwrap();
    assert!(key.is_open());
    assert_eq!(key.handle(), Some(99));
    assert_eq!(key.hive(), Hive::CurrentUser);
    assert_eq!(
        key.path(),
        &EncodedPath::from_str("Software\\ExampleApp").unwrap()
    );
}

#[test]
fn finish_with_a_failure_gives_the_error_of_the_status() {
    let sec = Security::from_bits(0x20019);
    let req = Hive::CurrentUser.open("Software\\Missing", sec).unwrap();
    assert_eq!(req.finish(2, 0).err(), Some(Error::NotFound(2)));
    let req = Hive::LocalMachine.create("SAM\\Locked", sec).unwrap();
    assert_eq!(req.finish(5, 0).err(), Some(Error::PermissionDenied(5)));
    let req = Hive::LocalMachine.create("SAM\\Locked", sec).unwrap();
    assert_eq!(req.finish(1450, 17).err(), Some(Error::Unknown(1450)));
}

#[test]
fn security_is_a_plain_mask() {
    let sec = Security::from_bits(0xF003F);
    assert_eq!(sec.bits(), 0xF003F);
    assert_eq!(sec, Security { bits: 0xF003F });
    assert_eq!(Security::from_bits(0).bits(), 0);
    assert_eq!(Security::from_bits(u32::MAX).bits(), u32::MAX);
}

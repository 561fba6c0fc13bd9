use pamusb::config::{Config, DeviceConfig, PerUserConfig};
use pamusb::io_error::{IoError, IoErrorKind};
use pamusb::key::{Key, Rng, KEY_LEGNTH};
use pamusb::partition::DeviceInfo;
use pamusb::usb_check::{Action, ConfigError, Stage, UsbCheck, UsbCheckError};

struct FixedRng(u8);

impl Rng for FixedRng {
    fn getrandom(&mut self, buf: &mut [u8]) -> Result<(), IoError> {
        for b in buf.iter_mut() {
            *b = self.0;
        }
        Ok(())
    }
}

struct BrokenRng;

impl Rng for BrokenRng {
    fn getrandom(&mut self, _buf: &mut [u8]) -> Result<(), IoError> {
        Err(io("entropy pool broken"))
    }
}

fn io(msg: &str) -> IoError {
    IoError::new(IoErrorKind::Other, msg.to_string())
}

fn config() -> Config {
    let mut c = Config::new();
    c.insert(
        "alice".to_string(),
        PerUserConfig { devices: vec![DeviceConfig { uuid: "1234-abcd".to_string() }] },
    );
    c
}

fn nodename(name: &[u8]) -> Vec<u8> {
    let mut v = name.to_vec();
    v.resize(65, 0);
    v
}

fn devices() -> Vec<DeviceInfo> {
    vec![DeviceInfo {
        devtype: Some(b"partition".to_vec()),
        partuuid: Some(b"1234-abcd".to_vec()),
        devnode: Some(b"/dev/sdb1".to_vec()),
        fs_type: Some(b"vfat".to_vec()),
    }]
}

fn key(b: u8) -> Key {
    Key::from_bytes([b; KEY_LEGNTH])
}

fn finish_result(a: Action) -> Result<bool, UsbCheckError> {
    match a {
        Action::Finish { result } => result,
        _ => panic!("expected the attempt to be over"),
    }
}

/// Runs an attempt up to the comparison of the keys.
fn run_to_device_key(system: u8) -> (UsbCheck, Action) {
    let (mut c, a) = UsbCheck::start("alice".to_string(), "/etc/pamusb.toml".to_string());
    match a {
        Action::LoadConfig { path } => assert_eq!(path, "/etc/pamusb.toml"),
        _ => panic!("expected LoadConfig"),
    }
    assert!(matches!(c.config_loaded(Ok(config())), Action::GetHostname));
    assert!(matches!(c.hostname_received(Ok(nodename(b"myhost"))), Action::FindPartition));
    match c.partitions_scanned(Ok(devices())) {
        Action::Mount { devnode, fs_type } => {
            assert_eq!(devnode, b"/dev/sdb1".to_vec());
            assert_eq!(fs_type, b"vfat".to_vec());
        },
        _ => panic!("expected Mount"),
    }
    match c.mounted(Ok("/tmp/AbCdEfGh12345678".to_string())) {
        Action::ReadSystemKey { path } => {
            assert_eq!(path.dir, "/etc/security/pamusb");
            assert_eq!(path.file_name, "alice.1234-abcd.key");
        },
        _ => panic!("expected ReadSystemKey"),
    }
    let a = c.system_key_read(Ok(key(system)));
    match &a {
        Action::ReadDeviceKey { path } => {
            assert_eq!(path.dir, "/tmp/AbCdEfGh12345678");
            assert_eq!(path.file_name, ".pamusb/alice.myhost.key");
        },
        _ => panic!("expected ReadDeviceKey"),
    }
    (c, a)
}

#[test]
fn matching_keys_authenticate_and_rotate() {
    let (mut c, _) = run_to_device_key(42);
    assert!(matches!(c.device_key_read(Ok(key(42))), Action::RegenerateKeys));
    assert!(c.current_stage() == Stage::KeysMatch);
    match c.regenerate_keys(&mut FixedRng(9)) {
        Action::WriteSystemKey { path } => {
            assert_eq!(path.dir, "/etc/security/pamusb");
            assert_eq!(path.file_name, "alice.1234-abcd.key");
        },
        _ => panic!("expected WriteSystemKey"),
    }
    assert!(Key::check(c.system_key(), &key(9)));
    assert!(Key::check(c.device_key(), &key(9)));
    match c.system_key_written(Ok(())) {
        Action::WriteDeviceKey { path } => {
            assert_eq!(path.dir, "/tmp/AbCdEfGh12345678");
            assert_eq!(path.file_name, ".pamusb/alice.myhost.key");
        },
        _ => panic!("expected WriteDeviceKey"),
    }
    assert!(matches!(finish_result(c.device_key_written(Ok(()))), Ok(true)));
    assert!(c.current_stage() == Stage::Finished);
    c.wipe_keys();
    assert!(Key::check(c.system_key(), &Key::zeroes()));
    assert!(Key::check(c.device_key(), &Key::zeroes()));
}

#[test]
fn different_keys_refuse() {
    let (mut c, _) = run_to_device_key(42);
    assert!(matches!(finish_result(c.device_key_read(Ok(key(43)))), Ok(false)));
    assert!(c.current_stage() == Stage::Finished);
}

#[test]
fn unknown_user_is_refused() {
    let (mut c, _) = UsbCheck::start("mallory".to_string(), "cfg".to_string());
    assert!(matches!(finish_result(c.config_loaded(Ok(config()))), Ok(false)));
}

#[test]
fn config_errors_stop_the_attempt() {
    let (mut c, _) = UsbCheck::start("alice".to_string(), "cfg".to_string());
    match finish_result(c.config_loaded(Err(ConfigError::Read(io("missing"))))) {
        Err(UsbCheckError::Config(ConfigError::Read(e))) => assert_eq!(e.message, "missing"),
        _ => panic!("expected a config read error"),
    }
    let (mut c, _) = UsbCheck::start("alice".to_string(), "cfg".to_string());
    match finish_result(c.config_loaded(Err(ConfigError::Parse("bad toml".to_string())))) {
        Err(UsbCheckError::Config(ConfigError::Parse(m))) => assert_eq!(m, "bad toml"),
        _ => panic!("expected a config parse error"),
    }
}

#[test]
fn hostname_errors_stop_the_attempt() {
    let (mut c, _) = UsbCheck::start("alice".to_string(), "cfg".to_string());
    c.config_loaded(Ok(config()));
    assert!(matches!(
        finish_result(c.hostname_received(Ok(nodename(&[0x66, 0xff, 0xfe])))),
        Err(UsbCheckError::InvalidHostname)
    ));
    let (mut c, _) = UsbCheck::start("alice".to_string(), "cfg".to_string());
    c.config_loaded(Ok(config()));
    assert!(matches!(
        finish_result(c.hostname_received(Err(io("uname")))),
        Err(UsbCheckError::Hostname(_))
    ));
}

#[test]
fn missing_partition_is_refused_and_scan_errors_stop() {
    let (mut c, _) = UsbCheck::start("alice".to_string(), "cfg".to_string());
    c.config_loaded(Ok(config()));
    c.hostname_received(Ok(nodename(b"h")));
    assert!(matches!(finish_result(c.partitions_scanned(Ok(vec![]))), Ok(false)));
    let (mut c, _) = UsbCheck::start("alice".to_string(), "cfg".to_string());
    c.config_loaded(Ok(config()));
    c.hostname_received(Ok(nodename(b"h")));
    assert!(matches!(
        finish_result(c.partitions_scanned(Err(io("udev")))),
        Err(UsbCheckError::PartitionSearch(_))
    ));
}

#[test]
fn mount_and_key_read_errors_stop() {
    let (mut c, _) = UsbCheck::start("alice".to_string(), "cfg".to_string());
    c.config_loaded(Ok(config()));
    c.hostname_received(Ok(nodename(b"h")));
    c.partitions_scanned(Ok(devices()));
    assert!(matches!(finish_result(c.mounted(Err(io("mount")))), Err(UsbCheckError::Mount(_))));
    let (mut c, _) = UsbCheck::start("alice".to_string(), "cfg".to_string());
    c.config_loaded(Ok(config()));
    c.hostname_received(Ok(nodename(b"h")));
    c.partitions_scanned(Ok(devices()));
    c.mounted(Ok("/tmp/x".to_string()));
    assert!(matches!(
        finish_result(c.system_key_read(Err(io("no key")))),
        Err(UsbCheckError::ReadSystemKey(_))
    ));
    let (mut c, _) = run_to_device_key(1);
    assert!(matches!(
        finish_result(c.device_key_read(Err(io("no key")))),
        Err(UsbCheckError::ReadDeviceKey(_))
    ));
}

#[test]
fn keygen_and_write_errors_stop() {
    let (mut c, _) = run_to_device_key(5);
    c.device_key_read(Ok(key(5)));
    assert!(matches!(finish_result(c.regenerate_keys(&mut BrokenRng)), Err(UsbCheckError::Keygen(_))));
    let (mut c, _) = run_to_device_key(5);
    c.device_key_read(Ok(key(5)));
    c.regenerate_keys(&mut FixedRng(1));
    assert!(matches!(
        finish_result(c.system_key_written(Err(io("ro")))),
        Err(UsbCheckError::WriteSystemKey(_))
    ));
    let (mut c, _) = run_to_device_key(5);
    c.device_key_read(Ok(key(5)));
    c.regenerate_keys(&mut FixedRng(1));
    c.system_key_written(Ok(()));
    assert!(matches!(
        finish_result(c.device_key_written(Err(io("ro")))),
        Err(UsbCheckError::WriteDeviceKey(_))
    ));
}

#[test]
fn error_messages() {
    assert_eq!(UsbCheckError::InvalidHostname.message(), "Bad hostname");
    assert_eq!(
        UsbCheckError::Mount(io("No such device")).message(),
        "Failed to mount partition: No such device"
    );
    assert_eq!(
        UsbCheckError::Config(ConfigError::Parse("expected `=`".to_string())).message(),
        "Failed to get config: expected `=`"
    );
}

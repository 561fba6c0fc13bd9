use vstd::prelude::*;
use vstd::utf8::{decode_utf8, valid_utf8};
use crate::config::Config;
use crate::io_error::IoError;
use crate::key::{Key, Rng};
use crate::partition::{find_partition_by_uuids, is_found_partition, device_matches, DeviceInfo, Partition};
use crate::text::{c_string_bytes, has_zero, is_c_string_end, push_text, utf8_string};

verus! {

/// Why the configuration could not be obtained.
pub enum ConfigError {
    /// The file could not be read.
    Read(IoError),
    /// The file is not a valid configuration; the parser's message.
    Parse(String),
}

/// Why an authentication attempt failed with an error (as opposed to a
/// plain refusal).
pub enum UsbCheckError {
    Config(ConfigError),
    Hostname(IoError),
    /// The host name is not valid UTF-8.
    InvalidHostname,
    PartitionSearch(IoError),
    Mount(IoError),
    ReadSystemKey(IoError),
    ReadDeviceKey(IoError),
    Keygen(IoError),
    WriteSystemKey(IoError),
    WriteDeviceKey(IoError),
}

/// The sentence that names the step an error stopped.
pub open spec fn error_context(e: UsbCheckError) -> Seq<char> {
    match e {
        UsbCheckError::Config(_) => "Failed to get config"@,
        UsbCheckError::Hostname(_) => "Failed to get hostname"@,
        UsbCheckError::InvalidHostname => "Bad hostname"@,
        UsbCheckError::PartitionSearch(_) => "Error searching for relevant partition"@,
        UsbCheckError::Mount(_) => "Failed to mount partition"@,
        UsbCheckError::ReadSystemKey(_) => "Failed to read system key"@,
        UsbCheckError::ReadDeviceKey(_) => "Failed to read device key"@,
        UsbCheckError::Keygen(_) => "Failed to generate keys"@,
        UsbCheckError::WriteSystemKey(_) => "Failed to update system key file"@,
        UsbCheckError::WriteDeviceKey(_) => "Failed to update device key file"@,
    }
}

/// The underlying failure's description, if the error has one.
pub open spec fn error_source(e: UsbCheckError) -> Option<Seq<char>> {
    match e {
        UsbCheckError::Config(ConfigError::Read(io)) => Some(io.message@),
        UsbCheckError::Config(ConfigError::Parse(m)) => Some(m@),
        UsbCheckError::Hostname(io) => Some(io.message@),
        UsbCheckError::InvalidHostname => None,
        UsbCheckError::PartitionSearch(io) => Some(io.message@),
        UsbCheckError::Mount(io) => Some(io.message@),
        UsbCheckError::ReadSystemKey(io) => Some(io.message@),
        UsbCheckError::ReadDeviceKey(io) => Some(io.message@),
        UsbCheckError::Keygen(io) => Some(io.message@),
        UsbCheckError::WriteSystemKey(io) => Some(io.message@),
        UsbCheckError::WriteDeviceKey(io) => Some(io.message@),
    }
}

impl UsbCheckError {
    fn context(&self) -> (s: &'static str)
        ensures
            s@ == error_context(*self),
    {
        match self {
            UsbCheckError::Config(_) => "Failed to get config",
            UsbCheckError::Hostname(_) => "Failed to get hostname",
            UsbCheckError::InvalidHostname => "Bad hostname",
            UsbCheckError::PartitionSearch(_) => "Error searching for relevant partition",
            UsbCheckError::Mount(_) => "Failed to mount partition",
            UsbCheckError::ReadSystemKey(_) => "Failed to read system key",
            UsbCheckError::ReadDeviceKey(_) => "Failed to read device key",
            UsbCheckError::Keygen(_) => "Failed to generate keys",
            UsbCheckError::WriteSystemKey(_) => "Failed to update system key file",
            UsbCheckError::WriteDeviceKey(_) => "Failed to update device key file",
        }
    }

    fn source_text(&self) -> (s: Option<&str>)
        ensures
            match error_source(*self) {
                Some(m) => s matches Some(t) && t@ == m,
                None => s is None,
            },
    {
        match self {
            UsbCheckError::Config(ConfigError::Read(io)) => Some(io.message.as_str()),
            UsbCheckError::Config(ConfigError::Parse(m)) => Some(m.as_str()),
            UsbCheckError::Hostname(io) => Some(io.message.as_str()),
            UsbCheckError::InvalidHostname => None,
            UsbCheckError::PartitionSearch(io) => Some(io.message.as_str()),
            UsbCheckError::Mount(io) => Some(io.message.as_str()),
            UsbCheckError::ReadSystemKey(io) => Some(io.message.as_str()),
            UsbCheckError::ReadDeviceKey(io) => Some(io.message.as_str()),
            UsbCheckError::Keygen(io) => Some(io.message.as_str()),
            UsbCheckError::WriteSystemKey(io) => Some(io.message.as_str()),
            UsbCheckError::WriteDeviceKey(io) => Some(io.message.as_str()),
        }
    }

    /// The error as a sentence: the step that failed, then, after a colon,
    /// the underlying failure where there is one.
    pub fn message(&self) -> (s: String)
        ensures
            s@ == match error_source(*self) {
                Some(m) => error_context(*self) + ": "@ + m,
                None => error_context(*self),
            },
    {
        let mut s = String::new();
        push_text(&mut s, self.context());
        match self.source_text() {
            Some(m) => {
                push_text(&mut s, ": ");
                push_text(&mut s, m);
            },
            None => {},
        }
        s
    }
}

/// A key file: the directory it lives in and its name relative to that
/// directory (the name may hold a subdirectory).
pub struct KeyPath {
    pub dir: String,
    pub file_name: String,
}

/// What the caller is asked to do next.
pub enum Action {
    /// Read and parse the configuration file at `path`.
    LoadConfig { path: String },
    /// Obtain the machine's node name.
    GetHostname,
    /// Enumerate the block devices.
    FindPartition,
    /// Mount the partition with the given device node and file system type.
    Mount { devnode: Vec<u8>, fs_type: Vec<u8> },
    /// Read the system's key file.
    ReadSystemKey { path: KeyPath },
    /// Read the device's key file.
    ReadDeviceKey { path: KeyPath },
    /// Call `UsbCheck::regenerate_keys` with a random source.
    RegenerateKeys,
    /// Write `UsbCheck::system_key` to the system's key file.
    WriteSystemKey { path: KeyPath },
    /// Write `UsbCheck::device_key` to the device's key file.
    WriteDeviceKey { path: KeyPath },
    /// The attempt is over: `Ok(true)` if the user is authenticated,
    /// `Ok(false)` if not, or the error that stopped it.
    Finish { result: Result<bool, UsbCheckError> },
}

/// The step an authentication attempt has reached.
#[derive(PartialEq, Eq, Structural, Clone, Copy)]
pub enum Stage {
    AwaitConfig,
    AwaitHostname,
    AwaitPartitions,
    AwaitMount,
    AwaitSystemKey,
    AwaitDeviceKey,
    KeysMatch,
    AwaitSystemWrite,
    AwaitDeviceWrite,
    Finished,
}

/// The directory that holds the system's key files.
pub open spec fn system_key_dir() -> Seq<char> {
    "/etc/security/pamusb"@
}

/// The name of the system's key file for `user` and partition `uuid`.
pub open spec fn system_key_file(user: Seq<char>, uuid: Seq<char>) -> Seq<char> {
    user + "."@ + uuid + ".key"@
}

/// The name, relative to the mount point, of the device's key file for
/// `user` on host `hostname`.
pub open spec fn device_key_file(user: Seq<char>, hostname: Seq<char>) -> Seq<char> {
    ".pamusb/"@ + user + "."@ + hostname + ".key"@
}

/// One authentication attempt: reads the configuration, finds a configured
/// partition, mounts it, compares the system's key with the device's key
/// and, if they are equal, replaces both by one fresh random key.
///
/// Each method takes the outcome of the action the previous one asked for
/// and returns the next action.
pub struct UsbCheck {
    stage: Stage,
    user: String,
    config_path: String,
    uuids: Vec<String>,
    hostname: String,
    partition_uuid: String,
    mount_point: String,
    system_key: Key,
    device_key: Key,
    system_key_as_read: Ghost<Seq<u8>>,
    device_key_as_read: Ghost<Seq<u8>>,
    keys_matched: Ghost<bool>,
    keys_rotated: Ghost<bool>,
    rotated_key: Ghost<Seq<u8>>,
    system_written: Ghost<bool>,
    authenticated: Ghost<bool>,
}

impl UsbCheck {
    pub closed spec fn stage(&self) -> Stage {
        self.stage
    }

    /// The step the attempt has reached.
    pub fn current_stage(&self) -> (s: Stage)
        ensures
            s == self.stage(),
    {
        self.stage
    }

    pub closed spec fn user(&self) -> Seq<char> {
        self.user@
    }

    /// The UUIDs configured for the user (known from `AwaitHostname` on).
    pub closed spec fn uuids(&self) -> Seq<String> {
        self.uuids@
    }

    /// The host name (known from `AwaitPartitions` on).
    pub closed spec fn hostname(&self) -> Seq<char> {
        self.hostname@
    }

    /// The UUID of the partition found (known from `AwaitMount` on).
    pub closed spec fn partition_uuid(&self) -> Seq<char> {
        self.partition_uuid@
    }

    /// Where the partition is mounted (known from `AwaitSystemKey` on).
    pub closed spec fn mount_point(&self) -> Seq<char> {
        self.mount_point@
    }

    pub closed spec fn system_key_bytes(&self) -> Seq<u8> {
        self.system_key@
    }

    pub closed spec fn device_key_bytes(&self) -> Seq<u8> {
        self.device_key@
    }

    /// The system's key as it was read from its file.
    pub closed spec fn system_key_as_read(&self) -> Seq<u8> {
        self.system_key_as_read@
    }

    /// The device's key as it was read from its file.
    pub closed spec fn device_key_as_read(&self) -> Seq<u8> {
        self.device_key_as_read@
    }

    /// The key read from the system equalled the key read from the device.
    pub closed spec fn keys_matched(&self) -> bool {
        self.keys_matched@
    }

    /// Both keys were replaced by one fresh random key.
    pub closed spec fn keys_rotated(&self) -> bool {
        self.keys_rotated@
    }

    /// The fresh key both keys were replaced by (once `keys_rotated`).
    pub closed spec fn rotated_key(&self) -> Seq<u8> {
        self.rotated_key@
    }

    /// The new system key has been written.
    pub closed spec fn system_written(&self) -> bool {
        self.system_written@
    }

    /// The attempt ended with the user authenticated.
    pub closed spec fn authenticated(&self) -> bool {
        self.authenticated@
    }

    /// What holds in every state an attempt can reach.
    pub closed spec fn inv(&self) -> bool {
        &&& self.keys_matched@ ==> self.system_key_as_read@ == self.device_key_as_read@
            && self.system_key_as_read@.len() == crate::key::KEY_LEGNTH
        &&& (self.stage == Stage::AwaitDeviceKey) ==> self.system_key_as_read@ == self.system_key@
        &&& self.keys_rotated@ ==> self.keys_matched@
        &&& self.system_written@ ==> self.keys_rotated@
        &&& self.authenticated@ ==> self.system_written@
        &&& (self.stage == Stage::KeysMatch) ==> self.keys_matched@ && !self.keys_rotated@
        &&& (self.stage == Stage::AwaitSystemWrite) ==> self.keys_rotated@ && !self.system_written@
        &&& (self.stage == Stage::AwaitSystemWrite || self.stage == Stage::AwaitDeviceWrite)
            ==> self.system_key@ == self.device_key@ && self.system_key@ == self.rotated_key@
        &&& (self.stage == Stage::AwaitDeviceWrite) ==> self.system_written@
        &&& self.authenticated@ ==> self.stage == Stage::Finished
        &&& (self.stage != Stage::KeysMatch && self.stage != Stage::AwaitSystemWrite
            && self.stage != Stage::AwaitDeviceWrite && self.stage != Stage::Finished)
            ==> !self.keys_matched@
    }

    /// Starts an attempt to authenticate `user` against the configuration
    /// file at `config_path`; the first action is to load that file.
    pub fn start(user: String, config_path: String) -> (res: (UsbCheck, Action))
        ensures
            res.0.inv(),
            res.0.stage() == Stage::AwaitConfig,
            res.0.user() == user@,
            !res.0.authenticated(),
            res.1 matches Action::LoadConfig { path } && path@ == config_path@,
    {
        let path = config_path.clone();
        let c = UsbCheck {
            stage: Stage::AwaitConfig,
            user,
            config_path,
            uuids: Vec::new(),
            hostname: String::new(),
            partition_uuid: String::new(),
            mount_point: String::new(),
            system_key: Key::zeroes(),
            device_key: Key::zeroes(),
            system_key_as_read: Ghost(Seq::empty()),
            device_key_as_read: Ghost(Seq::empty()),
            keys_matched: Ghost(false),
            keys_rotated: Ghost(false),
            rotated_key: Ghost(Seq::empty()),
            system_written: Ghost(false),
            authenticated: Ghost(false),
        };
        (c, Action::LoadConfig { path })
    }

    fn finish(&mut self, result: Result<bool, UsbCheckError>) -> (a: Action)
        requires
            old(self).inv(),
            old(self).stage() != Stage::Finished,
            result matches Ok(true) ==> old(self).stage() == Stage::AwaitDeviceWrite,
        ensures
            final(self).stage() == Stage::Finished,
            final(self).user() == old(self).user(),
            final(self).uuids() == old(self).uuids(),
            final(self).hostname() == old(self).hostname(),
            final(self).partition_uuid() == old(self).partition_uuid(),
            final(self).mount_point() == old(self).mount_point(),
            final(self).system_key_bytes() == old(self).system_key_bytes(),
            final(self).device_key_bytes() == old(self).device_key_bytes(),
            final(self).system_key_as_read() == old(self).system_key_as_read(),
            final(self).device_key_as_read() == old(self).device_key_as_read(),
            final(self).authenticated() == (result matches Ok(true)),
            (result matches Ok(true)) ==> final(self).keys_matched() && final(self).keys_rotated()
                && final(self).system_written(),
            final(self).inv(),
            a == (Action::Finish { result }),
    {
        let ok = match &result {
            Ok(b) => *b,
            Err(_) => false,
        };
        self.stage = Stage::Finished;
        if !ok {
            self.keys_matched = Ghost(false);
            self.keys_rotated = Ghost(false);
            self.system_written = Ghost(false);
        }
        self.authenticated = Ghost(ok);
        Action::Finish { result }
    }

    /// Takes the configuration. A user without an entry is refused; for
    /// a configured user the next action is to get the host name.
    pub fn config_loaded(&mut self, config: Result<Config, ConfigError>) -> (a: Action)
        requires
            old(self).inv(),
            old(self).stage() == Stage::AwaitConfig,
        ensures
            final(self).inv(),
            final(self).user() == old(self).user(),
            !final(self).authenticated(),
            match config {
                Err(e) => final(self).stage() == Stage::Finished && a == (Action::Finish {
                    result: Err(UsbCheckError::Config(e)),
                }),
                Ok(c) => if c.users_map().contains_key(old(self).user()) {
                    &&& final(self).stage() == Stage::AwaitHostname
                    &&& final(self).uuids().map_values(|s: String| s@) == c.users_map()[old(
                        self,
                    ).user()]
                    &&& a is GetHostname
                } else {
                    final(self).stage() == Stage::Finished && a == (Action::Finish {
                        result: Ok(false),
                    })
                },
            },
    {
        match config {
            Err(e) => self.finish(Err(UsbCheckError::Config(e))),
            Ok(c) => {
                match c.get(self.user.as_str()) {
                    None => self.finish(Ok(false)),
                    Some(per_user) => {
                        self.uuids = per_user.device_uuids();
                        self.stage = Stage::AwaitHostname;
                        Action::GetHostname
                    },
                }
            },
        }
    }

    /// Takes the machine's node name, a buffer that holds a zero-terminated
    /// string. A name that is not UTF-8 is an error; otherwise the next
    /// action is to enumerate the block devices.
    pub fn hostname_received(&mut self, nodename: Result<Vec<u8>, IoError>) -> (a: Action)
        requires
            old(self).inv(),
            old(self).stage() == Stage::AwaitHostname,
            nodename matches Ok(buf) ==> has_zero(buf@),
        ensures
            final(self).inv(),
            final(self).user() == old(self).user(),
            final(self).uuids() == old(self).uuids(),
            !final(self).authenticated(),
            match nodename {
                Err(e) => final(self).stage() == Stage::Finished && a == (Action::Finish {
                    result: Err(UsbCheckError::Hostname(e)),
                }),
                Ok(buf) => exists|n: int|
                    is_c_string_end(buf@, n) && if valid_utf8(buf@.take(n)) {
                        &&& final(self).stage() == Stage::AwaitPartitions
                        &&& final(self).hostname() == decode_utf8(buf@.take(n))
                        &&& a is FindPartition
                    } else {
                        final(self).stage() == Stage::Finished && a == (Action::Finish {
                            result: Err(UsbCheckError::InvalidHostname),
                        })
                    },
            },
    {
        match nodename {
            Err(e) => self.finish(Err(UsbCheckError::Hostname(e))),
            Ok(buf) => {
                let bytes = c_string_bytes(buf.as_slice());
                match utf8_string(bytes) {
                    None => self.finish(Err(UsbCheckError::InvalidHostname)),
                    Some(name) => {
                        self.hostname = name;
                        self.stage = Stage::AwaitPartitions;
                        Action::FindPartition
                    },
                }
            },
        }
    }

    fn system_key_path(&self) -> (p: KeyPath)
        ensures
            p.dir@ == system_key_dir(),
            p.file_name@ == system_key_file(self.user(), self.partition_uuid()),
    {
        let dir = "/etc/security/pamusb".to_owned();
        let mut file_name = String::new();
        push_text(&mut file_name, self.user.as_str());
        push_text(&mut file_name, ".");
        push_text(&mut file_name, self.partition_uuid.as_str());
        push_text(&mut file_name, ".key");
        KeyPath { dir, file_name }
    }

    fn device_key_path(&self) -> (p: KeyPath)
        ensures
            p.dir@ == self.mount_point(),
            p.file_name@ == device_key_file(self.user(), self.hostname()),
    {
        let dir = self.mount_point.clone();
        let mut file_name = String::new();
        push_text(&mut file_name, ".pamusb/");
        push_text(&mut file_name, self.user.as_str());
        push_text(&mut file_name, ".");
        push_text(&mut file_name, self.hostname.as_str());
        push_text(&mut file_name, ".key");
        KeyPath { dir, file_name }
    }

    /// Takes the enumerated block devices. If none of them is a configured
    /// partition the user is refused; otherwise the next action is to
    /// mount the first one found.
    pub fn partitions_scanned(&mut self, devices: Result<Vec<DeviceInfo>, IoError>) -> (a: Action)
        requires
            old(self).inv(),
            old(self).stage() == Stage::AwaitPartitions,
        ensures
            final(self).inv(),
            final(self).user() == old(self).user(),
            final(self).hostname() == old(self).hostname(),
            !final(self).authenticated(),
            match devices {
                Err(e) => final(self).stage() == Stage::Finished && a == (Action::Finish {
                    result: Err(UsbCheckError::PartitionSearch(e)),
                }),
                Ok(devs) => if exists|i: int|
                    0 <= i < devs@.len() && device_matches(#[trigger] devs@[i], old(self).uuids()) {
                    &&& final(self).stage() == Stage::AwaitMount
                    &&& exists|i: int, p: Partition|
                        #[trigger] is_found_partition(devs@, old(self).uuids(), i, p) && (
                        a matches Action::Mount { devnode, fs_type } && devnode@ == p.devnode@
                            && fs_type@ == p.fs_type@) && final(self).partition_uuid() == p.uuid@
                } else {
                    final(self).stage() == Stage::Finished && a == (Action::Finish {
                        result: Ok(false),
                    })
                },
            },
    {
        match devices {
            Err(e) => self.finish(Err(UsbCheckError::PartitionSearch(e))),
            Ok(devs) => {
                let found = find_partition_by_uuids(devs.as_slice(), self.uuids.as_slice());
                match found {
                    None => self.finish(Ok(false)),
                    Some(p) => {
                        let ghost gp = p;
                        let ghost gi = choose|i: int| is_found_partition(devs@, self.uuids@, i, gp);
                        let Partition { devnode, fs_type, uuid } = p;
                        self.partition_uuid = uuid;
                        self.stage = Stage::AwaitMount;
                        let a = Action::Mount { devnode, fs_type };
                        assert(is_found_partition(devs@, old(self).uuids(), gi, gp));
                        a
                    },
                }
            },
        }
    }

    /// Takes the mount point of the partition; the next action is to read
    /// the system's key file.
    pub fn mounted(&mut self, mount_point: Result<String, IoError>) -> (a: Action)
        requires
            old(self).inv(),
            old(self).stage() == Stage::AwaitMount,
        ensures
            final(self).inv(),
            final(self).user() == old(self).user(),
            final(self).hostname() == old(self).hostname(),
            final(self).partition_uuid() == old(self).partition_uuid(),
            !final(self).authenticated(),
            match mount_point {
                Err(e) => final(self).stage() == Stage::Finished && a == (Action::Finish {
                    result: Err(UsbCheckError::Mount(e)),
                }),
                Ok(m) => {
                    &&& final(self).stage() == Stage::AwaitSystemKey
                    &&& final(self).mount_point() == m@
                    &&& a matches Action::ReadSystemKey { path } && path.dir@ == system_key_dir()
                        && path.file_name@ == system_key_file(
                        old(self).user(),
                        old(self).partition_uuid(),
                    )
                },
            },
    {
        match mount_point {
            Err(e) => self.finish(Err(UsbCheckError::Mount(e))),
            Ok(m) => {
                self.mount_point = m;
                self.stage = Stage::AwaitSystemKey;
                Action::ReadSystemKey { path: self.system_key_path() }
            },
        }
    }

    /// Takes the system's key; the next action is to read the device's key
    /// file.
    pub fn system_key_read(&mut self, key: Result<Key, IoError>) -> (a: Action)
        requires
            old(self).inv(),
            old(self).stage() == Stage::AwaitSystemKey,
        ensures
            final(self).inv(),
            final(self).user() == old(self).user(),
            final(self).hostname() == old(self).hostname(),
            final(self).partition_uuid() == old(self).partition_uuid(),
            final(self).mount_point() == old(self).mount_point(),
            !final(self).authenticated(),
            match key {
                Err(e) => final(self).stage() == Stage::Finished && a == (Action::Finish {
                    result: Err(UsbCheckError::ReadSystemKey(e)),
                }),
                Ok(k) => {
                    &&& final(self).stage() == Stage::AwaitDeviceKey
                    &&& final(self).system_key_bytes() == k@
                    &&& final(self).system_key_as_read() == k@
                    &&& a matches Action::ReadDeviceKey { path } && path.dir@ == old(
                        self,
                    ).mount_point() && path.file_name@ == device_key_file(
                        old(self).user(),
                        old(self).hostname(),
                    )
                },
            },
    {
        match key {
            Err(e) => self.finish(Err(UsbCheckError::ReadSystemKey(e))),
            Ok(k) => {
                self.system_key = k;
                self.system_key_as_read = Ghost(self.system_key@);
                self.stage = Stage::AwaitDeviceKey;
                Action::ReadDeviceKey { path: self.device_key_path() }
            },
        }
    }

    /// Takes the device's key and compares it with the system's key in
    /// constant time. Different keys refuse the user; equal keys lead to
    /// their replacement.
    pub fn device_key_read(&mut self, key: Result<Key, IoError>) -> (a: Action)
        requires
            old(self).inv(),
            old(self).stage() == Stage::AwaitDeviceKey,
        ensures
            final(self).inv(),
            final(self).user() == old(self).user(),
            final(self).hostname() == old(self).hostname(),
            final(self).partition_uuid() == old(self).partition_uuid(),
            final(self).mount_point() == old(self).mount_point(),
            final(self).system_key_bytes() == old(self).system_key_bytes(),
            !final(self).authenticated(),
            match key {
                Err(e) => final(self).stage() == Stage::Finished && a == (Action::Finish {
                    result: Err(UsbCheckError::ReadDeviceKey(e)),
                }),
                Ok(k) => if k@ == old(self).system_key_bytes() {
                    &&& final(self).stage() == Stage::KeysMatch
                    &&& final(self).keys_matched()
                    &&& final(self).device_key_bytes() == k@
                    &&& final(self).device_key_as_read() == k@
                    &&& a is RegenerateKeys
                } else {
                    final(self).stage() == Stage::Finished && a == (Action::Finish {
                        result: Ok(false),
                    })
                },
            },
    {
        match key {
            Err(e) => self.finish(Err(UsbCheckError::ReadDeviceKey(e))),
            Ok(k) => {
                self.device_key = k;
                self.device_key_as_read = Ghost(self.device_key@);
                proof {
                    crate::key::lemma_key_len(&self.system_key);
                }
                if Key::check(&self.system_key, &self.device_key) {
                    self.keys_matched = Ghost(true);
                    self.stage = Stage::KeysMatch;
                    Action::RegenerateKeys
                } else {
                    self.finish(Ok(false))
                }
            },
        }
    }

    /// Replaces both keys by one fresh key, the output of `rng`; the next
    /// action is to write the new system key. If `rng` fails, its error
    /// ends the attempt.
    pub fn regenerate_keys<R: Rng>(&mut self, rng: &mut R) -> (a: Action)
        requires
            old(self).inv(),
            old(self).stage() == Stage::KeysMatch,
        ensures
            final(self).inv(),
            final(self).user() == old(self).user(),
            final(self).hostname() == old(self).hostname(),
            final(self).partition_uuid() == old(self).partition_uuid(),
            final(self).mount_point() == old(self).mount_point(),
            !final(self).authenticated(),
            match a {
                Action::Finish { result: Err(UsbCheckError::Keygen(e)) } => {
                    &&& final(self).stage() == Stage::Finished
                    &&& old(rng).can_fail(*final(rng), e)
                },
                Action::WriteSystemKey { path } => {
                    &&& final(self).stage() == Stage::AwaitSystemWrite
                    &&& final(self).keys_rotated()
                    &&& old(rng).can_produce(*final(rng), final(self).system_key_bytes())
                    &&& final(self).rotated_key() == final(self).system_key_bytes()
                    &&& final(self).system_key_bytes() == final(self).device_key_bytes()
                    &&& path.dir@ == system_key_dir()
                    &&& path.file_name@ == system_key_file(
                        old(self).user(),
                        old(self).partition_uuid(),
                    )
                },
                _ => false,
            },
    {
        let r = Key::regenerate_key_pair(&mut self.system_key, &mut self.device_key, rng);
        match r {
            Err(e) => self.finish(Err(UsbCheckError::Keygen(e))),
            Ok(()) => {
                self.keys_rotated = Ghost(true);
                self.rotated_key = Ghost(self.system_key@);
                self.stage = Stage::AwaitSystemWrite;
                Action::WriteSystemKey { path: self.system_key_path() }
            },
        }
    }

    /// Takes the outcome of writing the new system key; on success the
    /// next action is to write the new device key.
    pub fn system_key_written(&mut self, written: Result<(), IoError>) -> (a: Action)
        requires
            old(self).inv(),
            old(self).stage() == Stage::AwaitSystemWrite,
        ensures
            final(self).inv(),
            final(self).user() == old(self).user(),
            final(self).hostname() == old(self).hostname(),
            final(self).partition_uuid() == old(self).partition_uuid(),
            final(self).mount_point() == old(self).mount_point(),
            final(self).system_key_bytes() == old(self).system_key_bytes(),
            final(self).device_key_bytes() == old(self).device_key_bytes(),
            !final(self).authenticated(),
            match written {
                Err(e) => final(self).stage() == Stage::Finished && a == (Action::Finish {
                    result: Err(UsbCheckError::WriteSystemKey(e)),
                }),
                Ok(()) => {
                    &&& final(self).stage() == Stage::AwaitDeviceWrite
                    &&& final(self).system_written()
                    &&& a matches Action::WriteDeviceKey { path } && path.dir@ == old(
                        self,
                    ).mount_point() && path.file_name@ == device_key_file(
                        old(self).user(),
                        old(self).hostname(),
                    )
                },
            },
    {
        match written {
            Err(e) => self.finish(Err(UsbCheckError::WriteSystemKey(e))),
            Ok(()) => {
                self.system_written = Ghost(true);
                self.stage = Stage::AwaitDeviceWrite;
                Action::WriteDeviceKey { path: self.device_key_path() }
            },
        }
    }

    /// Takes the outcome of writing the new device key; on success the user
    /// is authenticated.
    pub fn device_key_written(&mut self, written: Result<(), IoError>) -> (a: Action)
        requires
            old(self).inv(),
            old(self).stage() == Stage::AwaitDeviceWrite,
        ensures
            final(self).inv(),
            final(self).stage() == Stage::Finished,
            final(self).user() == old(self).user(),
            final(self).authenticated() == (written is Ok),
            match written {
                Err(e) => a == (Action::Finish { result: Err(UsbCheckError::WriteDeviceKey(e)) }),
                Ok(()) => a == (Action::Finish { result: Ok(true) }),
            },
    {
        match written {
            Err(e) => self.finish(Err(UsbCheckError::WriteDeviceKey(e))),
            Ok(()) => self.finish(Ok(true)),
        }
    }

    /// The system's key: the one read, or, from `AwaitSystemWrite` on, the
    /// new one to write.
    pub fn system_key(&self) -> (k: &Key)
        ensures
            k@ == self.system_key_bytes(),
    {
        &self.system_key
    }

    /// The device's key: the one read, or, from `AwaitSystemWrite` on, the
    /// new one to write.
    pub fn device_key(&self) -> (k: &Key)
        ensures
            k@ == self.device_key_bytes(),
    {
        &self.device_key
    }

    /// Overwrites both keys held by the attempt with zeroes.
    pub fn wipe_keys(&mut self)
        requires
            old(self).inv(),
            old(self).stage() == Stage::Finished,
        ensures
            final(self).inv(),
            final(self).stage() == Stage::Finished,
            final(self).authenticated() == old(self).authenticated(),
            crate::key::all_zero(final(self).system_key_bytes()),
            crate::key::all_zero(final(self).device_key_bytes()),
    {
        self.system_key.zeroize();
        self.device_key.zeroize();
    }
}

/// An attempt ends with the user authenticated only after the key read
/// from the system equalled, byte for byte, the key read from the device,
/// both were
/// replaced by one fresh key, and the new system key was written (the new
/// device key is written by the step that authenticates).
pub proof fn lemma_authenticated_only_after_rotation(c: &UsbCheck)
    requires
        c.inv(),
    ensures
        c.authenticated() ==> c.stage() == Stage::Finished && c.keys_matched() && c.keys_rotated()
            && c.system_written(),
        c.authenticated() ==> c.system_key_as_read() == c.device_key_as_read(),
{
}

/// New keys are asked to be written only after the keys read matched and
/// were replaced, and the system and the device then get the same key.
pub proof fn lemma_writes_only_after_match(c: &UsbCheck)
    requires
        c.inv(),
    ensures
        (c.stage() == Stage::AwaitSystemWrite || c.stage() == Stage::AwaitDeviceWrite) ==> {
            &&& c.keys_matched()
            &&& c.keys_rotated()
            &&& c.system_key_bytes() == c.device_key_bytes()
            &&& c.system_key_bytes() == c.rotated_key()
        },
        c.stage() == Stage::AwaitDeviceWrite ==> c.system_written(),
{
}

/// Before the keys have been compared nothing is marked as matched, so no
/// step before the comparison can lead to a write.
pub proof fn lemma_no_match_before_comparison(c: &UsbCheck)
    requires
        c.inv(),
        c.stage() != Stage::KeysMatch,
        c.stage() != Stage::AwaitSystemWrite,
        c.stage() != Stage::AwaitDeviceWrite,
        c.stage() != Stage::Finished,
    ensures
        !c.keys_matched(),
        !c.keys_rotated(),
        !c.authenticated(),
{
}

/// The key files are named literally after the user, the partition and
/// the whole host name: the system's is `<user>.<uuid>.key` and the
/// device's is `.pamusb/<user>.<hostname>.key`, for every user, UUID and
/// host name (dots in the host name included), so the device's file name
/// ends with the whole host name followed by `.key`.
pub proof fn lemma_key_file_names(user: Seq<char>, uuid: Seq<char>, hostname: Seq<char>)
    ensures
        system_key_file(user, uuid) == user + "."@ + uuid + ".key"@,
        device_key_file(user, hostname) == ".pamusb/"@ + user + "."@ + hostname + ".key"@,
        device_key_file(user, hostname).subrange(
            device_key_file(user, hostname).len() - hostname.len() - ".key"@.len(),
            device_key_file(user, hostname).len() as int,
        ) == hostname + ".key"@,
        system_key_dir() == "/etc/security/pamusb"@,
{
    let f = ".pamusb/"@ + user + "."@ + hostname + ".key"@;
    let front = ".pamusb/"@ + user + "."@;
    assert(f == front + (hostname + ".key"@));
    assert(f.subrange(front.len() as int, f.len() as int) =~= hostname + ".key"@);
}

} // verus!

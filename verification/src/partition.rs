use vstd::prelude::*;
use vstd::utf8::encode_utf8;
use vstd::string::StringSliceAdditionalSpecFns;

verus! {

/// What the library reads of one block device found by the device
/// enumeration: its device type, its `PARTUUID` property, its device node
/// and its `ID_FS_TYPE` property, each as raw bytes where present.
pub struct DeviceInfo {
    pub devtype: Option<Vec<u8>>,
    pub partuuid: Option<Vec<u8>>,
    pub devnode: Option<Vec<u8>>,
    pub fs_type: Option<Vec<u8>>,
}

/// A partition that carries one of the configured UUIDs.
pub struct Partition {
    pub devnode: Vec<u8>,
    pub fs_type: Vec<u8>,
    pub uuid: String,
}

/// The device type of a partition, as bytes.
pub open spec fn partition_devtype() -> Seq<u8> {
    encode_utf8("partition"@)
}

/// `true` iff the configured UUID `u` is byte for byte the partition UUID
/// `id`.
pub open spec fn uuid_matches(u: Seq<char>, id: Seq<u8>) -> bool {
    encode_utf8(u) == id
}

/// `true` iff some UUID of `uuids` matches `id`.
pub open spec fn some_uuid_matches(uuids: Seq<String>, id: Seq<u8>) -> bool {
    exists|j: int| 0 <= j < uuids.len() && uuid_matches(#[trigger] uuids[j]@, id)
}

/// `true` iff the device is a partition whose UUID is one of `uuids` and
/// that has a device node and a file system type.
pub open spec fn device_matches(d: DeviceInfo, uuids: Seq<String>) -> bool {
    &&& d.devtype matches Some(t) && t@ == partition_devtype()
    &&& d.partuuid matches Some(id) && some_uuid_matches(uuids, id@)
    &&& d.devnode is Some
    &&& d.fs_type is Some
}

/// `true` iff `j` is the first position in `uuids` of a UUID matching `id`.
pub open spec fn first_uuid_match(uuids: Seq<String>, id: Seq<u8>, j: int) -> bool {
    &&& 0 <= j < uuids.len()
    &&& uuid_matches(uuids[j]@, id)
    &&& forall|k: int| 0 <= k < j ==> !uuid_matches(#[trigger] uuids[k]@, id)
}

/// `true` iff `p` describes device `i` of `devices`, the first device that
/// matches, with the first UUID of `uuids` that matches it.
pub open spec fn is_found_partition(
    devices: Seq<DeviceInfo>,
    uuids: Seq<String>,
    i: int,
    p: Partition,
) -> bool {
    &&& 0 <= i < devices.len()
    &&& device_matches(devices[i], uuids)
    &&& forall|k: int| 0 <= k < i ==> !device_matches(#[trigger] devices[k], uuids)
    &&& p.devnode@ == devices[i].devnode->0@
    &&& p.fs_type@ == devices[i].fs_type->0@
    &&& exists|j: int| first_uuid_match(uuids, devices[i].partuuid->0@, j) && p.uuid@ == uuids[j]@
}

fn bytes_eq(a: &[u8], b: &[u8]) -> (r: bool)
    ensures
        r == (a@ == b@),
{
    if a.len() != b.len() {
        return false;
    }
    let mut i: usize = 0;
    while i < a.len()
        invariant
            0 <= i <= a@.len(),
            a@.len() == b@.len(),
            forall|j: int| 0 <= j < i ==> a@[j] == b@[j],
        decreases a@.len() - i,
    {
        if a[i] != b[i] {
            return false;
        }
        i = i + 1;
    }
    assert(a@ =~= b@);
    true
}

fn copy_bytes(v: &Vec<u8>) -> (r: Vec<u8>)
    ensures
        r@ == v@,
{
    let mut r: Vec<u8> = Vec::new();
    let mut i: usize = 0;
    while i < v.len()
        invariant
            0 <= i <= v@.len(),
            r@ == v@.subrange(0, i as int),
        decreases v@.len() - i,
    {
        r.push(v[i]);
        i = i + 1;
    }
    assert(r@ =~= v@);
    r
}

/// The position of the first UUID in `uuids` that equals `id`, if any.
fn find_uuid(uuids: &[String], id: &Vec<u8>) -> (r: Option<usize>)
    ensures
        match r {
            Some(j) => first_uuid_match(uuids@, id@, j as int),
            None => !some_uuid_matches(uuids@, id@),
        },
{
    let mut j: usize = 0;
    while j < uuids.len()
        invariant
            0 <= j <= uuids@.len(),
            forall|k: int| 0 <= k < j ==> !uuid_matches(#[trigger] uuids@[k]@, id@),
        decreases uuids@.len() - j,
    {
        let candidate: &str = uuids[j].as_str();
        if bytes_eq(candidate.as_bytes(), id.as_slice()) {
            return Some(j);
        }
        j = j + 1;
    }
    None
}

/// Finds, among the enumerated block devices, the first partition whose
/// `PARTUUID` is one of `uuids` and that has a device node and a file
/// system type. The partition is reported with the first of `uuids` that
/// names it.
pub fn find_partition_by_uuids(devices: &[DeviceInfo], uuids: &[String]) -> (r: Option<Partition>)
    ensures
        r is Some ==> exists|i: int| #[trigger] is_found_partition(devices@, uuids@, i, r->0),
        r is None ==> forall|i: int|
            0 <= i < devices@.len() ==> !device_matches(#[trigger] devices@[i], uuids@),
{
    let partition_type: &str = "partition";
    let mut i: usize = 0;
    while i < devices.len()
        invariant
            0 <= i <= devices@.len(),
            partition_type.spec_bytes() == partition_devtype(),
            forall|k: int| 0 <= k < i ==> !device_matches(#[trigger] devices@[k], uuids@),
        decreases devices@.len() - i,
    {
        let d = &devices[i];
        let is_partition = match &d.devtype {
            Some(t) => bytes_eq(t.as_slice(), partition_type.as_bytes()),
            None => false,
        };
        if is_partition {
            if let Some(id) = &d.partuuid {
                if let Some(j) = find_uuid(uuids, id) {
                    if let Some(devnode) = &d.devnode {
                        if let Some(fs_type) = &d.fs_type {
                            let p = Partition {
                                devnode: copy_bytes(devnode),
                                fs_type: copy_bytes(fs_type),
                                uuid: uuids[j].clone(),
                            };
                            let ghost gp = p;
                            let r = Some(p);
                            assert(r->0 == gp);
                            assert(is_found_partition(devices@, uuids@, i as int, r->0));
                            return r;
                        }
                    }
                }
            }
        }
        i = i + 1;
    }
    None
}

} // verus!

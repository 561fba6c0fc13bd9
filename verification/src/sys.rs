use vstd::prelude::*;
use crate::io_error::{IoError, IoErrorKind};
use crate::text::push_text;

verus! {

/// What to do after one `getrandom` system call.
pub enum GetrandomStep {
    /// The call was interrupted by a signal: make it again.
    Retry,
    /// The call is over: the number of bytes written, never 0, or the
    /// error.
    Done(Result<usize, IoError>),
}

/// Interprets the return value `ret` of the `getrandom` system call, and
/// the error the system reported when `ret` is -1.
pub fn getrandom_outcome(ret: isize, last_error: Option<IoError>) -> (s: GetrandomStep)
    requires
        ret >= -1,
        (ret == -1) == (last_error is Some),
    ensures
        ret == -1 && last_error->0.kind == IoErrorKind::Interrupted ==> s is Retry,
        ret == -1 && last_error->0.kind != IoErrorKind::Interrupted ==> s == GetrandomStep::Done(
            Err(last_error->0),
        ),
        ret == 0 ==> (s matches GetrandomStep::Done(Err(e)) && e.kind == IoErrorKind::WouldBlock
            && e.message@ == "operation would block"@),
        ret > 0 ==> s == GetrandomStep::Done(Ok(ret as usize)),
        s matches GetrandomStep::Done(Ok(n)) ==> n > 0,
{
    if ret == -1 {
        match last_error {
            Some(e) => {
                if e.kind == IoErrorKind::Interrupted {
                    GetrandomStep::Retry
                } else {
                    GetrandomStep::Done(Err(e))
                }
            },
            None => GetrandomStep::Retry,
        }
    } else if ret == 0 {
        GetrandomStep::Done(
            Err(IoError::new(IoErrorKind::WouldBlock, "operation would block".to_owned())),
        )
    } else {
        GetrandomStep::Done(Ok(ret as usize))
    }
}

/// How far the filling of a buffer by repeated `getrandom` calls has got.
pub struct FillProgress {
    len: usize,
    offset: usize,
}

impl FillProgress {
    pub closed spec fn len(&self) -> nat {
        self.len as nat
    }

    /// The number of bytes filled so far, from the start of the buffer.
    pub closed spec fn offset(&self) -> nat {
        self.offset as nat
    }

    /// No byte of a buffer of `len` bytes is filled yet.
    pub fn new(len: usize) -> (p: FillProgress)
        ensures
            p.len() == len,
            p.offset() == 0,
    {
        FillProgress { len, offset: 0 }
    }

    /// The position of the first byte still to fill.
    pub fn offset_now(&self) -> (o: usize)
        ensures
            o == self.offset(),
    {
        self.offset
    }

    /// `true` iff the whole buffer is filled.
    pub fn is_complete(&self) -> (b: bool)
        ensures
            b == (self.offset() == self.len()),
    {
        self.offset == self.len
    }

    /// Records that a call filled `written` more bytes.
    pub fn advance(&mut self, written: usize)
        requires
            old(self).offset() <= old(self).len(),
            0 < written <= old(self).len() - old(self).offset(),
        ensures
            final(self).len() == old(self).len(),
            final(self).offset() == old(self).offset() + written,
            final(self).offset() <= final(self).len(),
    {
        self.offset = self.offset + written;
    }
}

/// What to do after one `getrandom` call of a fill.
pub enum FillStep {
    /// Some bytes are still to fill: call again from `offset_now`.
    Continue,
    /// The fill is over: the whole buffer is filled, or the error of the
    /// call that failed.
    Done(Result<(), IoError>),
}

impl FillProgress {
    /// Takes the outcome of one call: an error ends the fill with that
    /// error and leaves the progress as it was; a count of written bytes
    /// is recorded, and ends the fill once the buffer is full.
    pub fn record(&mut self, outcome: Result<usize, IoError>) -> (s: FillStep)
        requires
            old(self).offset() < old(self).len(),
            outcome matches Ok(n) ==> 0 < n <= old(self).len() - old(self).offset(),
        ensures
            final(self).len() == old(self).len(),
            match outcome {
                Err(e) => final(self).offset() == old(self).offset() && s == FillStep::Done(
                    Err(e),
                ),
                Ok(n) => {
                    &&& final(self).offset() == old(self).offset() + n
                    &&& (final(self).offset() == final(self).len()) == (s matches FillStep::Done(
                        Ok(()),
                    ))
                    &&& final(self).offset() < final(self).len() ==> s is Continue
                },
            },
    {
        match outcome {
            Err(e) => FillStep::Done(Err(e)),
            Ok(n) => {
                self.advance(n);
                if self.is_complete() {
                    FillStep::Done(Ok(()))
                } else {
                    FillStep::Continue
                }
            },
        }
    }
}

/// The `getrandom` flag that draws from the blocking random pool.
pub const GRND_RANDOM: u32 = 2;

/// The flags of a `getrandom` call: the blocking random pool when `secure`
/// is asked for, otherwise none.
pub fn getrandom_flags(secure: bool) -> (f: u32)
    ensures
        f == if secure { GRND_RANDOM } else { 0 },
{
    if secure {
        GRND_RANDOM
    } else {
        0
    }
}

/// Filling stops exactly when every byte is filled, and each call that
/// writes brings it closer: the bytes still to fill strictly decrease.
pub proof fn lemma_fill_progresses(before: nat, after: nat, len: nat, written: nat)
    requires
        before <= len,
        0 < written <= len - before,
        after == before + written,
    ensures
        after <= len,
        len - after < len - before,
{
}

/// Mount flags, with the values of the Linux system call interface.
pub const MS_RDONLY: u64 = 1;
pub const MS_NOSUID: u64 = 2;
pub const MS_NODEV: u64 = 4;
pub const MS_NOEXEC: u64 = 8;
pub const MS_SYNCHRONOUS: u64 = 16;
pub const MS_MANDLOCK: u64 = 64;
pub const MS_DIRSYNC: u64 = 128;
pub const MS_NOSYMFOLLOW: u64 = 256;
pub const MS_NOATIME: u64 = 1024;
pub const MS_NODIRATIME: u64 = 2048;
pub const MS_REC: u64 = 16384;
pub const MS_SILENT: u64 = 32768;
pub const MS_UNBINDABLE: u64 = 131072;
pub const MS_PRIVATE: u64 = 262144;
pub const MS_SLAVE: u64 = 524288;
pub const MS_SHARED: u64 = 1048576;
pub const MS_RELATIME: u64 = 2097152;
pub const MS_STRICTATIME: u64 = 16777216;
pub const MS_LAZYTIME: u64 = 33554432;

/// Every mount flag the library accepts.
pub const SUPPORTED_MOUNT_FLAGS: u64 = MS_DIRSYNC | MS_LAZYTIME | MS_MANDLOCK | MS_NOATIME
    | MS_NODEV | MS_NODIRATIME | MS_NOEXEC | MS_NOSUID | MS_RDONLY | MS_REC | MS_RELATIME
    | MS_SILENT | MS_STRICTATIME | MS_SYNCHRONOUS | MS_NOSYMFOLLOW | MS_SHARED | MS_PRIVATE
    | MS_SLAVE | MS_UNBINDABLE;

/// The flags a USB partition is mounted with: synchronous writes, and no
/// device files, executables, set-user-id bits or symbolic links.
pub const USB_MOUNT_FLAGS: u64 = MS_DIRSYNC | MS_SYNCHRONOUS | MS_NODEV | MS_NOEXEC | MS_NOSUID
    | MS_NOSYMFOLLOW;

/// Refuses mount flags outside `SUPPORTED_MOUNT_FLAGS`, for which the
/// system's documentation does not say what happens.
pub fn check_mount_flags(flags: u64) -> (r: Result<(), IoError>)
    ensures
        r is Ok <==> flags & !SUPPORTED_MOUNT_FLAGS == 0,
        r matches Err(e) ==> e.kind == IoErrorKind::InvalidInput && e.message@
            == "invalid input parameter"@,
{
    if flags & !SUPPORTED_MOUNT_FLAGS != 0 {
        Err(IoError::new(IoErrorKind::InvalidInput, "invalid input parameter".to_owned()))
    } else {
        Ok(())
    }
}

/// The flags a USB partition is mounted with pass the check.
pub proof fn lemma_usb_mount_flags_supported()
    ensures
        USB_MOUNT_FLAGS & !SUPPORTED_MOUNT_FLAGS == 0,
{
    assert(((128u64 | 16u64 | 4u64 | 8u64 | 2u64 | 256u64) & !(128u64 | 33554432u64 | 64u64
        | 1024u64 | 4u64 | 2048u64 | 8u64 | 2u64 | 1u64 | 16384u64 | 2097152u64 | 32768u64
        | 16777216u64 | 16u64 | 256u64 | 1048576u64 | 262144u64 | 524288u64 | 131072u64)) == 0u64)
        by (bit_vector);
}

/// `true` iff `c` is an ASCII letter or digit.
pub open spec fn is_ascii_alphanumeric(c: char) -> bool {
    ('a' <= c && c <= 'z') || ('A' <= c && c <= 'Z') || ('0' <= c && c <= '9')
}

/// `fastrand::alphanumeric`: a character drawn from the thread's
/// pseudo-random generator. The crate picks it from the 62 ASCII letters
/// and digits; the claim is only that it is one of them.
#[verifier::external_body]
fn random_alphanumeric() -> (c: char)
    ensures
        is_ascii_alphanumeric(c),
{
    fastrand::alphanumeric()
}

/// Length of the random part of a mount point's name.
pub const RANDOM_NAME_LENGTH: usize = 16;

/// The mount point named `name`: `/tmp/` followed by the name.
pub fn mount_point_from(name: &Vec<char>) -> (p: String)
    requires
        name@.len() == RANDOM_NAME_LENGTH,
        forall|i: int| 0 <= i < name@.len() ==> is_ascii_alphanumeric(#[trigger] name@[i]),
    ensures
        p@ == "/tmp/"@ + name@,
{
    let mut p = "/tmp/".to_owned();
    let ghost prefix = p@;
    let mut i: usize = 0;
    while i < name.len()
        invariant
            0 <= i <= name@.len(),
            prefix == "/tmp/"@,
            p@ == prefix + name@.take(i as int),
        decreases name@.len() - i,
    {
        push_char(&mut p, name[i]);
        i = i + 1;
        assert(name@.take(i as int) =~= name@.take(i - 1).push(name@[i - 1]));
    }
    assert(name@.take(name@.len() as int) =~= name@);
    p
}

/// A random path under `/tmp` to mount a partition on: `RANDOM_NAME_LENGTH`
/// characters drawn at random among the ASCII letters and digits, named by
/// `mount_point_from`.
pub fn random_mount_point() -> (p: String)
    ensures
        p@.len() == "/tmp/"@.len() + RANDOM_NAME_LENGTH,
        p@.take("/tmp/"@.len() as int) == "/tmp/"@,
        forall|i: int| "/tmp/"@.len() <= i < p@.len() ==> is_ascii_alphanumeric(#[trigger] p@[i]),
{
    let mut name: Vec<char> = Vec::new();
    let mut i: usize = 0;
    while i < RANDOM_NAME_LENGTH
        invariant
            0 <= i <= RANDOM_NAME_LENGTH,
            name@.len() == i,
            forall|k: int| 0 <= k < name@.len() ==> is_ascii_alphanumeric(#[trigger] name@[k]),
        decreases RANDOM_NAME_LENGTH - i,
    {
        let c = random_alphanumeric();
        name.push(c);
        i = i + 1;
    }
    let p = mount_point_from(&name);
    proof {
        let prefix = "/tmp/"@;
        assert(p@.take(prefix.len() as int) =~= prefix);
        assert forall|k: int| prefix.len() <= k < p@.len() implies is_ascii_alphanumeric(
            #[trigger] p@[k],
        ) by {
            assert(p@[k] == name@[k - prefix.len()]);
        }
    }
    p
}

/// `String::push`: appends one character.
#[verifier::external_body]
fn push_char(s: &mut String, c: char)
    ensures
        final(s)@ == old(s)@.push(c),
{
    s.push(c)
}

/// A random mount point name holds no zero character, so it is always a
/// valid C string.
pub proof fn lemma_mount_point_has_no_nul(p: Seq<char>)
    requires
        p.len() >= "/tmp/"@.len(),
        p.take("/tmp/"@.len() as int) == "/tmp/"@,
        forall|i: int| "/tmp/"@.len() <= i < p.len() ==> is_ascii_alphanumeric(#[trigger] p[i]),
    ensures
        forall|i: int| 0 <= i < p.len() ==> #[trigger] p[i] != '\0',
{
    reveal_strlit("/tmp/");
    assert forall|i: int| 0 <= i < p.len() implies #[trigger] p[i] != '\0' by {
        if i < 5 {
            assert(p[i] == p.take(5)[i]);
            assert("/tmp/"@[i] != '\0');
        }
    }
}

/// Refuses a file whose length differs from that of the buffer it must
/// fill exactly, with an `InvalidData` error carrying `message`.
pub fn check_exact_length(expected: usize, actual: u64, message: String) -> (r: Result<
    (),
    IoError,
>)
    ensures
        r is Ok <==> actual == expected,
        r matches Err(e) ==> e.kind == IoErrorKind::InvalidData && e.message@ == message@,
{
    if actual != expected as u64 {
        Err(IoError::new(IoErrorKind::InvalidData, message))
    } else {
        Ok(())
    }
}

} // verus!

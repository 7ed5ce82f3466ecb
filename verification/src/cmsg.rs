//! Socket control messages: parsing of `SCM_RIGHTS` payloads and the space
//! accounting of a control-message buffer being filled.
use vstd::prelude::*;

use crate::errno::AxError;

verus! {

pub const SOL_SOCKET: i32 = 1;
pub const SCM_RIGHTS: i32 = 1;
/// Size of `struct cmsghdr` (length word, level, type).
pub const CMSGHDR_SIZE: usize = 16;

/// A parsed control message; `F` is the open-file handle type.
pub enum CMsg<F> {
    Rights { fds: Vec<F> },
}

/// Payload length of a control message whose header announces `cmsg_len`
/// bytes; a length shorter than the header is invalid.
pub fn cmsg_payload_len(cmsg_len: usize) -> (r: Result<usize, AxError>)
    ensures
        cmsg_len < CMSGHDR_SIZE ==> r == Err::<usize, AxError>(AxError::InvalidInput),
        cmsg_len >= CMSGHDR_SIZE ==> r == Ok::<usize, AxError>((cmsg_len - CMSGHDR_SIZE) as usize),
{
    if cmsg_len < CMSGHDR_SIZE {
        Err(AxError::InvalidInput)
    } else {
        Ok(cmsg_len - CMSGHDR_SIZE)
    }
}

/// File descriptor stored little-endian at `data[4 * i..4 * i + 4]`.
pub open spec fn spec_fd_at(data: Seq<u8>, i: int) -> i32 {
    (data[4 * i] + 256 * data[4 * i + 1] + 65536 * data[4 * i + 2] + 16777216 * data[4 * i + 3]) as u32 as i32
}

/// File descriptors carried by an `SCM_RIGHTS` payload. Only
/// `SOL_SOCKET`/`SCM_RIGHTS` messages are understood; the payload must be a
/// whole number of descriptors and none may be negative.
pub fn parse_rights(level: i32, ty: i32, data: &[u8]) -> (r: Result<Vec<i32>, AxError>)
    ensures
        !(level == SOL_SOCKET && ty == SCM_RIGHTS) ==> r == Err::<Vec<i32>, AxError>(AxError::InvalidInput),
        level == SOL_SOCKET && ty == SCM_RIGHTS && data@.len() % 4 != 0 ==> r == Err::<Vec<i32>, AxError>(AxError::InvalidInput),
        level == SOL_SOCKET && ty == SCM_RIGHTS && data@.len() % 4 == 0 ==> {
            &&& (exists|i: int| 0 <= i < data@.len() / 4 && spec_fd_at(data@, i) < 0) ==> r == Err::<Vec<i32>, AxError>(AxError::BadFileDescriptor)
            &&& (forall|i: int| 0 <= i < data@.len() / 4 ==> spec_fd_at(data@, i) >= 0) ==> (r matches Ok(fds) && fds@.len() == data@.len() / 4
                && forall|i: int| 0 <= i < fds@.len() ==> fds@[i] == spec_fd_at(data@, i))
        },
{
    if !(level == SOL_SOCKET && ty == SCM_RIGHTS) {
        return Err(AxError::InvalidInput);
    }
    if data.len() % 4 != 0 {
        return Err(AxError::InvalidInput);
    }
    let n = data.len() / 4;
    let mut fds: Vec<i32> = Vec::new();
    let mut i: usize = 0;
    while i < n
        invariant
            i <= n,
            level == SOL_SOCKET && ty == SCM_RIGHTS,
            n == data@.len() / 4,
            data@.len() % 4 == 0,
            fds@.len() == i,
            forall|j: int| 0 <= j < i ==> fds@[j] == spec_fd_at(data@, j) && spec_fd_at(data@, j) >= 0,
        decreases n - i,
    {
        assert(4 * i + 3 < data@.len()) by (nonlinear_arith)
            requires
                i < n,
                n == data@.len() / 4,
                data@.len() % 4 == 0,
        ;
        assert(4 * i + 3 < data.len());
        let base: usize = 4 * i;
        let b0 = data[base] as u32;
        let b1 = data[base + 1] as u32;
        let b2 = data[base + 2] as u32;
        let b3 = data[base + 3] as u32;
        let word: u32 = b0 + b1 * 256 + b2 * 65536 + b3 * 16777216;
        let fd = #[verifier::truncate] (word as i32);
        assert(fd == spec_fd_at(data@, i as int));
        if fd < 0 {
            assert(!(forall|j: int| 0 <= j < data@.len() / 4 ==> spec_fd_at(data@, j) >= 0));
            return Err(AxError::BadFileDescriptor);
        }
        fds.push(fd);
        i = i + 1;
    }
    Ok(fds)
}

/// Space accounting of a control-message buffer of `capacity` bytes being
/// filled message by message.
pub struct CMsgBuilder {
    len: usize,
    capacity: usize,
}

impl CMsgBuilder {
    pub closed spec fn spec_len(&self) -> usize {
        self.len
    }

    pub closed spec fn spec_capacity(&self) -> usize {
        self.capacity
    }

    pub open spec fn wf(&self) -> bool {
        self.spec_len() <= self.spec_capacity()
    }

    /// An empty buffer of `capacity` bytes.
    pub fn new(capacity: usize) -> (b: CMsgBuilder)
        ensures
            b.wf(),
            b.spec_len() == 0,
            b.spec_capacity() == capacity,
    {
        CMsgBuilder { len: 0, capacity }
    }

    /// Bytes written so far.
    pub fn len(&self) -> (l: usize)
        ensures
            l == self.spec_len(),
    {
        self.len
    }

    /// Room for the body of the next message, or `None` when not even a
    /// header fits.
    pub fn body_capacity(&self) -> (r: Option<usize>)
        requires
            self.wf(),
        ensures
            self.spec_capacity() - self.spec_len() < CMSGHDR_SIZE ==> r is None,
            self.spec_capacity() - self.spec_len() >= CMSGHDR_SIZE ==> r == Some((self.spec_capacity() - self.spec_len() - CMSGHDR_SIZE) as usize),
    {
        let room = self.capacity - self.len;
        room.checked_sub(CMSGHDR_SIZE)
    }

    /// Accounts a message whose body took `body_len` bytes, returning its
    /// total length (header included).
    pub fn push(&mut self, body_len: usize) -> (cmsg_len: usize)
        requires
            old(self).wf(),
            old(self).spec_capacity() - old(self).spec_len() >= CMSGHDR_SIZE,
            body_len <= old(self).spec_capacity() - old(self).spec_len() - CMSGHDR_SIZE,
        ensures
            final(self).wf(),
            cmsg_len == CMSGHDR_SIZE + body_len,
            final(self).spec_len() == old(self).spec_len() + cmsg_len,
            final(self).spec_capacity() == old(self).spec_capacity(),
    {
        let cmsg_len = CMSGHDR_SIZE + body_len;
        self.len = self.len + cmsg_len;
        cmsg_len
    }
}

} // verus!

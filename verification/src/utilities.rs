//! Small helpers: the operable predicates over a protection snapshot and
//! C-string plumbing for name-based system calls.

use vstd::prelude::*;
use vstd::string::StringSliceAdditionalSpecFns;

use crate::memory::MemorySnapshot;
use crate::memory::page_readable;
use crate::memory::page_writable;

verus! {

/// Whether a read can proceed on the page a query reported: the page must be
/// committed and its protection neither zero nor no-access.
pub fn is_page_readable(memory_info: &MemorySnapshot) -> (r: bool)
    ensures
        r == page_readable(memory_info.state, memory_info.protect),
{
    memory_info.state == crate::memory::MEM_COMMIT && memory_info.protect != 0
        && memory_info.protect != crate::memory::PAGE_NOACCESS
}

/// Whether a write can proceed as-is on the page a query reported: the page
/// must be committed and its protection already read-write (with or without
/// execute).
pub fn is_page_writable(memory_info: &MemorySnapshot) -> (r: bool)
    ensures
        r == page_writable(memory_info.state, memory_info.protect),
{
    memory_info.state == crate::memory::MEM_COMMIT && (memory_info.protect
        == crate::memory::PAGE_READWRITE || memory_info.protect
        == crate::memory::PAGE_EXECUTE_READWRITE)
}

/// Length of the prefix of `s` before its first NUL byte; the whole length
/// when no NUL occurs.
pub open spec fn nul_prefix_len(s: Seq<u8>) -> int
    decreases s.len(),
{
    if s.len() == 0 || s[0] == 0 {
        0
    } else {
        1 + nul_prefix_len(s.drop_first())
    }
}

/// A scan that stopped at the first NUL found exactly the NUL-free prefix.
proof fn lemma_nul_prefix_from_scan(s: Seq<u8>, j: int)
    requires
        0 <= j <= s.len(),
        forall|k: int| 0 <= k < j ==> s[k] != 0,
        j == s.len() || s[j] == 0,
    ensures
        nul_prefix_len(s) == j,
    decreases j,
{
    if j > 0 {
        let t = s.drop_first();
        assert forall|k: int| 0 <= k < j - 1 implies t[k] != 0 by {
            assert(t[k] == s[k + 1]);
        }
        if j - 1 < t.len() {
            assert(t[j - 1] == s[j]);
        }
        lemma_nul_prefix_from_scan(t, j - 1);
    }
}

/// The bytes of the name a buffer holds: everything before the first NUL,
/// or the whole buffer when no NUL terminates it. This is the truncation a
/// system snapshot's fixed-size, NUL-padded name field needs before the
/// name can be compared.
pub fn read_null_terminated_string(buffer: &[u8]) -> (r: Vec<u8>)
    ensures
        r@ == buffer@.subrange(0, nul_prefix_len(buffer@)),
{
    let n = buffer.len();
    let mut j: usize = 0;
    while j < n && *vstd::slice::slice_index_get(buffer, j) != 0
        invariant
            0 <= j <= n,
            n == buffer@.len(),
            forall|k: int| 0 <= k < j ==> buffer@[k] != 0,
        decreases n - j,
    {
        j = j + 1;
    }
    proof {
        lemma_nul_prefix_from_scan(buffer@, j as int);
    }
    let prefix = vstd::slice::slice_subrange(buffer, 0, j);
    vstd::slice::slice_to_vec(prefix)
}

/// The bytes of `text` with a terminating NUL appended: the form a
/// name-taking system call expects. The caller owns the buffer, so the
/// pointer it later hands onward cannot dangle.
pub fn make_lpcstr(text: &str) -> (r: Vec<u8>)
    ensures
        r@ == text.spec_bytes().push(0u8),
{
    let bytes = text.as_bytes();
    let mut buffer: Vec<u8> = Vec::new();
    let mut i: usize = 0;
    while i < bytes.len()
        invariant
            0 <= i <= bytes.len(),
            buffer@ == bytes@.subrange(0, i as int),
        decreases bytes.len() - i,
    {
        buffer.push(bytes[i]);
        i = i + 1;
    }
    assert(buffer@ == bytes@);
    buffer.push(0u8);
    buffer
}

} // verus!

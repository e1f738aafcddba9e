//! Reading and writing a tracee's memory: what became of a transfer, and the scan for
//! the end of a C string.

use crate::bytes::{append_decimal, decimal_text};
use crate::error::{Error, ErrorView};
use vstd::prelude::*;
use vstd::string::*;

verus! {

/// The size of a page of memory.
pub const PAGE: u64 = 4096;

/// The most bytes of a C string that are read at a time.
pub const CHUNK: u64 = 256;

/// The longest path that is accepted without a terminator in sight (`PATH_MAX`).
pub const PATH_MAX: usize = 4096;

/// What a transfer that moved `moved` of `wanted` bytes is described as.
pub open spec fn short_transfer(what: Seq<char>, moved: usize, wanted: usize) -> Seq<char> {
    what + decimal_text(moved as nat) + "/"@ + decimal_text(wanted as nat) + " bytes"@
}

/// What became of a transfer of `wanted` bytes: `done` is the number of bytes moved or
/// an `errno`, and anything but all of them is an error.
pub open spec fn transfer_outcome(
    what: Seq<char>,
    done: Result<usize, i32>,
    wanted: usize,
) -> Result<(), ErrorView> {
    match done {
        Err(errno) => Err(ErrorView::Errno(errno)),
        Ok(moved) => if moved == wanted {
            Ok(())
        } else {
            Err(ErrorView::Other(short_transfer(what, moved, wanted)))
        },
    }
}

/// Whether a result has a given value, its error taken by its view.
pub open spec fn is_outcome(result: Result<(), Error>, outcome: Result<(), ErrorView>) -> bool {
    match result {
        Ok(()) => outcome == Ok::<(), ErrorView>(()),
        Err(e) => outcome == Err::<(), ErrorView>(e@),
    }
}

fn short_error(what: &str, moved: usize, wanted: usize) -> (e: Error)
    ensures
        e@ == ErrorView::Other(short_transfer(what@, moved, wanted)),
{
    let mut text: String = what.to_owned();
    append_decimal(&mut text, moved as u64);
    text.append("/");
    append_decimal(&mut text, wanted as u64);
    text.append(" bytes");
    Error::Other(text)
}

/// Says whether a read of `wanted` bytes from the tracee succeeded. `done` is what
/// `process_vm_readv` returned.
pub fn read(done: Result<usize, i32>, wanted: usize) -> (result: Result<(), Error>)
    ensures
        is_outcome(result, transfer_outcome("short read from tracee: "@, done, wanted)),
{
    match done {
        Err(errno) => Err(Error::Errno(errno)),
        Ok(moved) => {
            if moved != wanted {
                return Err(short_error("short read from tracee: ", moved, wanted));
            }
            Ok(())
        },
    }
}

/// Says whether a write of `wanted` bytes to the tracee succeeded. `done` is what
/// `process_vm_writev` returned.
pub fn write(done: Result<usize, i32>, wanted: usize) -> (result: Result<(), Error>)
    ensures
        is_outcome(result, transfer_outcome("short write to tracee: "@, done, wanted)),
{
    match done {
        Err(errno) => Err(Error::Errno(errno)),
        Ok(moved) => {
            if moved != wanted {
                return Err(short_error("short write to tracee: ", moved, wanted));
            }
            Ok(())
        },
    }
}

/// The address `n` bytes further on; addresses wrap around.
pub open spec fn advanced(addr: u64, n: int) -> u64 {
    ((addr + n) % 0x1_0000_0000_0000_0000) as u64
}

/// How many bytes of a C string are read at `addr`: the read never crosses into the
/// next page, which might not be mapped.
pub open spec fn chunk_len(addr: u64) -> int {
    let to_page_end = PAGE - addr % PAGE;
    if to_page_end < CHUNK {
        to_page_end
    } else {
        CHUNK as int
    }
}

/// The scan of a C string from a tracee's memory, which is fed one chunk at a time.
#[derive(Debug)]
pub struct CStringScan {
    /// Where the next chunk starts.
    pub addr: u64,
    /// The bytes read so far, none of them a NUL.
    pub text: Vec<u8>,
}

/// What a chunk of memory has brought about.
#[derive(Debug)]
pub enum CStringStep {
    /// The whole string, without its NUL.
    Whole(Vec<u8>),
    /// The string goes on.
    More(CStringScan),
}

/// The mathematical value of a [`CStringScan`].
pub struct ScanView {
    pub addr: u64,
    pub text: Seq<u8>,
}

/// The mathematical value of a [`CStringStep`].
pub enum ScanStepView {
    Whole(Seq<u8>),
    More(ScanView),
}

impl View for CStringScan {
    type V = ScanView;

    open spec fn view(&self) -> ScanView {
        ScanView { addr: self.addr, text: self.text@ }
    }
}

impl View for CStringStep {
    type V = ScanStepView;

    open spec fn view(&self) -> ScanStepView {
        match self {
            CStringStep::Whole(text) => ScanStepView::Whole(text@),
            CStringStep::More(scan) => ScanStepView::More(scan@),
        }
    }
}

/// The error for a string that is longer than any path.
pub open spec fn too_long() -> ErrorView {
    ErrorView::Other("path from tracee exceeds PATH_MAX"@)
}

impl ScanView {
    /// The start of a scan.
    pub open spec fn at(addr: u64) -> ScanView {
        ScanView { addr, text: Seq::empty() }
    }

    /// What the next chunk brings about: it ends the string at its first NUL; without
    /// one, the string goes on unless it has become too long.
    pub open spec fn fed(self, chunk: Seq<u8>) -> Result<ScanStepView, ErrorView> {
        match chunk.index_of_first(0u8) {
            Some(end) => Ok(ScanStepView::Whole(self.text + chunk.take(end))),
            None => if self.text.len() + chunk.len() > PATH_MAX {
                Err(too_long())
            } else {
                Ok(
                    ScanStepView::More(
                        ScanView {
                            addr: advanced(self.addr, chunk_len(self.addr)),
                            text: self.text + chunk,
                        },
                    ),
                )
            },
        }
    }
}

/// Starts reading the NUL-terminated string at `addr` in the tracee.
///
/// It is read in chunks that end at page boundaries, so that the scan for the
/// terminator never runs off the end of a mapping.
pub fn read_cstring(addr: u64) -> (scan: CStringScan)
    ensures
        scan@ == ScanView::at(addr),
{
    CStringScan { addr, text: Vec::new() }
}

impl CStringScan {
    /// How many bytes to read next, at [`CStringScan::addr`].
    pub fn chunk(&self) -> (len: usize)
        ensures
            len == chunk_len(self.addr),
            0 < len <= CHUNK,
    {
        let to_page_end: u64 = PAGE - self.addr % PAGE;
        if to_page_end < CHUNK {
            to_page_end as usize
        } else {
            CHUNK as usize
        }
    }

    /// Takes in the chunk that was read.
    pub fn feed(self, chunk: &[u8]) -> (step: Result<CStringStep, Error>)
        ensures
            match step {
                Ok(s) => self@.fed(chunk@) == Ok::<ScanStepView, ErrorView>(s@),
                Err(e) => self@.fed(chunk@) == Err::<ScanStepView, ErrorView>(e@),
            },
    {
        proof {
            chunk@.index_of_first_ensures(0u8);
        }
        let advance: u64 = self.chunk() as u64;
        let addr: u64 = self.addr.wrapping_add(advance);
        let mut text = self.text;
        let mut i: usize = 0;
        while i < chunk.len()
            invariant
                i <= chunk@.len(),
                text@ == self.text@ + chunk@.take(i as int),
                forall|k: int| 0 <= k < i ==> chunk@[k] != 0,
                match chunk@.index_of_first(0u8) {
                    Some(end) => 0 <= end < chunk@.len() && chunk@[end] == 0 && forall|k: int|
                        0 <= k < end ==> chunk@[k] != 0,
                    None => !chunk@.contains(0u8),
                },
            decreases chunk@.len() - i,
        {
            if chunk[i] == 0 {
                assert(chunk@.contains(0u8));
                return Ok(CStringStep::Whole(text));
            }
            text.push(chunk[i]);
            assert(chunk@.take(i + 1) =~= chunk@.take(i as int).push(chunk@[i as int]));
            i = i + 1;
        }
        assert(chunk@.take(i as int) =~= chunk@);
        assert(!chunk@.contains(0u8));
        if text.len() > PATH_MAX {
            return Err(Error::other("path from tracee exceeds PATH_MAX"));
        }
        Ok(CStringStep::More(CStringScan { addr, text }))
    }
}

/// A tracee's memory: the byte at each address, and which reads fail, with what error.
pub struct Memory {
    pub byte: spec_fn(u64) -> u8,
    pub fault: spec_fn(u64, int) -> Option<ErrorView>,
}

impl Memory {
    /// The bytes in a range of addresses.
    pub open spec fn bytes(self, addr: u64, len: int) -> Seq<u8> {
        Seq::new(len as nat, |i: int| (self.byte)(advanced(addr, i)))
    }

    /// What a read of `len` bytes at `addr` gives.
    pub open spec fn read(self, addr: u64, len: int) -> Result<Seq<u8>, ErrorView> {
        match (self.fault)(addr, len) {
            Some(e) => Err(e),
            None => Ok(self.bytes(addr, len)),
        }
    }

    /// The rest of a scan: the whole string, or the error that ends it.
    pub open spec fn scan(self, scan: ScanView) -> Result<Seq<u8>, ErrorView>
        decreases PATH_MAX + 1 - scan.text.len(),
    {
        match self.read(scan.addr, chunk_len(scan.addr)) {
            Err(e) => Err(e),
            Ok(chunk) => match scan.fed(chunk) {
                Err(e) => Err(e),
                Ok(ScanStepView::Whole(text)) => Ok(text),
                Ok(ScanStepView::More(next)) => self.scan(next),
            },
        }
    }

    /// The C string at an address.
    pub open spec fn cstring(self, addr: u64) -> Result<Seq<u8>, ErrorView> {
        self.scan(ScanView::at(addr))
    }
}

proof fn lemma_advanced(addr: u64, n: int, m: int)
    ensures
        advanced(advanced(addr, n), m) == advanced(addr, n + m),
        advanced(addr, 0) == addr,
{
    let size = 0x1_0000_0000_0000_0000int;
    vstd::arithmetic::div_mod::lemma_add_mod_noop_right(m, addr + n, size);
    assert(((addr + n) % size + m) % size == (addr + n + m) % size);
    vstd::arithmetic::div_mod::lemma_small_mod(addr as nat, size as nat);
}

/// Why the chunk that starts at an address cannot be read, where it cannot.
pub open spec fn faults(memory: Memory, addr: u64) -> Option<ErrorView> {
    (memory.fault)(addr, chunk_len(addr))
}

/// The rest of a scan that has so far read the `n` bytes from `addr` on.
proof fn lemma_scan(memory: Memory, addr: u64, n: int)
    requires
        0 <= n <= PATH_MAX,
    ensures
        ({
            let scan = ScanView { addr: advanced(addr, n), text: memory.bytes(addr, n) };
            match memory.scan(scan) {
                Ok(text) => {
                    &&& n <= text.len() < PATH_MAX + CHUNK
                    &&& text == memory.bytes(addr, text.len() as int)
                    &&& (memory.byte)(advanced(addr, text.len() as int)) == 0
                    &&& forall|i: int|
                        n <= i < text.len() ==> #[trigger] (memory.byte)(advanced(addr, i)) != 0
                },
                Err(e) => {
                    ||| exists|k: int|
                        n <= k <= PATH_MAX && #[trigger] faults(memory, advanced(addr, k)) == Some(e)
                            && forall|i: int|
                            n <= i < k ==> #[trigger] (memory.byte)(advanced(addr, i)) != 0
                    ||| e == too_long() && forall|i: int|
                        n <= i <= PATH_MAX ==> #[trigger] (memory.byte)(advanced(addr, i)) != 0
                },
            }
        }),
    decreases PATH_MAX + 1 - n,
{
    let scan = ScanView { addr: advanced(addr, n), text: memory.bytes(addr, n) };
    let len = chunk_len(scan.addr);
    let chunk = memory.bytes(scan.addr, len);
    assert forall|i: int| 0 <= i < len implies #[trigger] chunk[i] == (memory.byte)(
        advanced(addr, n + i),
    ) by {
        lemma_advanced(addr, n, i);
    }
    assert forall|i: int| n <= i < n + len implies #[trigger] (memory.byte)(advanced(addr, i))
        == chunk[i - n] by {
        assert(chunk[i - n] == (memory.byte)(advanced(addr, n + (i - n))));
    }
    assert(scan.text + chunk =~= memory.bytes(addr, n + len));
    chunk.index_of_first_ensures(0u8);
    match (memory.fault)(scan.addr, len) {
        Some(e) => {
            assert(faults(memory, advanced(addr, n)) == Some(e));
        },
        None => match chunk.index_of_first(0u8) {
            Some(end) => {
                assert(scan.text + chunk.take(end) =~= memory.bytes(addr, n + end));
                assert(chunk[end] == (memory.byte)(advanced(addr, n + end)));
            },
            None => {
                assert forall|i: int| n <= i < n + len implies #[trigger] (memory.byte)(
                    advanced(addr, i),
                ) != 0 by {
                    assert(chunk.contains(chunk[i - n]));
                }
                if n + len <= PATH_MAX {
                    lemma_advanced(addr, n, len);
                    lemma_scan(memory, addr, n + len);
                }
            },
        },
    }
}

/// No chunk of a string is empty or crosses into the page behind the one that it starts
/// in.
pub proof fn law_chunks_stay_in_their_page(addr: u64, i: int)
    requires
        0 <= i < chunk_len(addr),
    ensures
        chunk_len(addr) > 0,
        advanced(addr, i) == addr + i,
        (addr + i) / PAGE as int == addr as int / PAGE as int,
{
}

/// A C string that is read holds the bytes at its address up to the first NUL, and no
/// others.
pub proof fn law_cstring_ends_at_nul(memory: Memory, addr: u64)
    ensures
        memory.cstring(addr) matches Ok(text) ==> {
            &&& text == memory.bytes(addr, text.len() as int)
            &&& (memory.byte)(advanced(addr, text.len() as int)) == 0
            &&& !text.contains(0u8)
        },
{
    lemma_advanced(addr, 0, 0);
    assert(memory.bytes(addr, 0) =~= Seq::empty());
    lemma_scan(memory, addr, 0);
    match memory.cstring(addr) {
        Ok(text) => {
            assert forall|i: int| 0 <= i < text.len() implies text[i] != 0 by {
                assert(text[i] == (memory.byte)(advanced(addr, i)));
            }
        },
        Err(e) => {},
    }
}

/// A string of up to `PATH_MAX` bytes is read whole where each chunk that starts at one
/// of its bytes, its NUL among them, can be read. What lies behind the page of its NUL
/// need not be mapped.
pub proof fn law_cstring_reads_paths(memory: Memory, addr: u64, len: int)
    requires
        0 <= len <= PATH_MAX,
        forall|k: int| 0 <= k <= len ==> #[trigger] faults(memory, advanced(addr, k)) is None,
        forall|i: int| 0 <= i < len ==> #[trigger] (memory.byte)(advanced(addr, i)) != 0,
        (memory.byte)(advanced(addr, len)) == 0,
    ensures
        memory.cstring(addr) == Ok::<Seq<u8>, ErrorView>(memory.bytes(addr, len)),
{
    lemma_advanced(addr, 0, 0);
    assert(memory.bytes(addr, 0) =~= Seq::empty());
    lemma_scan(memory, addr, 0);
    match memory.cstring(addr) {
        Ok(text) => {
            if text.len() < len {
                assert((memory.byte)(advanced(addr, text.len() as int)) != 0);
            }
            if text.len() > len {
                assert((memory.byte)(advanced(addr, len)) != 0);
            }
        },
        Err(e) => {
            if exists|k: int|
                0 <= k && #[trigger] faults(memory, advanced(addr, k)) == Some(e) && forall|i: int|
                    0 <= i < k ==> #[trigger] (memory.byte)(advanced(addr, i)) != 0 {
                let k = choose|k: int|
                    0 <= k && #[trigger] faults(memory, advanced(addr, k)) == Some(e)
                        && forall|i: int|
                        0 <= i < k ==> #[trigger] (memory.byte)(advanced(addr, i)) != 0;
                if k > len {
                    assert((memory.byte)(advanced(addr, len)) != 0);
                }
            } else {
                assert((memory.byte)(advanced(addr, len)) != 0);
            }
        },
    }
}

/// A string that is too long is refused: where each chunk that starts in the first
/// `PATH_MAX` bytes or right behind them can be read, and none of those chunks can hold a
/// NUL, the scan ends with the error for it.
pub proof fn law_overlong_cstring_is_refused(memory: Memory, addr: u64)
    requires
        forall|k: int| 0 <= k <= PATH_MAX ==> #[trigger] faults(memory, advanced(addr, k)) is None,
        forall|i: int|
            0 <= i < PATH_MAX + CHUNK ==> #[trigger] (memory.byte)(advanced(addr, i)) != 0,
    ensures
        memory.cstring(addr) == Err::<Seq<u8>, ErrorView>(too_long()),
{
    lemma_advanced(addr, 0, 0);
    assert(memory.bytes(addr, 0) =~= Seq::empty());
    lemma_scan(memory, addr, 0);
    match memory.cstring(addr) {
        Ok(text) => {
            assert((memory.byte)(advanced(addr, text.len() as int)) != 0);
        },
        Err(e) => {},
    }
}

/// A transfer succeeds exactly where every byte was moved, and one that failed outright
/// fails with its own error number.
pub proof fn law_transfers(what: Seq<char>, done: Result<usize, i32>, wanted: usize)
    ensures
        transfer_outcome(what, done, wanted) is Ok <==> done == Ok::<usize, i32>(wanted),
        done matches Err(errno) ==> transfer_outcome(what, done, wanted) == Err::<(), ErrorView>(
            ErrorView::Errno(errno),
        ),
{
}

/// A read takes 256 bytes, or fewer where its page ends before.
pub proof fn law_chunk_sizes(addr: u64)
    ensures
        addr % 4096 <= 3840 ==> chunk_len(addr) == 256,
        addr % 4096 > 3840 ==> chunk_len(addr) == 4096 - addr % 4096,
{
}

/// Addresses go up one by one and wrap around at the end.
pub proof fn law_addresses(addr: u64, n: int)
    requires
        0 <= n <= u64::MAX,
    ensures
        addr + n <= u64::MAX ==> advanced(addr, n) == addr + n,
        addr + n > u64::MAX ==> advanced(addr, n) == addr + n - u64::MAX - 1,
{
    let size = 0x1_0000_0000_0000_0000int;
    if addr + n <= u64::MAX {
        vstd::arithmetic::div_mod::lemma_small_mod((addr + n) as nat, size as nat);
    } else {
        vstd::arithmetic::div_mod::lemma_small_mod((addr + n - size) as nat, size as nat);
        vstd::arithmetic::div_mod::lemma_mod_sub_multiples_vanish(addr + n, size);
    }
}

} // verus!

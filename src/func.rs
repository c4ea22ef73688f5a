//! One bus function, read through an injected configuration-space accessor.

use vstd::prelude::*;

use crate::bytes::{byte_of_dword, dword_byte, dword_bytes};
use crate::error::PciError;
use crate::header::{decode_header, PciHeader, ABSENT, HEADER_LEN};

verus! {

/// Bytes in the legacy configuration space of one function.
pub const CONFIG_SPACE_LEN: usize = 256;

/// Whole-dword reads of configuration space. Reads of header fields have no
/// side effects, so a register reads the same value each time it is asked
/// for; callers that share the hardware serialise each read themselves.
pub trait ConfigAccess {
    /// The dword that function `func` holds at byte `offset`.
    spec fn spec_dword(&self, func: u8, offset: u8) -> u32;

    /// Reads the dword at the dword-aligned byte `offset` of function `func`.
    fn read_dword(&self, func: u8, offset: u8) -> (r: u32)
        requires
            offset % 4 == 0,
        ensures
            r == self.spec_dword(func, offset),
    ;
}

/// Byte `i` of the configuration space of function `func`.
pub open spec fn config_byte<A: ConfigAccess>(dev: &A, func: u8, i: int) -> u8 {
    dword_byte(dev.spec_dword(func, (i - i % 4) as u8), i % 4)
}

/// The whole 256-byte configuration space of function `func`.
pub open spec fn config_bytes<A: ConfigAccess>(dev: &A, func: u8) -> Seq<u8> {
    Seq::new(CONFIG_SPACE_LEN as nat, |i: int| config_byte(dev, func, i))
}

/// What `PciFunc::header` returns for function `func`: nothing for an absent
/// function, else the decoding of its first 64 bytes.
pub open spec fn function_header<A: ConfigAccess>(dev: &A, func: u8) -> Result<
    Option<PciHeader>,
    PciError,
> {
    if dev.spec_dword(func, 0) == ABSENT {
        Ok(None)
    } else {
        match decode_header(config_bytes(dev, func).take(HEADER_LEN as int)) {
            Ok(h) => Ok(Some(h)),
            Err(e) => Err(e),
        }
    }
}

/// A captured configuration space: function `func` holds the 64 dwords given,
/// and every other function is absent.
pub struct ConfigSpace {
    pub func: u8,
    pub dwords: [u32; 64],
}

impl ConfigAccess for ConfigSpace {
    open spec fn spec_dword(&self, func: u8, offset: u8) -> u32 {
        if func == self.func {
            self.dwords@[(offset / 4) as int]
        } else {
            ABSENT
        }
    }

    fn read_dword(&self, func: u8, offset: u8) -> (r: u32) {
        if func == self.func {
            self.dwords[(offset / 4) as usize]
        } else {
            ABSENT
        }
    }
}

/// Appends the four bytes of `d`, least significant first.
fn push_dword(v: &mut Vec<u8>, d: u32)
    ensures
        final(v)@ == old(v)@ + dword_bytes(d),
{
    v.push(byte_of_dword(d, 0));
    v.push(byte_of_dword(d, 1));
    v.push(byte_of_dword(d, 2));
    v.push(byte_of_dword(d, 3));
    assert(v@ =~= old(v)@ + dword_bytes(d));
}

/// Function `num` of a device whose configuration space `dev` reads.
pub struct PciFunc<'pci, A> {
    pub dev: &'pci A,
    pub num: u8,
}

impl<'pci, A: ConfigAccess> PciFunc<'pci, A> {
    /// Reads the dword at the dword-aligned byte `offset`.
    pub fn read(&self, offset: u8) -> (r: u32)
        requires
            offset % 4 == 0,
        ensures
            r == self.dev.spec_dword(self.num, offset),
    {
        self.dev.read_dword(self.num, offset)
    }

    /// Whether the function responds: its first dword is not all ones.
    pub fn probe(&self) -> (r: bool)
        ensures
            r == (self.dev.spec_dword(self.num, 0) != ABSENT),
    {
        self.read(0) != ABSENT
    }

    /// The `len` bytes of configuration space from byte `start` on, assembled
    /// from the whole dwords that cover them.
    pub fn read_range(&self, start: u8, len: u8) -> (r: Result<Vec<u8>, PciError>)
        ensures
            start + len > CONFIG_SPACE_LEN ==> r == Err::<Vec<u8>, PciError>(PciError::OutOfRange),
            start + len <= CONFIG_SPACE_LEN ==> r is Ok && r->Ok_0@ == config_bytes(
                self.dev,
                self.num,
            ).subrange(start as int, start + len),
    {
        let end: usize = start as usize + len as usize;
        if end > CONFIG_SPACE_LEN {
            return Err(PciError::OutOfRange);
        }
        let ghost all = config_bytes(self.dev, self.num);
        let mut out: Vec<u8> = Vec::new();
        let mut cur: u32 = 0;
        let mut i: usize = start as usize;
        while i < end
            invariant
                start <= i <= end <= CONFIG_SPACE_LEN,
                all == config_bytes(self.dev, self.num),
                out@ =~= all.subrange(start as int, i as int),
                start < i ==> cur == self.dev.spec_dword(
                    self.num,
                    ((i - 1) - (i - 1) % 4) as u8,
                ),
            decreases end - i,
        {
            let k: usize = i % 4;
            if i == start as usize || k == 0 {
                cur = self.read((i - k) as u8);
            }
            out.push(byte_of_dword(cur, k as u8));
            i = i + 1;
        }
        Ok(out)
    }

    /// Decodes the function's header. Absent function: `Ok(None)`. The 16
    /// dwords of the header are each read once, in increasing order.
    pub fn header(&self) -> (r: Result<Option<PciHeader>, PciError>)
        ensures
            r == function_header(self.dev, self.num),
    {
        let first = self.read(0);
        if first == ABSENT {
            return Ok(None);
        }
        let ghost all = config_bytes(self.dev, self.num);
        let mut bytes: Vec<u8> = Vec::new();
        push_dword(&mut bytes, first);
        let mut offset: usize = 4;
        while offset < HEADER_LEN
            invariant
                4 <= offset <= HEADER_LEN,
                offset % 4 == 0,
                all == config_bytes(self.dev, self.num),
                bytes@ =~= all.take(offset as int),
            decreases HEADER_LEN - offset,
        {
            let d = self.read(offset as u8);
            push_dword(&mut bytes, d);
            offset = offset + 4;
        }
        match PciHeader::from_bytes(bytes.as_slice(), HEADER_LEN) {
            Ok(h) => Ok(Some(h)),
            Err(e) => Err(e),
        }
    }
}

/// The header is reported absent, rather than as an error, exactly when the
/// first dword is all ones, which is exactly when a probe gets no answer.
pub proof fn lemma_absent_function<A: ConfigAccess>(dev: &A, func: u8)
    ensures
        (function_header(dev, func) == Ok::<Option<PciHeader>, PciError>(None)) == (
        dev.spec_dword(func, 0) == ABSENT),
{
}

} // verus!

use vstd::prelude::*;

verus! {

/// A site at which an inline hook is installed. Nothing at the site can be
/// checked beforehand: the hook is placed as told.
#[derive(Debug, Clone, Copy, PartialEq, Eq, Structural)]
pub struct FunctionHookPatch {
    pub offset: usize,
}

/// A four-byte instruction to rewrite, only where the bytes found there are the
/// expected ones.
#[derive(Debug, Clone, Copy)]
pub struct InstructionPatch {
    offset: usize,
    expect: [u8; 4],
    replace: [u8; 4],
}

/// `base + offset`, where it fits in a `usize`.
pub open spec fn site_address(base: usize, offset: usize) -> Option<usize> {
    if base + offset <= usize::MAX {
        Some((base + offset) as usize)
    } else {
        None
    }
}

/// Whether `region` holds the four bytes `expect` at `offset`.
pub open spec fn holds_at(region: Seq<u8>, offset: int, expect: Seq<u8>) -> bool {
    offset + 4 <= region.len() && region.subrange(offset, offset + 4) == expect
}

/// `region` with the four bytes at `offset` replaced by `replace`.
pub open spec fn written_at(region: Seq<u8>, offset: int, replace: Seq<u8>) -> Seq<u8> {
    region.subrange(0, offset) + replace + region.subrange(offset + 4, region.len() as int)
}

impl FunctionHookPatch {
    /// Where the hook goes in a code region that starts at `base`.
    pub fn target_address(&self, base: usize) -> (r: Option<usize>)
        ensures
            r == site_address(base, self.offset),
    {
        base.checked_add(self.offset)
    }
}

impl InstructionPatch {
    pub closed spec fn spec_offset(&self) -> usize {
        self.offset
    }

    pub closed spec fn spec_expect(&self) -> Seq<u8> {
        self.expect@
    }

    pub closed spec fn spec_replace(&self) -> Seq<u8> {
        self.replace@
    }

    pub fn new(offset: usize, expect: [u8; 4], replace: [u8; 4]) -> (r: InstructionPatch)
        ensures
            r.spec_offset() == offset,
            r.spec_expect() == expect@,
            r.spec_replace() == replace@,
    {
        InstructionPatch { offset, expect, replace }
    }

    pub fn offset(&self) -> (r: usize)
        ensures
            r == self.spec_offset(),
    {
        self.offset
    }

    pub fn expect(&self) -> (r: [u8; 4])
        ensures
            r@ == self.spec_expect(),
    {
        self.expect
    }

    pub fn replace(&self) -> (r: [u8; 4])
        ensures
            r@ == self.spec_replace(),
    {
        self.replace
    }

    /// Where the instruction lies in a code region that starts at `base`.
    pub fn target_address(&self, base: usize) -> (r: Option<usize>)
        ensures
            r == site_address(base, self.spec_offset()),
    {
        base.checked_add(self.offset)
    }

    /// Whether the bytes found at the site are the expected ones, which is the
    /// one condition under which the site may be written.
    pub fn matches_live(&self, live: &[u8; 4]) -> (r: bool)
        ensures
            r == (live@ == self.spec_expect()),
    {
        let r = live[0] == self.expect[0] && live[1] == self.expect[1] && live[2]
            == self.expect[2] && live[3] == self.expect[3];
        proof {
            if r {
                assert(live@ =~= self.expect@);
            }
        }
        r
    }

    /// Applies the patch to `text`, the code region, and tells whether it did.
    /// The four bytes at the offset are replaced only where they are the expected
    /// ones; otherwise, the offset running past the region included, nothing
    /// changes.
    pub fn patch(&self, text: &mut Vec<u8>) -> (r: bool)
        ensures
            r == holds_at(old(text)@, self.spec_offset() as int, self.spec_expect()),
            r ==> final(text)@ == written_at(
                old(text)@,
                self.spec_offset() as int,
                self.spec_replace(),
            ),
            !r ==> final(text)@ == old(text)@,
    {
        let off = self.offset;
        if off > text.len() || text.len() - off < 4 {
            return false;
        }
        let live: [u8; 4] = [text[off], text[off + 1], text[off + 2], text[off + 3]];
        assert(live@ =~= text@.subrange(off as int, off + 4));
        if !self.matches_live(&live) {
            return false;
        }
        let ghost before = text@;
        text.set(off, self.replace[0]);
        text.set(off + 1, self.replace[1]);
        text.set(off + 2, self.replace[2]);
        text.set(off + 3, self.replace[3]);
        assert(text@ =~= written_at(before, off as int, self.replace@));
        true
    }
}

} // verus!

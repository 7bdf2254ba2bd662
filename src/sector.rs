//! Sector-aligned reads of a raw volume.
//!
//! A raw volume handle refuses reads that do not start on a sector boundary
//! or do not cover whole sectors. The cursor keeps the logical position
//! that upper layers seek to, and turns each read into the aligned window
//! to fetch from the volume and the part of it that was asked for.
use vstd::arithmetic::div_mod::{lemma_fundamental_div_mod, lemma_mod_multiples_basic, lemma_mod_pos_bound};
use vstd::prelude::*;

verus! {

/// Whether a number is a power of two.
pub open spec fn is_power_of_two(n: nat) -> bool
    decreases n,
{
    if n <= 1 {
        n == 1
    } else {
        n % 2 == 0 && is_power_of_two(n / 2)
    }
}

/// The start of the sector that holds byte `pos`.
pub open spec fn align_down(pos: nat, sector: nat) -> nat {
    (pos / sector) * sector
}

/// The aligned window that one read fetches: where it starts on the
/// volume, how many of its bytes come before the logical position, and how
/// many bytes it spans in all.
#[derive(Debug, Clone, Copy, PartialEq, Eq, Structural)]
pub struct SectorWindow {
    pub start: u64,
    pub skip: usize,
    pub total: usize,
}

/// A logical position on a volume read in whole sectors.
pub struct SectorCursor {
    sector_size: u64,
    position: u64,
}

impl SectorCursor {
    pub closed spec fn sector(&self) -> nat {
        self.sector_size as nat
    }

    pub closed spec fn pos(&self) -> nat {
        self.position as nat
    }

    /// The sector size is a power of two.
    pub open spec fn wf(&self) -> bool {
        is_power_of_two(self.sector()) && self.sector() <= u64::MAX
    }

    /// A cursor at position 0, for a sector size that is a power of two.
    pub fn new(sector_size: u64) -> (r: Option<SectorCursor>)
        ensures
            r is Some <==> is_power_of_two(sector_size as nat),
            r matches Some(c) ==> c.wf() && c.sector() == sector_size && c.pos() == 0,
    {
        let mut n = sector_size;
        if n == 0 {
            return None;
        }
        while n > 1 && n % 2 == 0
            invariant
                n >= 1,
                is_power_of_two(n as nat) == is_power_of_two(sector_size as nat),
            decreases n,
        {
            n = n / 2;
        }
        if n == 1 {
            Some(SectorCursor { sector_size, position: 0 })
        } else {
            None
        }
    }

    /// The sector size.
    pub fn sector_size(&self) -> (r: u64)
        ensures
            r == self.sector(),
    {
        self.sector_size
    }

    /// The logical position.
    pub fn position(&self) -> (r: u64)
        ensures
            r == self.pos(),
    {
        self.position
    }

    /// Moves to an absolute position; returns the sector boundary at or
    /// below it, where the volume itself is to be positioned.
    pub fn seek_to(&mut self, pos: u64) -> (r: u64)
        requires
            old(self).wf(),
        ensures
            final(self).wf(),
            final(self).sector() == old(self).sector(),
            final(self).pos() == pos,
            r == align_down(pos as nat, old(self).sector()),
    {
        proof {
            lemma_fundamental_div_mod(pos as int, self.sector_size as int);
            lemma_mod_pos_bound(pos as int, self.sector_size as int);
            assert((pos / self.sector_size) * self.sector_size == self.sector_size * (pos / self.sector_size)) by (nonlinear_arith);
        }
        self.position = pos;
        (pos / self.sector_size) * self.sector_size
    }

    /// Moves by a signed offset. A move below zero or past the largest
    /// position is refused and leaves the cursor where it was.
    pub fn seek_by(&mut self, delta: i64) -> (r: Option<u64>)
        requires
            old(self).wf(),
        ensures
            final(self).wf(),
            final(self).sector() == old(self).sector(),
            0 <= old(self).pos() + delta <= u64::MAX ==> r == Some(
                align_down((old(self).pos() + delta) as nat, old(self).sector()) as u64,
            ) && final(self).pos() == old(self).pos() + delta,
            !(0 <= old(self).pos() + delta <= u64::MAX) ==> r is None && final(self).pos() == old(self).pos(),
    {
        let target: Option<u64> = if delta >= 0 {
            self.position.checked_add(delta as u64)
        } else {
            let back: u64 = if delta == i64::MIN {
                0x8000_0000_0000_0000u64
            } else {
                (-delta) as u64
            };
            self.position.checked_sub(back)
        };
        match target {
            Some(t) => Some(self.seek_to(t)),
            None => None,
        }
    }

    /// The aligned window for a read of `len` bytes at the logical position:
    /// it starts on the sector boundary at or below the position and spans
    /// the fewest whole sectors that cover the bytes asked for.
    pub fn window(&self, len: usize) -> (r: SectorWindow)
        requires
            self.wf(),
            self.sector() + len + self.sector() <= usize::MAX,
        ensures
            r.start == align_down(self.pos(), self.sector()),
            r.skip == self.pos() - r.start,
            r.skip < self.sector(),
            r.total as nat % self.sector() == 0,
            r.skip + len <= r.total < r.skip + len + self.sector(),
    {
        let s = self.sector_size;
        let p = self.position;
        proof {
            lemma_fundamental_div_mod(p as int, s as int);
            lemma_mod_pos_bound(p as int, s as int);
            assert((p / s) * s == s * (p / s)) by (nonlinear_arith);
        }
        let start = (p / s) * s;
        let skip = (p % s) as usize;
        let need = skip + len;
        let su = s as usize;
        let q = (need + su - 1) / su;
        proof {
            lemma_fundamental_div_mod((need + su - 1) as int, su as int);
            lemma_mod_pos_bound((need + su - 1) as int, su as int);
            assert(q * su == su * q) by (nonlinear_arith);
            assert(q * su <= need + su - 1);
            lemma_mod_multiples_basic(q as int, su as int);
        }
        let total = q * su;
        SectorWindow { start, skip, total }
    }

    /// Takes the bytes asked for out of a fetched window and advances the
    /// logical position past them.
    pub fn take(&mut self, fetched: &[u8], w: SectorWindow, len: usize) -> (r: Vec<u8>)
        requires
            old(self).wf(),
            w.skip + len <= w.total,
            fetched@.len() == w.total,
            old(self).pos() + len <= u64::MAX,
        ensures
            final(self).wf(),
            final(self).sector() == old(self).sector(),
            final(self).pos() == old(self).pos() + len,
            r@ == fetched@.subrange(w.skip as int, w.skip + len),
    {
        let mut out: Vec<u8> = Vec::new();
        let mut i: usize = 0;
        while i < len
            invariant
                i <= len,
                w.skip + len <= w.total,
                fetched@.len() == w.total,
                out@ == fetched@.subrange(w.skip as int, w.skip + i),
            decreases len - i,
        {
            out.push(fetched[w.skip + i]);
            assert(out@ =~= fetched@.subrange(w.skip as int, w.skip + i + 1));
            i = i + 1;
        }
        self.position = self.position + len as u64;
        out
    }
}

} // verus!

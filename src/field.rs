use vstd::prelude::*;

verus! {

/// Explosion count: the low four bits of a cell byte.
pub open spec fn cell_count(b: u8) -> u8 {
    b % 16
}

/// Owning player: bits 4 to 6 of a cell byte (0 is nobody).
pub open spec fn cell_player(b: u8) -> u8 {
    (b / 16 % 8) as u8
}

/// The transient "just exploded" flag: bit 7 of a cell byte.
pub open spec fn cell_boom(b: u8) -> bool {
    b >= 128
}

proof fn lemma_count_bits(b: u8, c: u8)
    ensures
        ((b & !0xFu8) | (c & 0xF)) % 16 == c % 16,
        ((b & !0xFu8) | (c & 0xF)) / 16 % 8 == b / 16 % 8,
        (((b & !0xFu8) | (c & 0xF)) >= 128) == (b >= 128),
        b & 0xF == b % 16,
{
    assert(((b & !0xFu8) | (c & 0xF)) % 16 == c % 16) by (bit_vector);
    assert(((b & !0xFu8) | (c & 0xF)) / 16 % 8 == b / 16 % 8) by (bit_vector);
    assert((((b & !0xFu8) | (c & 0xF)) >= 128) == (b >= 128)) by (bit_vector);
    assert(b & 0xF == b % 16) by (bit_vector);
}

proof fn lemma_player_bits(b: u8, p: u8)
    ensures
        ((b & !0x70u8) | ((p & 0x7) << 4u8)) % 16 == b % 16,
        ((b & !0x70u8) | ((p & 0x7) << 4u8)) / 16 % 8 == p % 8,
        (((b & !0x70u8) | ((p & 0x7) << 4u8)) >= 128) == (b >= 128),
        (b & 0x70) >> 4u8 == b / 16 % 8,
        p & 0x7 == p % 8,
{
    assert(((b & !0x70u8) | ((p & 0x7) << 4u8)) % 16 == b % 16) by (bit_vector);
    assert(((b & !0x70u8) | ((p & 0x7) << 4u8)) / 16 % 8 == p % 8) by (bit_vector);
    assert((((b & !0x70u8) | ((p & 0x7) << 4u8)) >= 128) == (b >= 128)) by (bit_vector);
    assert((b & 0x70) >> 4u8 == b / 16 % 8) by (bit_vector);
    assert(p & 0x7 == p % 8) by (bit_vector);
}

proof fn lemma_boom_bits(b: u8, f: u8)
    requires
        f == 0 || f == 0x80,
    ensures
        ((b & !0x80u8) | f) % 16 == b % 16,
        ((b & !0x80u8) | f) / 16 % 8 == b / 16 % 8,
        (((b & !0x80u8) | f) >= 128) == (f == 0x80),
        ((b & 0x80) == 0x80) == (b >= 128),
{
    assert(((b & !0x80u8) | f) % 16 == b % 16 && ((b & !0x80u8) | f) / 16 % 8 == b / 16 % 8)
        by (bit_vector)
        requires
            f == 0 || f == 0x80,
    ;
    assert((((b & !0x80u8) | f) >= 128) == (f == 0x80)) by (bit_vector)
        requires
            f == 0 || f == 0x80,
    ;
    assert(((b & 0x80) == 0x80) == (b >= 128)) by (bit_vector);
}

/// One cell of the Chain Reaction board, packed in a byte: the explosion
/// count in bits 0 to 3, the owning player in bits 4 to 6 and the
/// "just exploded" flag in bit 7.
#[derive(Clone, Copy, Debug, PartialEq, Eq, Structural)]
pub struct Field(pub u8);

impl Default for Field {
    fn default() -> (r: Field)
        ensures
            r.0 == 0,
    {
        Field(0)
    }
}

impl Field {
    #[inline]
    pub fn count(&self) -> (r: u8)
        ensures
            r == cell_count(self.0),
    {
        proof {
            lemma_count_bits(self.0, 0);
        }
        self.0 & 0xF
    }

    /// Sets the count to `count & 0xF`, keeping the other bits; a count of
    /// zero also clears the owner.
    #[inline]
    pub fn set_count(&mut self, count: u8)
        ensures
            cell_count(final(self).0) == count % 16,
            cell_player(final(self).0) == (if count == 0 {
                0
            } else {
                cell_player(old(self).0)
            }),
            cell_boom(final(self).0) == cell_boom(old(self).0),
    {
        proof {
            lemma_count_bits(self.0, count);
        }
        self.0 = (self.0 & !0xF) | (count & 0xF);
        if count == 0 {
            self.set_player(0);
        }
    }

    #[inline]
    pub fn add_count(&mut self, count: u8)
        requires
            cell_count(old(self).0) + count <= 255,
        ensures
            cell_count(final(self).0) == (cell_count(old(self).0) + count) % 16,
            cell_player(final(self).0) == (if cell_count(old(self).0) + count == 0 {
                0
            } else {
                cell_player(old(self).0)
            }),
            cell_boom(final(self).0) == cell_boom(old(self).0),
    {
        let c = self.count();
        self.set_count(c + count);
    }

    #[inline]
    pub fn sub_count(&mut self, count: u8)
        requires
            count <= cell_count(old(self).0),
        ensures
            cell_count(final(self).0) == cell_count(old(self).0) - count,
            cell_player(final(self).0) == (if cell_count(old(self).0) == count {
                0
            } else {
                cell_player(old(self).0)
            }),
            cell_boom(final(self).0) == cell_boom(old(self).0),
    {
        let c = self.count();
        self.set_count(c - count);
    }

    #[inline]
    pub fn player(&self) -> (r: u8)
        ensures
            r == cell_player(self.0),
    {
        proof {
            lemma_player_bits(self.0, 0);
        }
        (self.0 & 0x70) >> 4
    }

    /// Sets the owner to `player & 0x7`, keeping the other bits.
    #[inline]
    pub fn set_player(&mut self, player: u8)
        ensures
            cell_count(final(self).0) == cell_count(old(self).0),
            cell_player(final(self).0) == player % 8,
            cell_boom(final(self).0) == cell_boom(old(self).0),
    {
        proof {
            lemma_player_bits(self.0, player);
        }
        self.0 = (self.0 & !0x70) | ((player & 0x7) << 4);
    }

    #[inline]
    pub fn boom(&self) -> (r: bool)
        ensures
            r == cell_boom(self.0),
    {
        proof {
            lemma_boom_bits(self.0, 0);
        }
        (self.0 & 0x80) == 0x80
    }

    #[inline]
    pub fn set_boom(&mut self, boom: bool)
        ensures
            cell_count(final(self).0) == cell_count(old(self).0),
            cell_player(final(self).0) == cell_player(old(self).0),
            cell_boom(final(self).0) == boom,
    {
        let flag: u8 = if boom {
            0x80
        } else {
            0
        };
        proof {
            lemma_boom_bits(self.0, flag);
        }
        self.0 = (self.0 & !0x80) | flag;
    }
}

} // verus!

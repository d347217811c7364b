use vstd::prelude::*;

verus! {

/// The length of the seed, and of the pool of random bytes.
pub const SEED_SIZE: usize = 48;

/// A source of pseudo-random bytes drawn from a pool of `SEED_SIZE` bytes;
/// once every byte was drawn, the pool is shuffled and drawing starts over.
pub struct Random {
    data: Vec<u8>,
    current_index: usize,
}

/// A type whose values can be drawn from a `Random`.
pub trait Randomizeable: Sized {
    fn get_random(random: &mut Random) -> Self;
}

/// The pool made from a seed and a salt: each seed byte plus the salt byte
/// at the same place, the salt repeated, modulo 256.
pub open spec fn seeded_pool(seed: Seq<u8>, salt: Seq<u8>) -> Seq<u8> {
    Seq::new(
        SEED_SIZE as nat,
        |i: int| ((seed[i] as int + salt[i % (salt.len() as int)] as int) % 256) as u8,
    )
}

/// The pool after a shuffle: each byte but the last becomes itself plus the
/// next byte plus one, modulo 256.
pub open spec fn shuffled(d: Seq<u8>) -> Seq<u8> {
    Seq::new(
        d.len(),
        |i: int|
            if i < d.len() - 1 {
                ((d[i] as int + d[i + 1] as int + 1) % 256) as u8
            } else {
                d[i]
            },
    )
}

/// The pool and the position once a byte was drawn at `pos`: the next
/// position, or a shuffled pool and the first position after the last byte.
pub open spec fn after_draw(pool: Seq<u8>, pos: nat) -> (Seq<u8>, nat) {
    if pos + 1 == SEED_SIZE {
        (shuffled(pool), 0)
    } else {
        (pool, pos + 1)
    }
}

impl Random {
    /// The pool of random bytes.
    pub closed spec fn pool(&self) -> Seq<u8> {
        self.data@
    }

    /// Where in the pool the next byte is drawn.
    pub closed spec fn position(&self) -> nat {
        self.current_index as nat
    }

    pub closed spec fn wf(&self) -> bool {
        &&& self.data@.len() == SEED_SIZE
        &&& self.current_index < SEED_SIZE
    }

    pub fn new(seed: [u8; SEED_SIZE], salt: &[u8]) -> (r: Random)
        requires
            salt@.len() > 0,
        ensures
            r.wf(),
            r.pool() == seeded_pool(seed@, salt@),
            r.position() == 0,
    {
        let salt_len = salt.len();
        let mut rand_source: Vec<u8> = Vec::new();
        let mut i: usize = 0;
        while i < SEED_SIZE
            invariant
                salt_len == salt@.len(),
                salt_len > 0,
                seed@.len() == SEED_SIZE,
                i <= SEED_SIZE,
                rand_source@.len() == i,
                forall|j: int| 0 <= j < i ==> #[trigger] rand_source@[j] == seeded_pool(seed@, salt@)[j],
            decreases SEED_SIZE - i,
        {
            let v = ((seed[i] as u16 + salt[i % salt_len] as u16) % 256) as u8;
            rand_source.push(v);
            i = i + 1;
        }
        assert(rand_source@ =~= seeded_pool(seed@, salt@));
        Random { data: rand_source, current_index: 0 }
    }

    /// Draws two bytes and returns them as a big-endian number.
    pub fn next_u16(&mut self) -> (r: u16)
        requires
            old(self).wf(),
        ensures
            final(self).wf(),
            ({
                let (p1, q1) = after_draw(old(self).pool(), old(self).position());
                &&& r == old(self).pool()[old(self).position() as int] as int * 256 + p1[q1 as int] as int
                &&& (final(self).pool(), final(self).position()) == after_draw(p1, q1)
            }),
    {
        let first = self.next_u8();
        let second = self.next_u8();
        let first_byte = (first as u16) << 8u16;
        let second_byte = second as u16;
        assert(((first as u16) << 8u16) | (second as u16) == first as u16 * 256 + second as u16)
            by (bit_vector);
        first_byte | second_byte
    }

    /// Draws the next byte of the pool, shuffling the pool once all of it
    /// was drawn.
    pub fn next_u8(&mut self) -> (r: u8)
        requires
            old(self).wf(),
        ensures
            final(self).wf(),
            r == old(self).pool()[old(self).position() as int],
            (final(self).pool(), final(self).position()) == after_draw(
                old(self).pool(),
                old(self).position(),
            ),
    {
        let val = self.data[self.current_index];
        self.current_index = self.current_index + 1;
        if self.current_index == SEED_SIZE {
            self.shuffle();
            self.current_index = 0;
        }
        val
    }

    fn shuffle(&mut self)
        requires
            old(self).data@.len() == SEED_SIZE,
        ensures
            final(self).data@ == shuffled(old(self).data@),
            final(self).current_index == old(self).current_index,
    {
        let n = self.data.len();
        let mut i: usize = 0;
        while i < n - 1
            invariant
                n == SEED_SIZE,
                self.data@.len() == n,
                old(self).data@.len() == n,
                i <= n - 1,
                forall|j: int| 0 <= j < i ==> #[trigger] self.data@[j] == shuffled(old(self).data@)[j],
                forall|j: int| i <= j < n ==> #[trigger] self.data@[j] == old(self).data@[j],
                self.current_index == old(self).current_index,
            decreases n - 1 - i,
        {
            let res: u16 = self.data[i] as u16 + self.data[i + 1] as u16 + 1;
            assert(shuffled(old(self).data@)[i as int] == ((old(self).data@[i as int] as int
                + old(self).data@[i as int + 1] as int + 1) % 256) as u8);
            self.data.set(i, (res % 256) as u8);
            i = i + 1;
        }
        assert(self.data@ =~= shuffled(old(self).data@));
    }
}

} // verus!

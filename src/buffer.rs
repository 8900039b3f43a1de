use vstd::math::min;
use vstd::prelude::*;

use crate::codec::{
    be16, be32, be64, peek_i16, peek_i32, peek_i8, peek_u16, peek_u32, peek_u64, peek_u8, u16_at,
    u32_at, u64_at,
};

verus! {

/// A contiguous byte store with a read cursor and a write cursor.
///
/// The bytes between the cursors are the readable region; the store's
/// length is its capacity, so the bytes past the write cursor are the
/// writable region and those before the read cursor the prependable one.
pub struct Buffer {
    buf: Vec<u8>,
    write_index: usize,
    read_index: usize,
}

impl View for Buffer {
    type V = Seq<u8>;

    /// The readable region.
    closed spec fn view(&self) -> Seq<u8> {
        self.buf@.subrange(self.read_index as int, self.write_index as int)
    }
}

impl Buffer {
    /// Offset of the first unread byte.
    pub closed spec fn read_pos(&self) -> nat {
        self.read_index as nat
    }

    /// Offset one past the last written byte.
    pub closed spec fn write_pos(&self) -> nat {
        self.write_index as nat
    }

    /// Size of the backing store.
    pub closed spec fn capacity(&self) -> nat {
        self.buf@.len()
    }

    /// Cursors are ordered within the store, and an empty buffer has both
    /// cursors at the start.
    pub open spec fn wf(&self) -> bool {
        &&& self.read_pos() <= self.write_pos() <= self.capacity()
        &&& self@.len() == self.write_pos() - self.read_pos()
        &&& self@.len() == 0 ==> self.read_pos() == 0
    }

    /// Bytes that fit after the write cursor without making room.
    pub open spec fn writable_len(&self) -> int {
        self.capacity() - self.write_pos()
    }

    /// `after` is `self` with its first `n` readable bytes consumed: both
    /// cursors go back to the start once nothing is left to read.
    pub open spec fn consumed(&self, after: Buffer, n: nat) -> bool {
        &&& after.wf()
        &&& after@ == self@.skip(n as int)
        &&& after.capacity() == self.capacity()
        &&& after.read_pos() == if n == self@.len() { 0 } else { self.read_pos() + n }
    }

    /// `after` is `self` with room made for `n` more bytes, by the rule of
    /// `ensure_space`: nothing moves when the writable region is large
    /// enough; the readable region slides to the start when reclaiming the
    /// prependable region suffices; otherwise the store grows to exactly
    /// `write_pos + n`.
    pub open spec fn reserved(&self, after: Buffer, n: nat) -> bool {
        &&& after.wf()
        &&& after@ == self@
        &&& after.writable_len() >= n
        &&& n <= self.writable_len() ==> after.capacity() == self.capacity()
            && after.read_pos() == self.read_pos()
        &&& self.writable_len() < n <= self.writable_len() + self.read_pos() ==> after.capacity()
            == self.capacity() && after.read_pos() == 0
        &&& self.writable_len() + self.read_pos() < n ==> after.capacity() == self.write_pos() + n
            && after.read_pos() == self.read_pos()
    }

    /// `after` is `self` with `data` appended after the readable region,
    /// room being made by the rule of `reserved`.
    pub open spec fn appended(&self, after: Buffer, data: Seq<u8>) -> bool {
        let n = data.len();
        &&& after.wf()
        &&& after@ == self@ + data
        &&& n <= self.writable_len() ==> after.capacity() == self.capacity()
            && after.read_pos() == self.read_pos()
        &&& self.writable_len() < n <= self.writable_len() + self.read_pos() ==> after.capacity()
            == self.capacity() && after.read_pos() == 0
        &&& self.writable_len() + self.read_pos() < n ==> after.capacity() == self.write_pos() + n
            && after.read_pos() == self.read_pos()
    }

    /// An empty buffer whose store holds `cap` bytes.
    pub fn new(cap: usize) -> (r: Self)
        ensures
            r.wf(),
            r@ == Seq::<u8>::empty(),
            r.capacity() == cap,
            r.read_pos() == 0,
    {
        let mut buf: Vec<u8> = Vec::with_capacity(cap);
        buf.resize(cap, 0);
        Buffer { buf, write_index: 0, read_index: 0 }
    }

    /// Length of the readable region.
    pub fn readable_bytes(&self) -> (r: usize)
        requires
            self.wf(),
        ensures
            r == self@.len(),
    {
        self.write_index - self.read_index
    }

    /// Length of the writable region.
    pub fn writeable_bytes(&self) -> (r: usize)
        requires
            self.wf(),
        ensures
            r == self.writable_len(),
    {
        self.buf.len() - self.write_index
    }

    /// Length of the prependable region, reclaimable by a slide.
    pub fn prependable_bytes(&self) -> (r: usize)
        requires
            self.wf(),
        ensures
            r == self.read_pos(),
    {
        self.read_index
    }

    /// Drops the first `len` readable bytes.
    pub fn consume(&mut self, len: usize)
        requires
            old(self).wf(),
            len <= old(self)@.len(),
        ensures
            old(self).consumed(*final(self), len as nat),
            len == old(self)@.len() ==> final(self).read_pos() == 0 && final(self).write_pos() == 0,
    {
        self.read_index = self.read_index + len;
        if self.read_index == self.write_index {
            self.read_index = 0;
            self.write_index = 0;
        }
        assert(self@ =~= old(self)@.skip(len as int));
    }

    /// Drops everything readable and moves both cursors to the start.
    pub fn consume_all(&mut self)
        requires
            old(self).wf(),
        ensures
            final(self).wf(),
            final(self)@ == Seq::<u8>::empty(),
            final(self).read_pos() == 0,
            final(self).write_pos() == 0,
            final(self).capacity() == old(self).capacity(),
    {
        self.read_index = 0;
        self.write_index = 0;
        assert(self@ =~= Seq::<u8>::empty());
    }

    /// Moves the readable region to the start of the store. The copy runs
    /// from low offsets to high ones, so a byte is overwritten only after
    /// it has been copied, even where the two ranges overlap.
    fn slide_to_front(&mut self)
        requires
            old(self).wf(),
        ensures
            final(self).wf(),
            final(self)@ == old(self)@,
            final(self).capacity() == old(self).capacity(),
            final(self).read_pos() == 0,
    {
        let start = self.read_index;
        let readn = self.write_index - self.read_index;
        let ghost before = self.buf@;
        let mut i: usize = 0;
        while i < readn
            invariant
                self.read_index == start,
                self.write_index == start + readn,
                start + readn <= before.len(),
                i <= readn,
                self.buf@.len() == before.len(),
                forall|k: int| 0 <= k < i ==> self.buf@[k] == before[start + k],
                forall|k: int| i <= k < before.len() ==> self.buf@[k] == before[k],
            decreases readn - i,
        {
            let b = self.buf[start + i];
            self.buf.set(i, b);
            i = i + 1;
        }
        self.read_index = 0;
        self.write_index = readn;
        assert(self@ =~= old(self)@);
    }

    /// Makes room for `len` bytes where the writable region is too small.
    fn make_space(&mut self, len: usize)
        requires
            old(self).wf(),
            old(self).writable_len() < len,
            old(self).write_pos() + len <= usize::MAX,
        ensures
            old(self).reserved(*final(self), len as nat),
    {
        if self.buf.len() - self.write_index + self.read_index < len {
            self.buf.resize(self.write_index + len, 0);
            assert(self@ =~= old(self)@);
        } else {
            self.slide_to_front();
        }
    }

    /// Makes room for `len` bytes, by the rule of `reserved`.
    fn ensure_space(&mut self, len: usize)
        requires
            old(self).wf(),
            old(self).write_pos() + len <= usize::MAX,
        ensures
            old(self).reserved(*final(self), len as nat),
    {
        if self.buf.len() - self.write_index < len {
            self.make_space(len);
        }
    }

    /// Writes one byte at the write cursor, into room already reserved.
    fn put(&mut self, b: u8)
        requires
            old(self).wf(),
            old(self).writable_len() >= 1,
        ensures
            final(self).wf(),
            final(self)@ == old(self)@.push(b),
            final(self).capacity() == old(self).capacity(),
            final(self).read_pos() == old(self).read_pos(),
    {
        let cap = self.buf.len();
        assert(self.write_index < cap);
        self.buf.set(self.write_index, b);
        self.write_index = self.write_index + 1;
        assert(self@ =~= old(self)@.push(b));
    }

    /// Appends one byte, making room for it as `append` does.
    pub fn push(&mut self, elem: u8)
        requires
            old(self).wf(),
            old(self).write_pos() + 1 <= usize::MAX,
        ensures
            old(self).appended(*final(self), seq![elem]),
            final(self)@ == old(self)@.push(elem),
    {
        self.ensure_space(1);
        self.put(elem);
        assert(old(self)@ + seq![elem] =~= old(self)@.push(elem));
    }

    /// Appends `data` after the readable region, making room first by the
    /// rule of `appended`.
    pub fn append(&mut self, data: &[u8])
        requires
            old(self).wf(),
            old(self).write_pos() + data@.len() <= usize::MAX,
        ensures
            old(self).appended(*final(self), data@),
            final(self)@ == old(self)@ + data@,
            final(self)@.subrange(0, old(self)@.len() as int) == old(self)@,
            data@.len() <= old(self).writable_len() + old(self).read_pos() ==> final(self).capacity()
                == old(self).capacity(),
            old(self).writable_len() + old(self).read_pos() < data@.len() ==> final(self).capacity()
                > old(self).capacity(),
    {
        let n = data.len();
        self.ensure_space(n);
        let ghost mid = *self;
        let mut i: usize = 0;
        while i < n
            invariant
                n == data@.len(),
                i <= n,
                mid.wf(),
                mid.writable_len() >= n,
                self.wf(),
                self@ == mid@ + data@.take(i as int),
                self.capacity() == mid.capacity(),
                self.read_pos() == mid.read_pos(),
            decreases n - i,
        {
            proof {
                assert(data@.take(i + 1) =~= data@.take(i as int).push(data@[i as int]));
            }
            self.put(data[i]);
            i = i + 1;
        }
        assert(data@.take(n as int) =~= data@);
        assert(self@.subrange(0, old(self)@.len() as int) =~= old(self)@);
    }

    /// Copies out and consumes up to `len` readable bytes.
    pub fn retrieve_tovec(&mut self, len: usize) -> (r: Vec<u8>)
        requires
            old(self).wf(),
        ensures
            r@ == old(self)@.take(min(len as int, old(self)@.len() as int)),
            old(self).consumed(*final(self), r@.len()),
            old(self)@.len() == 0 ==> r@.len() == 0,
    {
        let readable = self.write_index - self.read_index;
        let n = if len < readable { len } else { readable };
        let mut ret: Vec<u8> = Vec::with_capacity(n);
        let mut i: usize = 0;
        while i < n
            invariant
                n <= self@.len(),
                self.wf(),
                i <= n,
                ret@ == self@.take(i as int),
            decreases n - i,
        {
            ret.push(self.buf[self.read_index + i]);
            i = i + 1;
            assert(ret@ =~= self@.take(i as int));
        }
        if n > 0 {
            self.consume(n);
        }
        assert(self@ =~= old(self)@.skip(n as int));
        ret
    }

    /// The first `len` readable bytes, or all of them where fewer are there;
    /// nothing is consumed.
    pub fn get_slice(&self, len: usize) -> (r: &[u8])
        requires
            self.wf(),
        ensures
            r@ == self@.take(min(len as int, self@.len() as int)),
            len >= self@.len() ==> r@ == self@,
    {
        let readable = self.write_index - self.read_index;
        let n = if len < readable { len } else { readable };
        let r = &self.buf.as_slice()[self.read_index..self.read_index + n];
        assert(r@ =~= self@.take(n as int));
        assert(len >= self@.len() ==> self@.take(n as int) =~= self@);
        r
    }

    /// The readable region, without consuming it.
    pub fn as_slice(&self) -> (r: &[u8])
        requires
            self.wf(),
        ensures
            r@ == self@,
    {
        &self.buf.as_slice()[self.read_index..self.write_index]
    }

    /// Appends `elem` in big-endian order.
    pub fn append_u8(&mut self, elem: u8)
        requires
            old(self).wf(),
            old(self).write_pos() + 1 <= usize::MAX,
        ensures
            old(self).appended(*final(self), seq![elem]),
            final(self)@ == old(self)@ + seq![elem],
    {
        self.append(&[elem]);
        assert(old(self)@ + seq![elem] == final(self)@);
    }

    /// Appends `elem` in big-endian order.
    pub fn append_i8(&mut self, elem: i8)
        requires
            old(self).wf(),
            old(self).write_pos() + 1 <= usize::MAX,
        ensures
            old(self).appended(*final(self), seq![elem as u8]),
            final(self)@ == old(self)@ + seq![elem as u8],
    {
        self.append_u8(elem as u8);
    }

    /// Appends `elem` in big-endian order.
    pub fn append_u16(&mut self, elem: u16)
        requires
            old(self).wf(),
            old(self).write_pos() + 2 <= usize::MAX,
        ensures
            old(self).appended(*final(self), be16(elem)),
            final(self)@ == old(self)@ + be16(elem),
    {
        let bytes = [(elem >> 8u16) as u8, elem as u8];
        assert(bytes@ =~= be16(elem));
        self.append(&bytes);
    }

    /// Appends `elem` in big-endian order.
    pub fn append_i16(&mut self, elem: i16)
        requires
            old(self).wf(),
            old(self).write_pos() + 2 <= usize::MAX,
        ensures
            old(self).appended(*final(self), be16(elem as u16)),
            final(self)@ == old(self)@ + be16(elem as u16),
    {
        self.append_u16(elem as u16);
    }

    /// Appends `elem` in big-endian order.
    pub fn append_u32(&mut self, elem: u32)
        requires
            old(self).wf(),
            old(self).write_pos() + 4 <= usize::MAX,
        ensures
            old(self).appended(*final(self), be32(elem)),
            final(self)@ == old(self)@ + be32(elem),
    {
        let bytes = [(elem >> 24u32) as u8, (elem >> 16u32) as u8, (elem >> 8u32) as u8, elem as u8];
        assert(bytes@ =~= be32(elem));
        self.append(&bytes);
    }

    /// Appends `elem` in big-endian order.
    pub fn append_i32(&mut self, elem: i32)
        requires
            old(self).wf(),
            old(self).write_pos() + 4 <= usize::MAX,
        ensures
            old(self).appended(*final(self), be32(elem as u32)),
            final(self)@ == old(self)@ + be32(elem as u32),
    {
        self.append_u32(elem as u32);
    }

    /// Appends `elem` in big-endian order; the bits of a 64-bit float go
    /// through here.
    pub fn append_u64(&mut self, elem: u64)
        requires
            old(self).wf(),
            old(self).write_pos() + 8 <= usize::MAX,
        ensures
            old(self).appended(*final(self), be64(elem)),
            final(self)@ == old(self)@ + be64(elem),
    {
        let bytes = [
            (elem >> 56u64) as u8,
            (elem >> 48u64) as u8,
            (elem >> 40u64) as u8,
            (elem >> 32u64) as u8,
            (elem >> 24u64) as u8,
            (elem >> 16u64) as u8,
            (elem >> 8u64) as u8,
            elem as u8,
        ];
        assert(bytes@ =~= be64(elem));
        self.append(&bytes);
    }

    /// The first two readable bytes as a big-endian value.
    fn front_u16(&self) -> (r: u16)
        requires
            self.wf(),
            self@.len() >= 2,
        ensures
            r == u16_at(self@),
    {
        let i = self.read_index;
        ((self.buf[i] as u16) << 8u16) | (self.buf[i + 1] as u16)
    }

    /// The first four readable bytes as a big-endian value.
    fn front_u32(&self) -> (r: u32)
        requires
            self.wf(),
            self@.len() >= 4,
        ensures
            r == u32_at(self@),
    {
        let i = self.read_index;
        ((self.buf[i] as u32) << 24u32) | ((self.buf[i + 1] as u32) << 16u32) | ((self.buf[i
            + 2] as u32) << 8u32) | (self.buf[i + 3] as u32)
    }

    /// The first eight readable bytes as a big-endian value.
    fn front_u64(&self) -> (r: u64)
        requires
            self.wf(),
            self@.len() >= 8,
        ensures
            r == u64_at(self@),
    {
        let i = self.read_index;
        ((self.buf[i] as u64) << 56u64) | ((self.buf[i + 1] as u64) << 48u64) | ((self.buf[i
            + 2] as u64) << 40u64) | ((self.buf[i + 3] as u64) << 32u64) | ((self.buf[i
            + 4] as u64) << 24u64) | ((self.buf[i + 5] as u64) << 16u64) | ((self.buf[i
            + 6] as u64) << 8u64) | (self.buf[i + 7] as u64)
    }

    /// Decodes a big-endian `u8` from the front of the readable region, and
    /// consumes it when `is_consume` holds; `None` while nothing is
    /// readable, and then nothing changes.
    pub fn read_u8(&mut self, is_consume: bool) -> (r: Option<u8>)
        requires
            old(self).wf(),
        ensures
            r == peek_u8(old(self)@),
            is_consume && r is Some ==> old(self).consumed(*final(self), 1),
            !(is_consume && r is Some) ==> *final(self) == *old(self),
    {
        if self.write_index - self.read_index < 1 {
            return None;
        }
        let v = self.buf[self.read_index];
        if is_consume {
            self.consume(1);
        }
        Some(v)
    }

    /// Decodes a big-endian `i8` from the front of the readable region, and
    /// consumes it when `is_consume` holds; `None` while nothing is
    /// readable, and then nothing changes.
    pub fn read_i8(&mut self, is_consume: bool) -> (r: Option<i8>)
        requires
            old(self).wf(),
        ensures
            r == peek_i8(old(self)@),
            is_consume && r is Some ==> old(self).consumed(*final(self), 1),
            !(is_consume && r is Some) ==> *final(self) == *old(self),
    {
        if self.write_index - self.read_index < 1 {
            return None;
        }
        let v = self.buf[self.read_index] as i8;
        if is_consume {
            self.consume(1);
        }
        Some(v)
    }

    /// Decodes a big-endian `u16` from the front of the readable region, and
    /// consumes it when `is_consume` holds; `None` while fewer than 2
    /// bytes are readable, and then nothing changes.
    pub fn read_u16(&mut self, is_consume: bool) -> (r: Option<u16>)
        requires
            old(self).wf(),
        ensures
            r == peek_u16(old(self)@),
            is_consume && r is Some ==> old(self).consumed(*final(self), 2),
            !(is_consume && r is Some) ==> *final(self) == *old(self),
    {
        if self.write_index - self.read_index < 2 {
            return None;
        }
        let v = self.front_u16();
        if is_consume {
            self.consume(2);
        }
        Some(v)
    }

    /// Decodes a big-endian `i16` from the front of the readable region, and
    /// consumes it when `is_consume` holds; `None` while fewer than 2
    /// bytes are readable, and then nothing changes.
    pub fn read_i16(&mut self, is_consume: bool) -> (r: Option<i16>)
        requires
            old(self).wf(),
        ensures
            r == peek_i16(old(self)@),
            is_consume && r is Some ==> old(self).consumed(*final(self), 2),
            !(is_consume && r is Some) ==> *final(self) == *old(self),
    {
        if self.write_index - self.read_index < 2 {
            return None;
        }
        let v = self.front_u16() as i16;
        if is_consume {
            self.consume(2);
        }
        Some(v)
    }

    /// Decodes a big-endian `u32` from the front of the readable region, and
    /// consumes it when `is_consume` holds; `None` while fewer than 4
    /// bytes are readable, and then nothing changes.
    pub fn read_u32(&mut self, is_consume: bool) -> (r: Option<u32>)
        requires
            old(self).wf(),
        ensures
            r == peek_u32(old(self)@),
            is_consume && r is Some ==> old(self).consumed(*final(self), 4),
            !(is_consume && r is Some) ==> *final(self) == *old(self),
    {
        if self.write_index - self.read_index < 4 {
            return None;
        }
        let v = self.front_u32();
        if is_consume {
            self.consume(4);
        }
        Some(v)
    }

    /// Decodes a big-endian `i32` from the front of the readable region, and
    /// consumes it when `is_consume` holds; `None` while fewer than 4
    /// bytes are readable, and then nothing changes.
    pub fn read_i32(&mut self, is_consume: bool) -> (r: Option<i32>)
        requires
            old(self).wf(),
        ensures
            r == peek_i32(old(self)@),
            is_consume && r is Some ==> old(self).consumed(*final(self), 4),
            !(is_consume && r is Some) ==> *final(self) == *old(self),
    {
        if self.write_index - self.read_index < 4 {
            return None;
        }
        let v = self.front_u32() as i32;
        if is_consume {
            self.consume(4);
        }
        Some(v)
    }

    /// Decodes a big-endian `u64` from the front of the readable region, and
    /// consumes it when `is_consume` holds; `None` while fewer than 8
    /// bytes are readable, and then nothing changes.
    pub fn read_u64(&mut self, is_consume: bool) -> (r: Option<u64>)
        requires
            old(self).wf(),
        ensures
            r == peek_u64(old(self)@),
            is_consume && r is Some ==> old(self).consumed(*final(self), 8),
            !(is_consume && r is Some) ==> *final(self) == *old(self),
    {
        if self.write_index - self.read_index < 8 {
            return None;
        }
        let v = self.front_u64();
        if is_consume {
            self.consume(8);
        }
        Some(v)
    }
}

/// Whatever mix of appends and pushes a buffer goes through, what it holds
/// to read at the end is what it held at the start followed by every chunk,
/// in order. `views[i]` is the readable region before the `i`-th call and
/// `chunks[i]` the bytes that call appends (a single byte for a push).
pub proof fn law_appends_concatenate(views: Seq<Seq<u8>>, chunks: Seq<Seq<u8>>)
    requires
        views.len() == chunks.len() + 1,
        forall|i: int| 0 <= i < chunks.len() ==> #[trigger] views[i + 1] == views[i] + chunks[i],
    ensures
        views[chunks.len() as int] == views[0] + chunks.flatten(),
    decreases chunks.len(),
{
    if chunks.len() == 0 {
        assert(views[0] + chunks.flatten() =~= views[0]);
    } else {
        let rest_views = views.drop_first();
        let rest = chunks.drop_first();
        assert forall|i: int| 0 <= i < rest.len() implies #[trigger] rest_views[i + 1]
            == rest_views[i] + rest[i] by {
            assert(views[(i + 1) + 1] == views[i + 1] + chunks[i + 1]);
        }
        law_appends_concatenate(rest_views, rest);
        assert(views[1] == views[0] + chunks[0]);
        assert(views[0] + chunks.flatten() =~= (views[0] + chunks[0]) + rest.flatten());
    }
}

} // verus!

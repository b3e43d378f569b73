use vstd::prelude::*;
use crate::io_result::IoError;
use crate::sys_slice::SysSlice;

verus! {

/// The result of an operation together with the buffer it used.
pub struct BufResult<T, B>(pub Result<T, IoError>, pub B);

/// A buffer with room for `capacity` bytes, of which the first `len` are
/// initialized.
pub struct Buffer {
    data: Vec<u8>,
    len: usize,
}

impl Buffer {
    /// The bytes the buffer has room for (initialized or not).
    pub closed spec fn room(&self) -> Seq<u8> {
        self.data@
    }

    /// The number of bytes it has room for.
    pub open spec fn capacity(&self) -> nat {
        self.room().len()
    }

    /// The number of initialized bytes.
    pub closed spec fn init_len(&self) -> nat {
        self.len as nat
    }

    /// Whether the initialized part fits the room.
    pub open spec fn wf(&self) -> bool {
        self.init_len() <= self.capacity()
    }

    /// A buffer over `data` with nothing initialized yet.
    pub fn with_room(data: Vec<u8>) -> (r: Self)
        ensures
            r.room() == data@,
            r.init_len() == 0,
            r.wf(),
    {
        Buffer { data, len: 0 }
    }

    /// A buffer whose whole room is initialized.
    pub fn from_vec(data: Vec<u8>) -> (r: Self)
        ensures
            r.room() == data@,
            r.init_len() == data@.len(),
            r.wf(),
    {
        let len = data.len();
        Buffer { data, len }
    }

    /// The number of initialized bytes.
    pub fn buf_len(&self) -> (r: usize)
        ensures
            r == self.init_len(),
    {
        self.len
    }

    /// The number of bytes it has room for.
    pub fn buf_capacity(&self) -> (r: usize)
        ensures
            r == self.capacity(),
    {
        self.data.len()
    }

    /// The initialized bytes.
    pub fn as_init(&self) -> (r: &[u8])
        requires
            self.wf(),
        ensures
            r@ == self.room().subrange(0, self.init_len() as int),
    {
        vstd::slice::slice_subrange(self.data.as_slice(), 0, self.len)
    }

    /// Mark the first `len` bytes initialized, unless more already are.
    pub fn advance_to(&mut self, len: usize)
        requires
            len <= old(self).capacity(),
        ensures
            final(self).room() == old(self).room(),
            final(self).init_len() == grown(old(self).init_len(), len as nat),
    {
        if len > self.len {
            self.len = len;
        }
    }

    /// Set the number of initialized bytes, up or down.
    pub fn set_len(&mut self, len: usize)
        requires
            len <= old(self).capacity(),
        ensures
            final(self).room() == old(self).room(),
            final(self).init_len() == len,
    {
        self.len = len;
    }

    /// The slice a write hands the kernel for this buffer at `ptr`: its
    /// initialized bytes.
    pub fn sys_slice(&self, ptr: usize) -> (r: SysSlice)
        ensures
            r@ == (ptr, self.init_len() as usize),
    {
        SysSlice::from_parts(ptr, self.len)
    }

    /// The slice a read hands the kernel for this buffer at `ptr`: its
    /// whole room, so the read may fill it.
    pub fn sys_slice_mut(&self, ptr: usize) -> (r: SysSlice)
        ensures
            r@ == (ptr, self.capacity() as usize),
    {
        SysSlice::from_parts(ptr, self.data.len())
    }

    /// All bytes the buffer has room for.
    pub fn into_inner(self) -> (r: Vec<u8>)
        ensures
            r@ == self.room(),
    {
        self.data
    }
}

/// A sequence of buffers, each handed to the kernel as one slice.
pub trait VectoredBuf {
    /// How many bytes each buffer has room for, in order.
    spec fn capacities(&self) -> Seq<nat>;

    /// How many bytes of each buffer are initialized, in order.
    spec fn init_lens(&self) -> Seq<nat>;
}

impl VectoredBuf for Vec<Buffer> {
    open spec fn capacities(&self) -> Seq<nat> {
        self@.map_values(|b: Buffer| b.capacity())
    }

    open spec fn init_lens(&self) -> Seq<nat> {
        self@.map_values(|b: Buffer| b.init_len())
    }
}

/// The initialized bytes of a buffer.
pub open spec fn init_bytes(b: Buffer) -> Seq<u8> {
    b.room().subrange(0, b.init_len() as int)
}

/// The initialized length `len` becomes when `n` bytes are marked
/// initialized: the larger of the two.
pub open spec fn grown(len: nat, n: nat) -> nat {
    if n > len {
        n
    } else {
        len
    }
}

/// The length a buffer has after `advance_to(n)`.
pub open spec fn advanced_len(b: Buffer, n: nat) -> nat {
    grown(b.init_len(), n)
}

/// Marking bytes initialized never shrinks the initialized part; marking
/// the same count twice is the same as marking it once; marking a count
/// and then a larger one is the same as marking the larger one.
pub proof fn law_advance_monotone(len: nat, n: nat, m: nat)
    ensures
        grown(len, n) >= len,
        grown(grown(len, n), n) == grown(len, n),
        n <= m ==> grown(grown(len, n), m) == grown(len, m),
{
}

/// The initialized bytes of a sequence of buffers, all together.
pub open spec fn total_init(bufs: Seq<Buffer>) -> nat
    decreases bufs.len(),
{
    if bufs.len() == 0 {
        0
    } else {
        total_init(bufs.drop_last()) + bufs.last().init_len()
    }
}

/// The room of a sequence of buffers, all together.
pub open spec fn total_capacity(bufs: Seq<Buffer>) -> nat
    decreases bufs.len(),
{
    if bufs.len() == 0 {
        0
    } else {
        total_capacity(bufs.drop_last()) + bufs.last().capacity()
    }
}

/// The initialized length that filling `len` bytes in order, each buffer
/// up to its room, gives buffer `i`: those the bytes reach are set to what
/// reaches them, the others keep theirs.
pub open spec fn vec_filled_len(bufs: Seq<Buffer>, i: int, len: nat) -> nat {
    let before = total_capacity(bufs.take(i));
    if len > before {
        if bufs[i].capacity() < len - before {
            bufs[i].capacity()
        } else {
            (len - before) as nat
        }
    } else {
        bufs[i].init_len()
    }
}

/// The initialized length of buffer `i` after marking `len` bytes of the
/// sequence initialized: unchanged unless more than are already.
pub open spec fn vec_advanced_len(bufs: Seq<Buffer>, i: int, len: nat) -> nat {
    if len > total_init(bufs) {
        vec_filled_len(bufs, i, len)
    } else {
        bufs[i].init_len()
    }
}

proof fn lemma_take_step(s: Seq<Buffer>, i: int)
    requires
        0 <= i < s.len(),
    ensures
        total_init(s.take(i + 1)) == total_init(s.take(i)) + s[i].init_len(),
        total_capacity(s.take(i + 1)) == total_capacity(s.take(i)) + s[i].capacity(),
{
    assert(s.take(i + 1).drop_last() =~= s.take(i));
}

proof fn lemma_take_monotone(s: Seq<Buffer>, i: int, j: int)
    requires
        0 <= i <= j <= s.len(),
    ensures
        total_init(s.take(i)) <= total_init(s.take(j)),
        total_capacity(s.take(i)) <= total_capacity(s.take(j)),
    decreases j - i,
{
    if i < j {
        lemma_take_step(s, j - 1);
        lemma_take_monotone(s, i, j - 1);
    }
}

/// The number of initialized bytes in all buffers, or `None` when it is
/// at least `len`.
fn init_below(bufs: &Vec<Buffer>, len: usize) -> (r: Option<usize>)
    ensures
        r matches Some(t) ==> t == total_init(bufs@) && t < len,
        r is None ==> total_init(bufs@) >= len,
{
    if len == 0 {
        return None;
    }
    let n = bufs.len();
    let mut acc: usize = 0;
    let mut i: usize = 0;
    while i < n
        invariant
            n == bufs@.len(),
            i <= n,
            acc == total_init(bufs@.take(i as int)),
            acc < len,
        decreases n - i,
    {
        let x = bufs[i].buf_len();
        proof {
            lemma_take_step(bufs@, i as int);
        }
        if x >= len - acc {
            proof {
                lemma_take_monotone(bufs@, i as int + 1, n as int);
                assert(bufs@.take(n as int) =~= bufs@);
            }
            return None;
        }
        acc = acc + x;
        i = i + 1;
    }
    proof {
        assert(bufs@.take(n as int) =~= bufs@);
    }
    Some(acc)
}

/// Mark `len` bytes of a sequence of buffers initialized, unless more
/// already are: the bytes fill the buffers in order, each up to its room.
pub fn advance_vec_to(bufs: &mut Vec<Buffer>, len: usize)
    ensures
        final(bufs)@.len() == old(bufs)@.len(),
        forall|i: int|
            0 <= i < old(bufs)@.len() ==> (#[trigger] final(bufs)@[i]).room() == old(bufs)@[i].room()
                && final(bufs)@[i].init_len() == vec_advanced_len(old(bufs)@, i, len as nat),
{
    if init_below(bufs, len).is_none() {
        return;
    }
    let ghost before = bufs@;
    let n = bufs.len();
    let mut remaining: usize = len;
    let mut i: usize = 0;
    while i < n && remaining > 0
        invariant
            n == before.len(),
            bufs@.len() == n,
            i <= n,
            len > total_init(before),
            remaining as int == (if len > total_capacity(before.take(i as int)) {
                len - total_capacity(before.take(i as int))
            } else {
                0
            }),
            forall|j: int| 0 <= j < n ==> (#[trigger] bufs@[j]).room() == before[j].room(),
            forall|j: int|
                0 <= j < i ==> (#[trigger] bufs@[j]).init_len() == vec_filled_len(
                    before,
                    j,
                    len as nat,
                ),
            forall|j: int| i <= j < n ==> (#[trigger] bufs@[j]).init_len() == before[j].init_len(),
        decreases n - i,
    {
        proof {
            lemma_take_step(before, i as int);
        }
        let cap = bufs[i].buf_capacity();
        let sub = if cap < remaining {
            cap
        } else {
            remaining
        };
        let mut b = bufs.remove(i);
        b.set_len(sub);
        bufs.insert(i, b);
        remaining = remaining - sub;
        i = i + 1;
    }
    proof {
        assert forall|j: int| i <= j < n implies (#[trigger] bufs@[j]).init_len() == vec_filled_len(
            before,
            j,
            len as nat,
        ) by {
            lemma_take_monotone(before, i as int, j);
        }
    }
}

/// Take the buffer out of an operation.
pub trait TakeBuffer {
    /// Type of the buffer.
    type Buffer;

    /// Whether what the kernel reported fits the buffer, so that it can be
    /// taken.
    spec fn can_take(&self) -> bool;

    /// Take the buffer, if the operation has one.
    fn take_buffer(self) -> Option<Self::Buffer>
        requires
            self.can_take(),
    ;
}

/// The outcome of taking the buffer of a finished read: the error of a
/// failed read, nothing for a read of 0 bytes, an error when bytes were
/// read but no buffer was selected, else the buffer with the bytes read
/// marked initialized.
pub fn take_read_buffer(res: Result<usize, IoError>, buf: Option<Buffer>) -> (r: Result<
    Option<Buffer>,
    IoError,
>)
    requires
        res is Ok && res.unwrap() > 0 && buf is Some ==> res.unwrap() <= buf.unwrap().capacity(),
    ensures
        res matches Err(e) ==> r == Err::<Option<Buffer>, IoError>(e),
        res == Ok::<usize, IoError>(0) ==> r matches Ok(None),
        res is Ok && res.unwrap() > 0 && buf is None ==> r == Err::<Option<Buffer>, IoError>(
            IoError::UnexpectedEof(res.unwrap()),
        ),
        res is Ok && res.unwrap() > 0 && buf is Some ==> (r matches Ok(Some(b)) && b.room()
            == buf.unwrap().room() && b.init_len() == advanced_len(
            buf.unwrap(),
            res.unwrap() as nat,
        )),
{
    match res {
        Err(e) => Err(e),
        Ok(len) => {
            if len == 0 {
                return Ok(None);
            }
            match buf {
                None => Err(IoError::UnexpectedEof(len)),
                Some(mut b) => {
                    b.advance_to(len);
                    Ok(Some(b))
                },
            }
        },
    }
}

/// Taking the buffer out of a [`BufResult`] of a read.
pub trait ResultTakeBuffer {
    /// Type of the buffer.
    type Buffer;

    /// Whether the reported length fits the buffer.
    spec fn len_fits(&self) -> bool;

    /// Mark the bytes read initialized and give the buffer out; a read of
    /// 0 bytes gives none.
    fn take_buffer(self) -> Result<Option<Self::Buffer>, IoError>
        requires
            self.len_fits(),
    ;
}

/// Whether the length a result reports fits the buffer.
pub open spec fn result_fits(r: &BufResult<usize, Buffer>) -> bool {
    r.0 is Ok ==> r.0.unwrap() <= r.1.capacity()
}

impl ResultTakeBuffer for BufResult<usize, Buffer> {
    type Buffer = Buffer;

    open spec fn len_fits(&self) -> bool {
        result_fits(self)
    }

    fn take_buffer(self) -> (r: Result<Option<Buffer>, IoError>)
        ensures
            self.0 matches Err(e) ==> r == Err::<Option<Buffer>, IoError>(e),
            self.0 == Ok::<usize, IoError>(0) ==> r matches Ok(None),
            self.0 is Ok && self.0.unwrap() > 0 ==> (r matches Ok(Some(b)) && b.room()
                == self.1.room() && b.init_len() == advanced_len(self.1, self.0.unwrap() as nat)),
    {
        let BufResult(res, buf) = self;
        match res {
            Err(e) => Err(e),
            Ok(len) => {
                if len == 0 {
                    return Ok(None);
                }
                let mut b = buf;
                b.advance_to(len);
                Ok(Some(b))
            },
        }
    }
}

/// Update the buffer length inside a [`BufResult`].
pub trait BufResultExt {
    /// Whether the reported length fits the buffer.
    spec fn len_fits(&self) -> bool;

    /// Mark the bytes the operation reported initialized, if it succeeded.
    fn map_advanced(self) -> Self
        requires
            self.len_fits(),
    ;
}

impl BufResultExt for BufResult<usize, Buffer> {
    open spec fn len_fits(&self) -> bool {
        result_fits(self)
    }

    fn map_advanced(self) -> (r: Self)
        ensures
            r.0 == self.0,
            r.1.room() == self.1.room(),
            self.0 is Ok ==> r.1.init_len() == advanced_len(self.1, self.0.unwrap() as nat),
            self.0 is Err ==> r.1.init_len() == self.1.init_len(),
    {
        let BufResult(res, mut buf) = self;
        if let Ok(n) = res {
            buf.advance_to(n);
        }
        BufResult(res, buf)
    }
}

impl<O> BufResultExt for BufResult<(usize, O), Buffer> {
    open spec fn len_fits(&self) -> bool {
        self.0 is Ok ==> self.0.unwrap().0 <= self.1.capacity()
    }

    fn map_advanced(self) -> (r: Self)
        ensures
            r.0 == self.0,
            r.1.room() == self.1.room(),
            self.0 is Ok ==> r.1.init_len() == advanced_len(self.1, self.0.unwrap().0 as nat),
            self.0 is Err ==> r.1.init_len() == self.1.init_len(),
    {
        let BufResult(res, mut buf) = self;
        match res {
            Ok((init, obj)) => {
                buf.advance_to(init);
                BufResult(Ok((init, obj)), buf)
            },
            Err(e) => BufResult(Err(e), buf),
        }
    }
}

impl<O> BufResultExt for BufResult<(usize, usize, O), (Buffer, Buffer)> {
    open spec fn len_fits(&self) -> bool {
        self.0 is Ok ==> self.0.unwrap().0 <= self.1.0.capacity() && self.0.unwrap().1
            <= self.1.1.capacity()
    }

    fn map_advanced(self) -> (r: Self)
        ensures
            r.0 == self.0,
            r.1.0.room() == self.1.0.room(),
            r.1.1.room() == self.1.1.room(),
            self.0 is Ok ==> r.1.0.init_len() == advanced_len(self.1.0, self.0.unwrap().0 as nat)
                && r.1.1.init_len() == advanced_len(self.1.1, self.0.unwrap().1 as nat),
            self.0 is Err ==> r.1.0.init_len() == self.1.0.init_len() && r.1.1.init_len()
                == self.1.1.init_len(),
    {
        let BufResult(res, (mut buffer, mut control)) = self;
        match res {
            Ok((init_buffer, init_control, obj)) => {
                buffer.advance_to(init_buffer);
                control.advance_to(init_control);
                BufResult(Ok((init_buffer, init_control, obj)), (buffer, control))
            },
            Err(e) => BufResult(Err(e), (buffer, control)),
        }
    }
}

/// Whether `new` is `old` after marking `len` bytes initialized in order.
pub open spec fn vec_advanced(old: Seq<Buffer>, new: Seq<Buffer>, len: nat) -> bool {
    &&& new.len() == old.len()
    &&& forall|i: int|
        0 <= i < old.len() ==> (#[trigger] new[i]).room() == old[i].room() && new[i].init_len()
            == vec_advanced_len(old, i, len)
}

/// Update the length of vectored buffers inside a [`BufResult`].
pub trait VecBufResultExt {
    /// Whether the reported lengths fit the buffers that need it.
    spec fn len_fits(&self) -> bool;

    /// Mark the bytes the operation reported initialized, in order over the
    /// buffers, if it succeeded.
    fn map_vec_advanced(self) -> Self
        requires
            self.len_fits(),
    ;
}

impl VecBufResultExt for BufResult<usize, Vec<Buffer>> {
    open spec fn len_fits(&self) -> bool {
        true
    }

    fn map_vec_advanced(self) -> (r: Self)
        ensures
            r.0 == self.0,
            self.0 is Ok ==> vec_advanced(self.1@, r.1@, self.0.unwrap() as nat),
            self.0 is Err ==> r.1@ == self.1@,
    {
        let BufResult(res, mut bufs) = self;
        if let Ok(n) = res {
            advance_vec_to(&mut bufs, n);
        }
        BufResult(res, bufs)
    }
}

impl<O> VecBufResultExt for BufResult<(usize, O), Vec<Buffer>> {
    open spec fn len_fits(&self) -> bool {
        true
    }

    fn map_vec_advanced(self) -> (r: Self)
        ensures
            r.0 == self.0,
            self.0 is Ok ==> vec_advanced(self.1@, r.1@, self.0.unwrap().0 as nat),
            self.0 is Err ==> r.1@ == self.1@,
    {
        let BufResult(res, mut bufs) = self;
        match res {
            Ok((init, obj)) => {
                advance_vec_to(&mut bufs, init);
                BufResult(Ok((init, obj)), bufs)
            },
            Err(e) => BufResult(Err(e), bufs),
        }
    }
}

impl<O> VecBufResultExt for BufResult<(usize, usize, O), (Vec<Buffer>, Buffer)> {
    open spec fn len_fits(&self) -> bool {
        self.0 is Ok ==> self.0.unwrap().1 <= self.1.1.capacity()
    }

    fn map_vec_advanced(self) -> (r: Self)
        ensures
            r.0 == self.0,
            r.1.1.room() == self.1.1.room(),
            self.0 is Ok ==> vec_advanced(self.1.0@, r.1.0@, self.0.unwrap().0 as nat)
                && r.1.1.init_len() == advanced_len(self.1.1, self.0.unwrap().1 as nat),
            self.0 is Err ==> r.1.0@ == self.1.0@ && r.1.1.init_len() == self.1.1.init_len(),
    {
        let BufResult(res, (mut buffer, mut control)) = self;
        match res {
            Ok((init_buffer, init_control, obj)) => {
                advance_vec_to(&mut buffer, init_buffer);
                control.advance_to(init_control);
                BufResult(Ok((init_buffer, init_control, obj)), (buffer, control))
            },
            Err(e) => BufResult(Err(e), (buffer, control)),
        }
    }
}

/// Give the address received with a datagram beside the byte count.
pub trait RecvResultExt {
    /// The mapped result.
    type RecvResult;

    /// Move the address from the buffer side to the result side.
    fn map_addr(self) -> Self::RecvResult;
}

impl<T> RecvResultExt for BufResult<usize, (T, Option<Vec<u8>>)> {
    type RecvResult = BufResult<(usize, Option<Vec<u8>>), T>;

    fn map_addr(self) -> (r: Self::RecvResult)
        ensures
            self.0 matches Ok(n) ==> (r.0 matches Ok((m, a)) && m == n && a == self.1.1),
            self.0 matches Err(e) ==> (r.0 matches Err(e2) && e2 == e),
            r.1 == self.1.0,
    {
        let BufResult(res, (buffer, addr)) = self;
        match res {
            Ok(n) => BufResult(Ok((n, addr)), buffer),
            Err(e) => BufResult(Err(e), buffer),
        }
    }
}

impl<T> RecvResultExt for BufResult<usize, (T, Option<Vec<u8>>, usize)> {
    type RecvResult = BufResult<(usize, usize, Option<Vec<u8>>), T>;

    fn map_addr(self) -> (r: Self::RecvResult)
        ensures
            self.0 matches Ok(n) ==> (r.0 matches Ok((m, l, a)) && m == n && l == self.1.2 && a
                == self.1.1),
            self.0 matches Err(e) ==> (r.0 matches Err(e2) && e2 == e),
            r.1 == self.1.0,
    {
        let BufResult(res, (buffer, addr, len)) = self;
        match res {
            Ok(n) => BufResult(Ok((n, len, addr)), buffer),
            Err(e) => BufResult(Err(e), buffer),
        }
    }
}

proof fn lemma_total_init_eq(a: Seq<Buffer>, b: Seq<Buffer>)
    requires
        a.len() == b.len(),
        forall|i: int| 0 <= i < a.len() ==> (#[trigger] a[i]).init_len() == b[i].init_len(),
    ensures
        total_init(a) == total_init(b),
    decreases a.len(),
{
    if a.len() > 0 {
        lemma_total_init_eq(a.drop_last(), b.drop_last());
    }
}

proof fn lemma_filled_total(old: Seq<Buffer>, mid: Seq<Buffer>, len: nat, k: int)
    requires
        0 <= k <= old.len(),
        mid.len() == old.len(),
        forall|i: int| 0 <= i < old.len() ==> (#[trigger] mid[i]).init_len() == vec_filled_len(old, i, len),
    ensures
        total_init(mid.take(k)) >= (if len < total_capacity(old.take(k)) {
            len
        } else {
            total_capacity(old.take(k))
        }),
    decreases k,
{
    if k > 0 {
        lemma_filled_total(old, mid, len, k - 1);
        lemma_take_step(old, k - 1);
        lemma_take_step(mid, k - 1);
    }
}

/// Marking bytes of a sequence of buffers initialized twice with the same
/// count is the same as marking them once, when they have room for them.
pub proof fn law_advance_vec_idempotent(old: Seq<Buffer>, mid: Seq<Buffer>, new: Seq<Buffer>, len: nat)
    requires
        len <= total_capacity(old),
        vec_advanced(old, mid, len),
        vec_advanced(mid, new, len),
    ensures
        forall|i: int| 0 <= i < old.len() ==> (#[trigger] new[i]).init_len() == mid[i].init_len(),
{
    if len > total_init(old) {
        lemma_filled_total(old, mid, len, old.len() as int);
        assert(old.take(old.len() as int) =~= old);
        assert(mid.take(mid.len() as int) =~= mid);
    } else {
        lemma_total_init_eq(old, mid);
    }
}

} // verus!

//! Samples on their way from the hardware: buffers that collect them by
//! channel, and chunks that are put together from several buffers.
use vstd::prelude::*;

verus! {

/// The samples of each channel.
pub open spec fn columns<T>(v: Seq<Vec<T>>) -> Seq<Seq<T>> {
    v.map_values(|c: Vec<T>| c@)
}

/// As many empty columns as asked for.
pub open spec fn empty_columns<T>(n: nat) -> Seq<Seq<T>> {
    Seq::new(n, |i: int| Seq::<T>::empty())
}

/// As many empty columns as asked for.
fn new_columns<T>(n: usize) -> (r: Vec<Vec<T>>)
    ensures
        columns(r@) == empty_columns::<T>(n as nat),
{
    let mut r: Vec<Vec<T>> = Vec::new();
    let mut i: usize = 0;
    while i < n
        invariant
            i <= n,
            r@.len() == i,
            forall|k: int| 0 <= k < i ==> (#[trigger] r@[k])@ == Seq::<T>::empty(),
        decreases n - i,
    {
        r.push(Vec::new());
        i += 1;
    }
    assert(columns(r@) =~= empty_columns::<T>(n as nat));
    r
}

/// A column with further samples behind it.
fn extended<T: Copy>(column: &Vec<T>, more: &Vec<T>, lo: usize, hi: usize) -> (r: Vec<T>)
    requires
        lo <= hi <= more@.len(),
    ensures
        r@ == column@ + more@.subrange(lo as int, hi as int),
{
    let mut r: Vec<T> = Vec::new();
    let mut i: usize = 0;
    while i < column.len()
        invariant
            i <= column@.len(),
            r@ == column@.take(i as int),
        decreases column.len() - i,
    {
        r.push(column[i]);
        assert(column@.take(i as int + 1) =~= column@.take(i as int).push(column@[i as int]));
        i += 1;
    }
    assert(column@.take(column@.len() as int) =~= column@);
    let mut k: usize = lo;
    assert(more@.subrange(lo as int, lo as int) =~= Seq::<T>::empty());
    assert(r@ =~= column@ + more@.subrange(lo as int, lo as int));
    while k < hi
        invariant
            lo <= k <= hi <= more@.len(),
            r@ == column@ + more@.subrange(lo as int, k as int),
        decreases hi - k,
    {
        r.push(more[k]);
        assert(more@.subrange(lo as int, k as int + 1) =~= more@.subrange(lo as int, k as int).push(
            more@[k as int],
        ));
        assert(r@ =~= column@ + more@.subrange(lo as int, k as int + 1));
        k += 1;
    }
    r
}

/// A buffer that collects samples by channel.
pub struct AccumulationBuffer<T> {
    pub data: Vec<Vec<T>>,
    pub total_samples: usize,
}

/// The part of a reading that belongs to a channel: readings are grouped by
/// channel, with room for `n_samples` each, of which the first `samples_read`
/// are filled.
pub open spec fn channel_part<T>(
    read: Seq<T>,
    n_samples: int,
    samples_read: int,
    channel: int,
) -> Seq<T> {
    read.subrange(channel * n_samples, channel * n_samples + samples_read)
}

impl<T: Copy> AccumulationBuffer<T> {
    /// An empty buffer.
    pub fn new(num_channels: usize) -> (b: AccumulationBuffer<T>)
        ensures
            columns(b.data@) == empty_columns::<T>(num_channels as nat),
            b.total_samples == 0,
    {
        AccumulationBuffer { data: new_columns(num_channels), total_samples: 0 }
    }

    /// Takes all samples that were collected, and leaves empty columns behind.
    pub fn take(&mut self) -> (r: Vec<Vec<T>>)
        ensures
            columns(r@) == columns(old(self).data@),
            columns(final(self).data@) == empty_columns::<T>(old(self).data@.len()),
            final(self).total_samples == old(self).total_samples,
    {
        let mut taken: Vec<Vec<T>> = new_columns(self.data.len());
        std::mem::swap(&mut taken, &mut self.data);
        taken
    }

    /// Adds a reading to the buffer.
    pub fn absorb(&mut self, read: &Vec<T>, n_samples: usize, samples_read: usize)
        requires
            samples_read <= n_samples,
            read@.len() == old(self).data@.len() * n_samples,
            old(self).total_samples + samples_read <= usize::MAX,
        ensures
            final(self).data@.len() == old(self).data@.len(),
            forall|c: int|
                0 <= c < old(self).data@.len() ==> (#[trigger] final(self).data@[c])@ == old(
                    self,
                ).data@[c]@ + channel_part(read@, n_samples as int, samples_read as int, c),
            final(self).total_samples == old(self).total_samples + samples_read,
    {
        let mut data: Vec<Vec<T>> = Vec::new();
        let mut c: usize = 0;
        let mut start: usize = 0;
        while c < self.data.len()
            invariant
                *self == *old(self),
                samples_read <= n_samples,
                read@.len() == self.data@.len() * n_samples,
                c <= self.data@.len(),
                start == c * n_samples,
                data@.len() == c,
                forall|k: int|
                    0 <= k < c ==> (#[trigger] data@[k])@ == self.data@[k]@ + channel_part(
                        read@,
                        n_samples as int,
                        samples_read as int,
                        k,
                    ),
            decreases self.data.len() - c,
        {
            assert((c + 1) * n_samples <= self.data@.len() * n_samples) by (nonlinear_arith)
                requires
                    c < self.data@.len(),
            ;
            assert((c + 1) * n_samples == c * n_samples + n_samples) by (nonlinear_arith);
            assert(start + n_samples <= read.len());
            let column = extended(&self.data[c], read, start, start + samples_read);
            data.push(column);
            start = start + n_samples;
            c += 1;
        }
        self.data = data;
        self.total_samples = self.total_samples + samples_read;
    }
}

// ---------------------------------------------------------------------------
// Chunks
// ---------------------------------------------------------------------------

/// The columns of several buffers, one after the other; a buffer that could
/// not be locked gives none.
pub open spec fn all_columns<T>(taken: Seq<Option<Vec<Vec<T>>>>) -> Seq<Seq<T>>
    decreases taken.len(),
{
    if taken.len() == 0 {
        Seq::empty()
    } else {
        all_columns(taken.drop_last()) + match taken.last() {
            Some(v) => columns(v@),
            None => Seq::empty(),
        }
    }
}

/// A chunk for `total` channels: the columns in order, and empty ones for
/// channels that are left over.
pub open spec fn chunk_of<T>(all: Seq<Seq<T>>, total: nat) -> Seq<Seq<T>> {
    Seq::new(
        total,
        |i: int|
            if i < all.len() {
                all[i]
            } else {
                Seq::<T>::empty()
            },
    )
}

/// Puts a chunk for `total` channels together from what several buffers held.
pub fn assemble_chunk<T: Copy>(total: usize, taken: &Vec<Option<Vec<Vec<T>>>>) -> (r: Vec<Vec<T>>)
    ensures
        columns(r@) == chunk_of(all_columns(taken@), total as nat),
{
    let mut chunk: Vec<Vec<T>> = Vec::new();
    let ghost all = all_columns(taken@);
    let mut b: usize = 0;
    assert(columns(chunk@) =~= Seq::<Seq<T>>::empty());
    while b < taken.len()
        invariant
            b <= taken@.len(),
            all == all_columns(taken@),
            chunk@.len() <= total,
            columns(chunk@) == if all_columns(taken@.take(b as int)).len() <= total {
                all_columns(taken@.take(b as int))
            } else {
                all_columns(taken@.take(b as int)).take(total as int)
            },
        decreases taken.len() - b,
    {
        let ghost before = all_columns(taken@.take(b as int));
        proof {
            assert(taken@.take(b as int + 1).drop_last() =~= taken@.take(b as int));
            assert(columns(chunk@).len() == chunk@.len());
        }
        match &taken[b] {
            Some(v) => {
                let mut i: usize = 0;
                let ghost more = columns(v@);
                let ghost start = columns(chunk@);
                assert(more.take(0) =~= Seq::<Seq<T>>::empty());
                assert(start + more.take(0) =~= start);
                while i < v.len() && chunk.len() < total
                    invariant
                        more == columns(v@),
                        i <= v@.len(),
                        chunk@.len() <= total,
                        chunk@.len() == start.len() + i,
                        columns(chunk@) == start + more.take(i as int),
                    decreases v.len() - i,
                {
                    let none: Vec<T> = Vec::new();
                    let ghost prior = columns(chunk@);
                    let column = extended(&none, &v[i], 0, v[i].len());
                    assert(column@ =~= v@[i as int]@);
                    chunk.push(column);
                    assert(columns(chunk@) =~= prior.push(more[i as int]));
                    assert(more.take(i as int + 1) =~= more.take(i as int).push(more[i as int]));
                    assert(columns(chunk@) =~= start + more.take(i as int + 1));
                    i += 1;
                }
                proof {
                    let now = before + more;
                    if before.len() <= total {
                        if i == v@.len() {
                            assert(more.take(i as int) =~= more);
                        } else {
                            assert(columns(chunk@) =~= now.take(total as int));
                        }
                        if now.len() > total {
                            assert(columns(chunk@) =~= now.take(total as int));
                        }
                    } else {
                        assert(columns(chunk@) =~= now.take(total as int));
                    }
                }
            },
            None => {
                assert(before + Seq::<Seq<T>>::empty() =~= before);
            },
        }
        b += 1;
    }
    assert(taken@.take(taken@.len() as int) =~= taken@);
    while chunk.len() < total
        invariant
            chunk@.len() <= total,
            all == all_columns(taken@),
            forall|k: int| 0 <= k < chunk@.len() && k < all.len() ==> columns(chunk@)[k] == all[k],
            forall|k: int|
                all.len() <= k < chunk@.len() ==> columns(chunk@)[k] == Seq::<T>::empty(),
            chunk@.len() < total ==> chunk@.len() >= all.len(),
        decreases total - chunk.len(),
    {
        let ghost prior = columns(chunk@);
        chunk.push(Vec::new());
        assert(columns(chunk@) =~= prior.push(Seq::<T>::empty()));
    }
    assert(columns(chunk@) =~= chunk_of(all, total as nat));
    chunk
}

/// Whether any of the columns holds a sample.
pub open spec fn holds_data<T>(c: Seq<Seq<T>>) -> bool {
    exists|i: int| 0 <= i < c.len() && (#[trigger] c[i]).len() > 0
}

/// Whether a chunk holds any sample.
pub fn has_data<T>(chunk: &Vec<Vec<T>>) -> (r: bool)
    ensures
        r == holds_data(columns(chunk@)),
{
    let mut i: usize = 0;
    while i < chunk.len()
        invariant
            i <= chunk@.len(),
            forall|k: int| 0 <= k < i ==> (#[trigger] chunk@[k])@.len() == 0,
        decreases chunk.len() - i,
    {
        if chunk[i].len() > 0 {
            assert(columns(chunk@)[i as int].len() > 0);
            return true;
        }
        i += 1;
    }
    assert forall|k: int| 0 <= k < columns(chunk@).len() implies (#[trigger] columns(
        chunk@,
    )[k]).len() == 0 by {
        assert(chunk@[k]@.len() == 0);
    }
    false
}

/// The length of the longest column.
pub open spec fn longest<T>(c: Seq<Seq<T>>) -> nat
    decreases c.len(),
{
    if c.len() == 0 {
        0
    } else if longest(c.drop_last()) >= c.last().len() {
        longest(c.drop_last())
    } else {
        c.last().len()
    }
}

/// The number of samples in a chunk: the length of its longest column.
pub fn sample_count<T>(chunk: &Vec<Vec<T>>) -> (n: usize)
    ensures
        n == longest(columns(chunk@)),
{
    let ghost all = columns(chunk@);
    let mut n: usize = 0;
    let mut i: usize = 0;
    while i < chunk.len()
        invariant
            all == columns(chunk@),
            i <= chunk@.len(),
            n == longest(all.take(i as int)),
        decreases chunk.len() - i,
    {
        assert(all.take(i as int + 1).drop_last() =~= all.take(i as int));
        assert(all.take(i as int + 1).last() == chunk@[i as int]@);
        if chunk[i].len() > n {
            n = chunk[i].len();
        }
        i += 1;
    }
    assert(all.take(all.len() as int) =~= all);
    n
}

/// Adds a chunk to all that came before it.
pub fn accumulate<T: Copy>(cumulative: &mut Vec<Vec<T>>, chunk: &Vec<Vec<T>>)
    requires
        old(cumulative)@.len() == chunk@.len(),
    ensures
        final(cumulative)@.len() == chunk@.len(),
        forall|i: int|
            0 <= i < chunk@.len() ==> (#[trigger] final(cumulative)@[i])@ == old(cumulative)@[i]@
                + chunk@[i]@,
{
    let mut data: Vec<Vec<T>> = Vec::new();
    let mut i: usize = 0;
    while i < chunk.len()
        invariant
            *cumulative == *old(cumulative),
            cumulative@.len() == chunk@.len(),
            i <= chunk@.len(),
            data@.len() == i,
            forall|k: int|
                0 <= k < i ==> (#[trigger] data@[k])@ == cumulative@[k]@ + chunk@[k]@,
        decreases chunk.len() - i,
    {
        let column = extended(&cumulative[i], &chunk[i], 0, chunk[i].len());
        assert(column@ =~= cumulative@[i as int]@ + chunk@[i as int]@);
        data.push(column);
        i += 1;
    }
    *cumulative = data;
}

/// One turn of a measurement: what the buffers held is put together and added
/// to all that came before, and handed out. A turn in which nothing came
/// changes nothing.
pub fn take_turn<T: Copy>(
    cumulative: &mut Vec<Vec<T>>,
    taken: &Vec<Option<Vec<Vec<T>>>>,
) -> (r: Option<Vec<Vec<T>>>)
    ensures
        final(cumulative)@.len() == old(cumulative)@.len(),
        forall|i: int|
            0 <= i < old(cumulative)@.len() ==> (#[trigger] columns(final(cumulative)@)[i])
                == old(cumulative)@[i]@ + chunk_of(
                all_columns(taken@),
                old(cumulative)@.len(),
            )[i],
        match r {
            Some(chunk) => {
                &&& columns(chunk@) == chunk_of(all_columns(taken@), old(cumulative)@.len())
                &&& holds_data(columns(chunk@))
            },
            None => {
                &&& !holds_data(chunk_of(all_columns(taken@), old(cumulative)@.len()))
                &&& *final(cumulative) == *old(cumulative)
            },
        },
{
    let chunk = assemble_chunk(cumulative.len(), taken);
    assert(columns(chunk@).len() == chunk@.len());
    if !has_data(&chunk) {
        assert forall|i: int| 0 <= i < cumulative@.len() implies (#[trigger] columns(
            cumulative@,
        )[i]) == cumulative@[i]@ + columns(chunk@)[i] by {
            assert(columns(chunk@)[i].len() == 0);
            assert(cumulative@[i]@ + columns(chunk@)[i] =~= cumulative@[i]@);
        }
        return None;
    }
    accumulate(cumulative, &chunk);
    assert forall|i: int| 0 <= i < chunk@.len() implies (#[trigger] columns(cumulative@)[i])
        == old(cumulative)@[i]@ + columns(chunk@)[i] by {
        assert(columns(cumulative@)[i] == cumulative@[i]@);
    }
    Some(chunk)
}

/// The samples of a channel after all of `chunks` have been added to nothing.
pub open spec fn accumulated<T>(chunks: Seq<Seq<Seq<T>>>, channel: int) -> Seq<T>
    decreases chunks.len(),
{
    if chunks.len() == 0 {
        Seq::empty()
    } else {
        accumulated(chunks.drop_last(), channel) + chunks.last()[channel]
    }
}

/// Nothing that came is lost or counted twice: the samples of a channel over
/// two runs of chunks are those of the first run, then those of the second.
pub proof fn law_accumulation_keeps_every_sample<T>(
    a: Seq<Seq<Seq<T>>>,
    b: Seq<Seq<Seq<T>>>,
    channel: int,
)
    ensures
        accumulated(a + b, channel) == accumulated(a, channel) + accumulated(b, channel),
    decreases b.len(),
{
    if b.len() == 0 {
        assert(a + b =~= a);
        assert(accumulated(a, channel) + Seq::<T>::empty() =~= accumulated(a, channel));
    } else {
        law_accumulation_keeps_every_sample(a, b.drop_last(), channel);
        assert((a + b).drop_last() =~= a + b.drop_last());
        assert(accumulated(a, channel) + (accumulated(b.drop_last(), channel) + b.last()[channel])
            =~= accumulated(a, channel) + accumulated(b.drop_last(), channel) + b.last()[channel]);
    }
}

} // verus!

use vstd::prelude::*;

use crate::error::Error;
use crate::memory::{le_u32, splice, MemoryView};
use crate::ptr::{Array, WasmPtr};

verus! {

/// Bytes taken by `s` in a data buffer: each string and its terminator.
pub open spec fn buf_size(s: Seq<Seq<u8>>) -> nat
    decreases s.len(),
{
    if s.len() == 0 {
        0
    } else {
        buf_size(s.drop_last()) + s.last().len() + 1
    }
}

/// The data buffer for `s`: each string followed by a zero byte, in order.
pub open spec fn flatten_nul(s: Seq<Seq<u8>>) -> Seq<u8>
    decreases s.len(),
{
    if s.len() == 0 {
        Seq::empty()
    } else {
        flatten_nul(s.drop_last()) + s.last() + seq![0u8]
    }
}

/// Offset at which string `i` of `s` starts when the data buffer starts at
/// `base`.
pub open spec fn string_offset(s: Seq<Seq<u8>>, base: nat, i: int) -> nat {
    base + buf_size(s.take(i))
}

/// The pointer table for `s` with the data buffer at `base`: one
/// little-endian 32-bit offset per string, in order.
pub open spec fn ptr_table(s: Seq<Seq<u8>>, base: nat) -> Seq<u8>
    decreases s.len(),
{
    if s.len() == 0 {
        Seq::empty()
    } else {
        ptr_table(s.drop_last(), base) + le_u32(string_offset(s, base, s.len() - 1) as u32)
    }
}

/// A data buffer has exactly `buf_size` bytes.
pub proof fn lemma_flatten_len(s: Seq<Seq<u8>>)
    ensures
        flatten_nul(s).len() == buf_size(s),
    decreases s.len(),
{
    if s.len() > 0 {
        lemma_flatten_len(s.drop_last());
    }
}

/// A pointer table has four bytes per string.
pub proof fn lemma_ptr_table_len(s: Seq<Seq<u8>>, base: nat)
    ensures
        ptr_table(s, base).len() == 4 * s.len(),
    decreases s.len(),
{
    if s.len() > 0 {
        lemma_ptr_table_len(s.drop_last(), base);
    }
}

/// The sizes of prefixes grow with the prefix, by at least one byte per
/// string.
pub proof fn lemma_buf_size_prefix(s: Seq<Seq<u8>>, i: int, j: int)
    requires
        0 <= i <= j <= s.len(),
    ensures
        buf_size(s.take(i)) + (j - i) <= buf_size(s.take(j)),
    decreases j - i,
{
    if i < j {
        lemma_buf_size_prefix(s, i, j - 1);
        assert(s.take(j).drop_last() =~= s.take(j - 1));
    }
    assert(s.take(s.len() as int) =~= s);
}

/// Slot `i` of the pointer table holds the offset of string `i`.
pub proof fn lemma_ptr_table_slot(s: Seq<Seq<u8>>, base: nat, i: int)
    requires
        0 <= i < s.len(),
    ensures
        ptr_table(s, base).subrange(4 * i, 4 * i + 4) == le_u32(string_offset(s, base, i) as u32),
    decreases s.len(),
{
    lemma_ptr_table_len(s.drop_last(), base);
    if i < s.len() - 1 {
        lemma_ptr_table_slot(s.drop_last(), base, i);
        assert(s.drop_last().take(i) =~= s.take(i));
        assert(ptr_table(s, base).subrange(4 * i, 4 * i + 4) =~= ptr_table(s.drop_last(), base).subrange(
            4 * i,
            4 * i + 4,
        ));
    } else {
        assert(ptr_table(s, base).subrange(4 * i, 4 * i + 4) =~= le_u32(
            string_offset(s, base, i) as u32,
        ));
    }
}

/// Bytes that `from` takes in a data buffer.
pub fn total_size(from: &Vec<Vec<u8>>) -> (r: u64)
    requires
        buf_size(from.deep_view()) <= u32::MAX,
    ensures
        r == buf_size(from.deep_view()),
{
    let ghost s = from.deep_view();
    let mut total: u64 = 0;
    let mut i: usize = 0;
    while i < from.len()
        invariant
            s == from.deep_view(),
            buf_size(s) <= u32::MAX,
            i <= from@.len(),
            total == buf_size(s.take(i as int)),
        decreases from@.len() - i,
    {
        proof {
            lemma_buf_size_prefix(s, i + 1, s.len() as int);
            assert(s.take(i + 1).drop_last() =~= s.take(i as int));
            assert(s.take(s.len() as int) =~= s);
        }
        total = total + from[i].len() as u64 + 1;
        i = i + 1;
    }
    proof {
        assert(s.take(s.len() as int) =~= s);
    }
    total
}

/// Writes the strings of `from` to the data buffer at `buffer`, each followed
/// by a zero byte, and the offset of each to the pointer table at
/// `ptr_buffer`. Either every byte is written or, when a buffer would leave
/// the memory, none is.
pub fn write_buffer_array(
    memory: &mut MemoryView,
    from: &Vec<Vec<u8>>,
    ptr_buffer: WasmPtr<u32, Array>,
    buffer: WasmPtr<u8, Array>,
) -> (r: Result<(), Error>)
    requires
        from@.len() <= u32::MAX,
        buf_size(from.deep_view()) <= u32::MAX,
        old(memory).wf(),
    ensures
        r is Ok <==> (ptr_buffer@ + 4 * from@.len() <= old(memory)@.len() && buffer@ + buf_size(
            from.deep_view(),
        ) <= old(memory)@.len()),
        r is Err ==> r == Err::<(), Error>(Error::OutOfBounds) && final(memory)@ == old(memory)@,
        r is Ok ==> final(memory)@ == splice(
            splice(old(memory)@, buffer@ as int, flatten_nul(from.deep_view())),
            ptr_buffer@ as int,
            ptr_table(from.deep_view(), buffer@ as nat),
        ),
{
    let ghost s = from.deep_view();
    let ghost base = buffer@ as nat;
    let count: u32 = from.len() as u32;
    let total: u64 = total_size(from);
    proof {
        broadcast use vstd::layout::layout_of_primitives;
    }
    let table_run = match ptr_buffer.deref(memory, count) {
        Some(g) => g,
        None => return Err(Error::OutOfBounds),
    };
    let data_run = match buffer.deref(memory, total as u32) {
        Some(g) => g,
        None => return Err(Error::OutOfBounds),
    };
    assert(buffer@ + total <= 0x1_0000_0000);
    let mut data: Vec<u8> = Vec::new();
    let mut table: Vec<u8> = Vec::new();
    let mut i: usize = 0;
    while i < from.len()
        invariant
            s == from.deep_view(),
            base == buffer@,
            base + buf_size(s) <= 0x1_0000_0000,
            i <= from@.len(),
            data@ == flatten_nul(s.take(i as int)),
            table@ == ptr_table(s.take(i as int), base),
        decreases from@.len() - i,
    {
        proof {
            lemma_flatten_len(s.take(i as int));
            lemma_buf_size_prefix(s, i as int, i + 1);
            lemma_buf_size_prefix(s, i + 1, s.len() as int);
            assert(s.take(s.len() as int) =~= s);
            assert(s.take(i + 1).drop_last() =~= s.take(i as int));
            assert(s.take(i + 1).take(i as int) =~= s.take(i as int));
        }
        let cursor: u64 = buffer.offset() as u64 + data.len() as u64;
        let slot: u32 = cursor as u32;
        assert((slot & 0xff) < 256 && ((slot >> 8u32) & 0xff) < 256 && ((slot >> 16u32) & 0xff)
            < 256 && ((slot >> 24u32) & 0xff) < 256) by (bit_vector);
        table.push((slot & 0xff) as u8);
        table.push(((slot >> 8u32) & 0xff) as u8);
        table.push(((slot >> 16u32) & 0xff) as u8);
        table.push(((slot >> 24u32) & 0xff) as u8);
        let sub = &from[i];
        let mut k: usize = 0;
        while k < sub.len()
            invariant
                k <= sub@.len(),
                data@ == flatten_nul(s.take(i as int)) + sub@.take(k as int),
            decreases sub@.len() - k,
        {
            data.push(sub[k]);
            assert(data@ =~= flatten_nul(s.take(i as int)) + sub@.take(k + 1));
            k = k + 1;
        }
        data.push(0u8);
        proof {
            assert(sub@.take(sub@.len() as int) =~= sub@);
            assert(s.take(i + 1).last() == sub@);
            assert(data@ =~= flatten_nul(s.take(i + 1)));
            assert(table@ =~= ptr_table(s.take(i + 1), base));
        }
        i = i + 1;
    }
    proof {
        assert(s.take(s.len() as int) =~= s);
        lemma_flatten_len(s);
        lemma_ptr_table_len(s, base);
    }
    memory.write_bytes(data_run.start, data.as_slice());
    memory.write_bytes(table_run.start, table.as_slice());
    Ok(())
}

} // verus!

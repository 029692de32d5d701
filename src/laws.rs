use vstd::prelude::*;

use crate::buffers::{
    buf_size, flatten_nul, lemma_buf_size_prefix, lemma_flatten_len, lemma_ptr_table_len,
    lemma_ptr_table_slot, ptr_table, string_offset,
};
use crate::fd::FdEntry;
use crate::memory::{le_u32, MAX_MEMORY_BYTES};
use crate::ptr::fits;
use crate::rights::{lemma_intersect_within, lemma_within_refl, lemma_within_trans, within, Rights};
use crate::state::WasiState;
use crate::syscalls::{after_buffer_array, buffer_array_fits, open_rights};

verus! {

/// A run of zero values fits wherever its offset lies inside the memory, and
/// takes no bytes.
pub proof fn empty_run_fits(offset: u32, size: nat, byte_length: nat)
    requires
        offset <= byte_length,
    ensures
        fits(offset, size, 0, byte_length),
        size * 0 == 0,
{
}

/// The buffer size that the sizes call reports is exactly the number of data
/// bytes that the strings call writes; the pointer table holds, in slot `i`,
/// the offset of string `i`; these offsets rise strictly and each string with
/// its terminator lies inside the data buffer.
pub proof fn buffer_array_layout(s: Seq<Seq<u8>>, base: nat)
    ensures
        flatten_nul(s).len() == buf_size(s),
        ptr_table(s, base).len() == 4 * s.len(),
        forall|i: int|
            0 <= i < s.len() ==> #[trigger] ptr_table(s, base).subrange(4 * i, 4 * i + 4) == le_u32(
                string_offset(s, base, i) as u32,
            ),
        forall|i: int, j: int| 0 <= i < j < s.len() ==> string_offset(s, base, i) < string_offset(s, base, j),
        forall|i: int|
            0 <= i < s.len() ==> base <= #[trigger] string_offset(s, base, i) && string_offset(s, base, i)
                + s[i].len() + 1 <= base + buf_size(s),
{
    lemma_flatten_len(s);
    lemma_ptr_table_len(s, base);
    assert forall|i: int| 0 <= i < s.len() implies #[trigger] ptr_table(s, base).subrange(4 * i, 4 * i + 4)
        == le_u32(string_offset(s, base, i) as u32) by {
        lemma_ptr_table_slot(s, base, i);
    }
    assert forall|i: int, j: int| 0 <= i < j < s.len() implies string_offset(s, base, i) < string_offset(
        s,
        base,
        j,
    ) by {
        lemma_buf_size_prefix(s, i, j);
    }
    assert forall|i: int| 0 <= i < s.len() implies base <= #[trigger] string_offset(s, base, i)
        && string_offset(s, base, i) + s[i].len() + 1 <= base + buf_size(s) by {
        lemma_buf_size_prefix(s, i + 1, s.len() as int);
        assert(s.take(i + 1).drop_last() =~= s.take(i));
        assert(s.take(s.len() as int) =~= s);
    }
}

/// After any chain of successful narrowings, each one within the rights that
/// came before it, the rights held lie within those held at the start.
pub proof fn narrowing_is_monotone(chain: Seq<FdEntry>)
    requires
        chain.len() > 0,
        forall|i: int|
            0 <= i < chain.len() - 1 ==> within(#[trigger] chain[i + 1].rights_base, chain[i].rights_base)
                && within(chain[i + 1].rights_inheriting, chain[i].rights_inheriting),
    ensures
        forall|i: int|
            0 <= i < chain.len() ==> within(#[trigger] chain[i].rights_base, chain[0].rights_base) && within(
                chain[i].rights_inheriting,
                chain[0].rights_inheriting,
            ),
    decreases chain.len(),
{
    if chain.len() > 1 {
        let shorter = chain.drop_last();
        assert forall|i: int| 0 <= i < shorter.len() - 1 implies within(
            #[trigger] shorter[i + 1].rights_base,
            shorter[i].rights_base,
        ) && within(shorter[i + 1].rights_inheriting, shorter[i].rights_inheriting) by {
            assert(shorter[i + 1] == chain[i + 1]);
        }
        narrowing_is_monotone(shorter);
        let last = chain.len() - 1;
        assert(within(shorter[last - 1].rights_base, shorter[0].rights_base));
        assert(shorter[last - 1] == chain[last - 1] && shorter[0] == chain[0]);
        let k = last - 1;
        assert(within(chain[k + 1].rights_base, chain[k].rights_base));
        assert(within(chain[last - 1].rights_base, chain[0].rights_base));
        assert(within(chain[last - 1].rights_inheriting, chain[0].rights_inheriting));
        lemma_within_trans(chain[last].rights_base, chain[last - 1].rights_base, chain[0].rights_base);
        lemma_within_trans(
            chain[last].rights_inheriting,
            chain[last - 1].rights_inheriting,
            chain[0].rights_inheriting,
        );
        assert forall|i: int| 0 <= i < chain.len() implies within(
            #[trigger] chain[i].rights_base,
            chain[0].rights_base,
        ) && within(chain[i].rights_inheriting, chain[0].rights_inheriting) by {
            if i < last {
                assert(chain[i] == shorter[i]);
                assert(within(shorter[i].rights_base, shorter[0].rights_base));
                assert(within(shorter[i].rights_inheriting, shorter[0].rights_inheriting));
            }
        }
    } else {
        lemma_within_refl(chain[0].rights_base);
        lemma_within_refl(chain[0].rights_inheriting);
    }
}

/// Whatever rights are asked for, a path opened under `dirfd` receives only
/// rights that `dirfd` may hand on.
pub proof fn opened_rights_within_parent(
    state: &WasiState,
    dirfd: u32,
    rights_base: Rights,
    rights_inheriting: Rights,
)
    ensures
        open_rights(state, dirfd, rights_base, rights_inheriting) matches Ok(p) ==> within(
            p.0,
            state.spec_fds().entry(dirfd).rights_inheriting,
        ) && within(p.1, state.spec_fds().entry(dirfd).rights_inheriting),
{
    let inh = state.spec_fds().entry(dirfd).rights_inheriting;
    lemma_intersect_within(rights_base, inh);
    lemma_intersect_within(rights_inheriting, inh);
}

/// A number freed by a close and taken by a new entry carries exactly the
/// new entry's rights: nothing of the closed one survives.
pub proof fn reused_number_is_fresh(
    before: Seq<Option<FdEntry>>,
    closed: Seq<Option<FdEntry>>,
    reopened: Seq<Option<FdEntry>>,
    fd: u32,
    entry: FdEntry,
)
    requires
        (fd as int) < before.len(),
        closed == before.update(fd as int, None),
        reopened == closed.update(fd as int, Some(entry)),
    ensures
        reopened[fd as int] == Some(entry),
        reopened[fd as int]->Some_0.rights_base == entry.rights_base,
        reopened[fd as int]->Some_0.rights_inheriting == entry.rights_inheriting,
        forall|g: int| 0 <= g < before.len() && g != fd ==> #[trigger] reopened[g] == before[g],
{
}

/// When the pointer table and the data buffer fit a memory of at most 4 GiB
/// and do not overlap, the strings call leaves in the data buffer exactly the
/// `buf_size(s)` bytes that the sizes call reports, each string followed by a
/// zero; slot `i` of the table holds the offset of string `i`, these offsets
/// rise strictly inside the data buffer; every other byte is unchanged.
pub proof fn buffer_array_result(m: Seq<u8>, s: Seq<Seq<u8>>, ptrs: u32, buf: u32)
    requires
        m.len() <= MAX_MEMORY_BYTES,
        buffer_array_fits(s, ptrs, buf, m.len()),
        ptrs + 4 * s.len() <= buf || buf + buf_size(s) <= ptrs,
    ensures
        after_buffer_array(m, s, ptrs, buf).len() == m.len(),
        after_buffer_array(m, s, ptrs, buf).subrange(buf as int, buf + buf_size(s)) == flatten_nul(s),
        forall|i: int|
            0 <= i < s.len() ==> #[trigger] after_buffer_array(m, s, ptrs, buf).subrange(
                ptrs + 4 * i,
                ptrs + 4 * i + 4,
            ) == le_u32(string_offset(s, buf as nat, i) as u32),
        forall|i: int, j: int|
            0 <= i < j < s.len() ==> string_offset(s, buf as nat, i) < string_offset(s, buf as nat, j),
        forall|i: int|
            0 <= i < s.len() ==> buf <= #[trigger] string_offset(s, buf as nat, i) < buf + buf_size(s),
        forall|k: int|
            0 <= k < m.len() && !(ptrs <= k < ptrs + 4 * s.len()) && !(buf <= k < buf + buf_size(s))
                ==> #[trigger] after_buffer_array(m, s, ptrs, buf)[k] == m[k],
{
    buffer_array_layout(s, buf as nat);
    let flat = flatten_nul(s);
    let table = ptr_table(s, buf as nat);
    let inner = m.take(buf as int) + flat + m.skip(buf + flat.len());
    let w = after_buffer_array(m, s, ptrs, buf);
    assert(inner.len() == m.len());
    assert(w == inner.take(ptrs as int) + table + inner.skip(ptrs + table.len()));
    assert(w.len() == m.len());
    assert forall|j: int| 0 <= j < flat.len() implies w[buf + j] == flat[j] by {
        assert(inner[buf + j] == flat[j]);
    }
    assert(w.subrange(buf as int, buf + buf_size(s)) =~= flat);
    assert forall|i: int| 0 <= i < s.len() implies #[trigger] w.subrange(ptrs + 4 * i, ptrs + 4 * i + 4)
        == le_u32(string_offset(s, buf as nat, i) as u32) by {
        assert(w.subrange(ptrs + 4 * i, ptrs + 4 * i + 4) =~= table.subrange(4 * i, 4 * i + 4));
    }
    assert forall|i: int| 0 <= i < s.len() implies buf <= #[trigger] string_offset(s, buf as nat, i)
        < buf + buf_size(s) by {
        assert(string_offset(s, buf as nat, i) + s[i].len() + 1 <= buf + buf_size(s));
    }
    assert forall|k: int|
        0 <= k < m.len() && !(ptrs <= k < ptrs + 4 * s.len()) && !(buf <= k < buf + buf_size(s))
            implies #[trigger] w[k] == m[k] by {
        assert(w[k] == inner[k]);
    }
}

/// `after` is `before` with the rights of `fd` replaced by `base` and
/// `inheriting`, both within the rights it held: a successful
/// `fd_fdstat_set_rights`.
pub open spec fn rights_step(
    before: Seq<Option<FdEntry>>,
    after: Seq<Option<FdEntry>>,
    fd: u32,
    base: Rights,
    inheriting: Rights,
) -> bool {
    &&& (fd as int) < before.len()
    &&& before[fd as int] is Some
    &&& within(base, before[fd as int]->Some_0.rights_base)
    &&& within(inheriting, before[fd as int]->Some_0.rights_inheriting)
    &&& after == before.update(
        fd as int,
        Some(
            (FdEntry {
                rights_base: base,
                rights_inheriting: inheriting,
                ..before[fd as int]->Some_0
            }),
        ),
    )
}

/// After any run of successful rights changes on `fd`, each applied to the
/// table that the previous one left, the rights of `fd` lie within those it
/// had at the start.
pub proof fn rights_changes_are_monotone(
    tables: Seq<Seq<Option<FdEntry>>>,
    fd: u32,
    bases: Seq<Rights>,
    inheritings: Seq<Rights>,
)
    requires
        tables.len() > 0,
        bases.len() == tables.len() - 1,
        inheritings.len() == tables.len() - 1,
        (fd as int) < tables[0].len(),
        tables[0][fd as int] is Some,
        forall|k: int|
            0 <= k < tables.len() - 1 ==> #[trigger] rights_step(
                tables[k],
                tables[k + 1],
                fd,
                bases[k],
                inheritings[k],
            ),
    ensures
        tables.last().len() == tables[0].len(),
        tables.last()[fd as int] is Some,
        within(tables.last()[fd as int]->Some_0.rights_base, tables[0][fd as int]->Some_0.rights_base),
        within(
            tables.last()[fd as int]->Some_0.rights_inheriting,
            tables[0][fd as int]->Some_0.rights_inheriting,
        ),
    decreases tables.len(),
{
    let first = tables[0][fd as int]->Some_0;
    if tables.len() == 1 {
        lemma_within_refl(first.rights_base);
        lemma_within_refl(first.rights_inheriting);
    } else {
        let n = tables.len() - 1;
        let shorter = tables.drop_last();
        let sb = bases.drop_last();
        let si = inheritings.drop_last();
        assert forall|k: int| 0 <= k < shorter.len() - 1 implies #[trigger] rights_step(
            shorter[k],
            shorter[k + 1],
            fd,
            sb[k],
            si[k],
        ) by {
            assert(shorter[k + 1] == tables[k + 1]);
            assert(shorter[k] == tables[k]);
            assert(sb[k] == bases[k] && si[k] == inheritings[k]);
            assert(rights_step(tables[k], tables[k + 1], fd, bases[k], inheritings[k]));
        }
        rights_changes_are_monotone(shorter, fd, sb, si);
        let k = n - 1;
        assert(shorter.last() == tables[k]);
        assert(rights_step(tables[k], tables[k + 1], fd, bases[k], inheritings[k]));
        assert(tables[k + 1] == tables.last());
        let prev = tables[k][fd as int]->Some_0;
        lemma_within_trans(bases[k], prev.rights_base, first.rights_base);
        lemma_within_trans(inheritings[k], prev.rights_inheriting, first.rights_inheriting);
    }
}

} // verus!

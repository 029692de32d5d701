use vstd::prelude::*;

use crate::buffers::{buf_size, flatten_nul, ptr_table, total_size, write_buffer_array};
use crate::error::{status, Errno, Error, EFAULT, ESUCCESS};
use crate::fd::{FdEntry, ResourceKind};
use crate::memory::{le_u32, le_u64, splice, MemoryView};
use crate::ptr::{Array, WasmPtr};
use crate::rights::{intersect, within, Rights, RIGHT_PATH_OPEN};
use crate::state::WasiState;

verus! {

/// Memory after a successful `args_get` or `environ_get` of `s`.
pub open spec fn after_buffer_array(
    m: Seq<u8>,
    s: Seq<Seq<u8>>,
    ptr_buffer: u32,
    buffer: u32,
) -> Seq<u8> {
    splice(splice(m, buffer as int, flatten_nul(s)), ptr_buffer as int, ptr_table(s, buffer as nat))
}

/// Whether the pointer table and data buffer for `s` lie inside a memory of
/// `len` bytes.
pub open spec fn buffer_array_fits(s: Seq<Seq<u8>>, ptr_buffer: u32, buffer: u32, len: nat) -> bool {
    &&& ptr_buffer + 4 * s.len() <= len
    &&& buffer + buf_size(s) <= len
}

/// Memory after a successful `args_sizes_get` or `environ_sizes_get` of `s`.
pub open spec fn after_sizes(m: Seq<u8>, s: Seq<Seq<u8>>, count_out: u32, size_out: u32) -> Seq<u8> {
    splice(splice(m, count_out as int, le_u32(s.len() as u32)), size_out as int, le_u32(buf_size(s) as u32))
}

/// Writes the string list `s` through the two buffers.
fn buffer_array_get(
    memory: &mut MemoryView,
    from: &Vec<Vec<u8>>,
    ptr_buffer: WasmPtr<u32, Array>,
    buffer: WasmPtr<u8, Array>,
) -> (r: Errno)
    requires
        from@.len() <= u32::MAX,
        buf_size(from.deep_view()) <= u32::MAX,
        old(memory).wf(),
    ensures
        r == ESUCCESS || r == EFAULT,
        (r == ESUCCESS) == buffer_array_fits(from.deep_view(), ptr_buffer@, buffer@, old(memory)@.len()),
        r == ESUCCESS ==> final(memory)@ == after_buffer_array(old(memory)@, from.deep_view(), ptr_buffer@, buffer@),
        r != ESUCCESS ==> final(memory)@ == old(memory)@,
{
    status(write_buffer_array(memory, from, ptr_buffer, buffer))
}

/// Writes the count and the buffer size of `from`.
fn buffer_sizes_get(
    memory: &mut MemoryView,
    from: &Vec<Vec<u8>>,
    count_out: WasmPtr<u32>,
    size_out: WasmPtr<u32>,
) -> (r: Errno)
    requires
        from@.len() <= u32::MAX,
        buf_size(from.deep_view()) <= u32::MAX,
    ensures
        r == ESUCCESS || r == EFAULT,
        (r == ESUCCESS) == (count_out@ + 4 <= old(memory)@.len() && size_out@ + 4 <= old(memory)@.len()),
        r == ESUCCESS ==> final(memory)@ == after_sizes(old(memory)@, from.deep_view(), count_out@, size_out@),
        r != ESUCCESS ==> final(memory)@ == old(memory)@,
{
    proof {
        broadcast use vstd::layout::layout_of_primitives;
    }
    let count_cell = match count_out.deref(memory) {
        Some(g) => g,
        None => return EFAULT,
    };
    let size_cell = match size_out.deref(memory) {
        Some(g) => g,
        None => return EFAULT,
    };
    let total = total_size(from);
    memory.write_u32(count_cell.start, from.len() as u32);
    memory.write_u32(size_cell.start, total as u32);
    ESUCCESS
}

/// Writes the argument strings: one offset per argument to the table at
/// `argv`, the zero-terminated strings themselves to `argv_buf`.
pub fn args_get(
    state: &WasiState,
    memory: &mut MemoryView,
    argv: WasmPtr<u32, Array>,
    argv_buf: WasmPtr<u8, Array>,
) -> (r: Errno)
    requires
        state.wf(),
        old(memory).wf(),
    ensures
        r == ESUCCESS || r == EFAULT,
        (r == ESUCCESS) == buffer_array_fits(state.spec_args(), argv@, argv_buf@, old(memory)@.len()),
        r == ESUCCESS ==> final(memory)@ == after_buffer_array(old(memory)@, state.spec_args(), argv@, argv_buf@),
        r != ESUCCESS ==> final(memory)@ == old(memory)@,
{
    buffer_array_get(memory, state.args(), argv, argv_buf)
}

/// Writes the number of arguments to `argc` and the size of their data
/// buffer, terminators included, to `argv_buf_size`.
pub fn args_sizes_get(
    state: &WasiState,
    memory: &mut MemoryView,
    argc: WasmPtr<u32>,
    argv_buf_size: WasmPtr<u32>,
) -> (r: Errno)
    requires
        state.wf(),
    ensures
        r == ESUCCESS || r == EFAULT,
        (r == ESUCCESS) == (argc@ + 4 <= old(memory)@.len() && argv_buf_size@ + 4 <= old(memory)@.len()),
        r == ESUCCESS ==> final(memory)@ == after_sizes(old(memory)@, state.spec_args(), argc@, argv_buf_size@),
        r != ESUCCESS ==> final(memory)@ == old(memory)@,
{
    buffer_sizes_get(memory, state.args(), argc, argv_buf_size)
}

/// Writes the environment strings, as `args_get` does the arguments.
pub fn environ_get(
    state: &WasiState,
    memory: &mut MemoryView,
    environ: WasmPtr<u32, Array>,
    environ_buf: WasmPtr<u8, Array>,
) -> (r: Errno)
    requires
        state.wf(),
        old(memory).wf(),
    ensures
        r == ESUCCESS || r == EFAULT,
        (r == ESUCCESS) == buffer_array_fits(state.spec_envs(), environ@, environ_buf@, old(memory)@.len()),
        r == ESUCCESS ==> final(memory)@ == after_buffer_array(old(memory)@, state.spec_envs(), environ@, environ_buf@),
        r != ESUCCESS ==> final(memory)@ == old(memory)@,
{
    buffer_array_get(memory, state.envs(), environ, environ_buf)
}

/// Writes the number of environment strings and the size of their data
/// buffer, as `args_sizes_get` does for the arguments.
pub fn environ_sizes_get(
    state: &WasiState,
    memory: &mut MemoryView,
    environ_count: WasmPtr<u32>,
    environ_buf_size: WasmPtr<u32>,
) -> (r: Errno)
    requires
        state.wf(),
    ensures
        r == ESUCCESS || r == EFAULT,
        (r == ESUCCESS) == (environ_count@ + 4 <= old(memory)@.len() && environ_buf_size@ + 4 <= old(memory)@.len()),
        r == ESUCCESS ==> final(memory)@ == after_sizes(old(memory)@, state.spec_envs(), environ_count@, environ_buf_size@),
        r != ESUCCESS ==> final(memory)@ == old(memory)@,
{
    buffer_sizes_get(memory, state.envs(), environ_count, environ_buf_size)
}

/// Prestat record of a preopened directory whose name has `name_len` bytes:
/// the directory tag, padding, then the name length.
pub open spec fn prestat_bytes(name_len: u32) -> Seq<u8> {
    seq![0u8, 0u8, 0u8, 0u8] + le_u32(name_len)
}

/// Whether `fd` is an open preopened directory.
pub open spec fn is_preopen(state: &WasiState, fd: u32) -> bool {
    state.spec_fds().is_open(fd) && state.spec_fds().entry(fd).kind == ResourceKind::Preopen
}

/// Path of the preopened directory `fd`.
pub open spec fn preopen_name(state: &WasiState, fd: u32) -> Seq<u8> {
    state.spec_preopen_paths()[state.spec_fds().entry(fd).host as int]
}

/// The path of preopen `fd`, or `BadFileDescriptor` when `fd` is no open
/// preopen.
fn lookup_preopen(state: &WasiState, fd: u32) -> (r: Result<&Vec<u8>, Error>)
    requires
        state.wf(),
    ensures
        is_preopen(state, fd) ==> (r matches Ok(p) && p@ == preopen_name(state, fd)),
        !is_preopen(state, fd) ==> r == Err::<&Vec<u8>, Error>(Error::BadFileDescriptor),
{
    let e = match state.fds().get(fd) {
        Ok(e) => e,
        Err(err) => return Err(err),
    };
    assert(e.kind == ResourceKind::Preopen ==> e.host < state.spec_preopen_paths().len());
    if e.host >= state.preopen_count() as u64 {
        return Err(Error::BadFileDescriptor);
    }
    match e.kind {
        ResourceKind::Preopen => Ok(state.preopen_path(e.host as usize)),
        _ => Err(Error::BadFileDescriptor),
    }
}

/// Closes `fd`; its number becomes free for reuse.
pub fn fd_close(state: &mut WasiState, fd: u32) -> (r: Errno)
    requires
        old(state).wf(),
    ensures
        final(state).wf(),
        final(state).spec_args() == old(state).spec_args(),
        final(state).spec_envs() == old(state).spec_envs(),
        final(state).spec_preopen_paths() == old(state).spec_preopen_paths(),
        old(state).spec_fds().is_open(fd) ==> r == ESUCCESS && final(state).spec_fds()@ == old(state).spec_fds()@.update(fd as int, None),
        !old(state).spec_fds().is_open(fd) ==> r == Error::BadFileDescriptor.spec_errno()
            && final(state).spec_fds()@ == old(state).spec_fds()@,
{
    status(state.close_fd(fd))
}

/// Replaces the rights of `fd` by `fs_rights_base` and
/// `fs_rights_inheriting`, which may only narrow them.
pub fn fd_fdstat_set_rights(
    state: &mut WasiState,
    fd: u32,
    fs_rights_base: Rights,
    fs_rights_inheriting: Rights,
) -> (r: Errno)
    requires
        old(state).wf(),
    ensures
        final(state).wf(),
        final(state).spec_args() == old(state).spec_args(),
        final(state).spec_envs() == old(state).spec_envs(),
        final(state).spec_preopen_paths() == old(state).spec_preopen_paths(),
        !old(state).spec_fds().is_open(fd) ==> r == Error::BadFileDescriptor.spec_errno(),
        old(state).spec_fds().is_open(fd) && !(within(fs_rights_base, old(state).spec_fds().entry(fd).rights_base)
            && within(fs_rights_inheriting, old(state).spec_fds().entry(fd).rights_inheriting))
            ==> r == Error::PermissionDenied.spec_errno(),
        old(state).spec_fds().is_open(fd) && within(fs_rights_base, old(state).spec_fds().entry(fd).rights_base)
            && within(fs_rights_inheriting, old(state).spec_fds().entry(fd).rights_inheriting) ==> r == ESUCCESS,
        r != ESUCCESS ==> final(state).spec_fds()@ == old(state).spec_fds()@,
        r == ESUCCESS ==> final(state).spec_fds()@ == old(state).spec_fds()@.update(
            fd as int,
            Some(
                (FdEntry {
                    rights_base: fs_rights_base,
                    rights_inheriting: fs_rights_inheriting,
                    ..old(state).spec_fds().entry(fd)
                }),
            ),
        ),
{
    status(state.narrow_fd_rights(fd, fs_rights_base, fs_rights_inheriting))
}

/// Writes the prestat record of preopen `fd` to the eight bytes at `buf`.
pub fn fd_prestat_get(state: &WasiState, memory: &mut MemoryView, fd: u32, buf: WasmPtr<u8, Array>) -> (r: Errno)
    requires
        state.wf(),
    ensures
        !is_preopen(state, fd) ==> r == Error::BadFileDescriptor.spec_errno(),
        is_preopen(state, fd) && buf@ + 8 > old(memory)@.len() ==> r == Error::OutOfBounds.spec_errno(),
        is_preopen(state, fd) && buf@ + 8 <= old(memory)@.len() ==> r == ESUCCESS
            && final(memory)@ == splice(old(memory)@, buf@ as int, prestat_bytes(preopen_name(state, fd).len() as u32)),
        r != ESUCCESS ==> final(memory)@ == old(memory)@,
{
    proof {
        broadcast use vstd::layout::layout_of_primitives;
    }
    let name = match lookup_preopen(state, fd) {
        Ok(p) => p,
        Err(e) => return e.errno(),
    };
    let run = match buf.deref(memory, 8) {
        Some(g) => g,
        None => return Error::OutOfBounds.errno(),
    };
    let len = name.len() as u32;
    assert((len & 0xff) < 256 && ((len >> 8u32) & 0xff) < 256 && ((len >> 16u32) & 0xff) < 256
        && ((len >> 24u32) & 0xff) < 256) by (bit_vector);
    let record: [u8; 8] = [
        0u8,
        0u8,
        0u8,
        0u8,
        (len & 0xff) as u8,
        ((len >> 8u32) & 0xff) as u8,
        ((len >> 16u32) & 0xff) as u8,
        ((len >> 24u32) & 0xff) as u8,
    ];
    assert(record@ =~= prestat_bytes(len));
    memory.write_bytes(run.start, record.as_slice());
    ESUCCESS
}

/// Writes the path of preopen `fd` to the `path_len` bytes at `path`; the
/// buffer must hold the whole name.
pub fn fd_prestat_dir_name(
    state: &WasiState,
    memory: &mut MemoryView,
    fd: u32,
    path: WasmPtr<u8, Array>,
    path_len: u32,
) -> (r: Errno)
    requires
        state.wf(),
    ensures
        !is_preopen(state, fd) ==> r == Error::BadFileDescriptor.spec_errno(),
        is_preopen(state, fd) && (path@ + path_len > old(memory)@.len() || path_len < preopen_name(state, fd).len())
            ==> r == Error::OutOfBounds.spec_errno(),
        is_preopen(state, fd) && path@ + path_len <= old(memory)@.len() && path_len >= preopen_name(state, fd).len()
            ==> r == ESUCCESS && final(memory)@ == splice(old(memory)@, path@ as int, preopen_name(state, fd)),
        r != ESUCCESS ==> final(memory)@ == old(memory)@,
{
    proof {
        broadcast use vstd::layout::layout_of_primitives;
    }
    let name = match lookup_preopen(state, fd) {
        Ok(p) => p,
        Err(e) => return e.errno(),
    };
    let run = match path.deref(memory, path_len) {
        Some(g) => g,
        None => return Error::OutOfBounds.errno(),
    };
    if name.len() > path_len as usize {
        return Error::OutOfBounds.errno();
    }
    memory.write_bytes(run.start, name.as_slice());
    ESUCCESS
}

/// What `path_open_rights` returns.
pub open spec fn open_rights(state: &WasiState, dirfd: u32, rights_base: Rights, rights_inheriting: Rights) -> Result<
    (Rights, Rights),
    Error,
> {
    if !state.spec_fds().is_open(dirfd) {
        Err(Error::BadFileDescriptor)
    } else if !within(RIGHT_PATH_OPEN, state.spec_fds().entry(dirfd).rights_base) {
        Err(Error::PermissionDenied)
    } else {
        Ok(
            (
                rights_base & state.spec_fds().entry(dirfd).rights_inheriting,
                rights_inheriting & state.spec_fds().entry(dirfd).rights_inheriting,
            ),
        )
    }
}

/// Rights of a descriptor opened under `dirfd` that asked for `rights_base`
/// and `rights_inheriting`: both cut down to what `dirfd` may hand on.
/// Fails when `dirfd` is unknown or lacks the right to open paths.
pub fn path_open_rights(state: &WasiState, dirfd: u32, rights_base: Rights, rights_inheriting: Rights) -> (r: Result<
    (Rights, Rights),
    Error,
>)
    ensures
        r == open_rights(state, dirfd, rights_base, rights_inheriting),
        r matches Ok(p) ==> within(p.0, state.spec_fds().entry(dirfd).rights_inheriting) && within(
            p.1,
            state.spec_fds().entry(dirfd).rights_inheriting,
        ),
{
    let dir = match state.fds().get(dirfd) {
        Ok(e) => e,
        Err(err) => return Err(err),
    };
    if !crate::rights::is_subset(RIGHT_PATH_OPEN, dir.rights_base) {
        return Err(Error::PermissionDenied);
    }
    let base = match state.fds().derive_under(dirfd, rights_base) {
        Ok(b) => b,
        Err(err) => return Err(err),
    };
    Ok((base, intersect(rights_inheriting, dir.rights_inheriting)))
}

/// Registers the resource that the host opened for a `path_open` under
/// `dirfd` and writes its new descriptor to `fd_out`. `opened` is what the
/// host reported: the kind and handle of the resource, or its failure. The
/// rights are checked, and `fd_out` validated, before anything changes.
pub fn path_open(
    state: &mut WasiState,
    memory: &mut MemoryView,
    dirfd: u32,
    rights_base: Rights,
    rights_inheriting: Rights,
    opened: Result<(ResourceKind, u64), Error>,
    fd_out: WasmPtr<u32>,
) -> (r: Errno)
    requires
        old(state).wf(),
        old(state).spec_fds()@.len() < u32::MAX,
    ensures
        final(state).wf(),
        final(state).spec_args() == old(state).spec_args(),
        final(state).spec_envs() == old(state).spec_envs(),
        final(state).spec_preopen_paths() == old(state).spec_preopen_paths(),
        open_rights(old(state), dirfd, rights_base, rights_inheriting) is Err ==> r == open_rights(
            old(state),
            dirfd,
            rights_base,
            rights_inheriting,
        )->Err_0.spec_errno(),
        open_rights(old(state), dirfd, rights_base, rights_inheriting) is Ok && fd_out@ + 4 > old(memory)@.len()
            ==> r == Error::OutOfBounds.spec_errno(),
        open_rights(old(state), dirfd, rights_base, rights_inheriting) is Ok && fd_out@ + 4 <= old(memory)@.len()
            && opened is Err ==> r == opened->Err_0.spec_errno(),
        open_rights(old(state), dirfd, rights_base, rights_inheriting) is Ok && fd_out@ + 4 <= old(memory)@.len()
            && opened is Ok ==> r == ESUCCESS,
        r != ESUCCESS ==> final(state).spec_fds()@ == old(state).spec_fds()@ && final(memory)@ == old(memory)@,
        r == ESUCCESS ==> {
            &&& open_rights(old(state), dirfd, rights_base, rights_inheriting) matches Ok(p)
            &&& opened matches Ok(o)
            &&& fd_out@ + 4 <= old(memory)@.len()
            &&& exists|fd: u32| {
                &&& !old(state).spec_fds().is_open(fd)
                &&& final(state).spec_fds().is_open(fd)
                &&& final(state).spec_fds().entry(fd) == (FdEntry {
                    kind: if o.0 == ResourceKind::Preopen { ResourceKind::Directory } else { o.0 },
                    rights_base: p.0,
                    rights_inheriting: p.1,
                    host: o.1,
                })
                &&& within(p.0, old(state).spec_fds().entry(dirfd).rights_inheriting)
                &&& within(p.1, old(state).spec_fds().entry(dirfd).rights_inheriting)
                &&& final(state).spec_fds()@ == if (fd as int) < old(state).spec_fds()@.len() {
                    old(state).spec_fds()@.update(fd as int, final(state).spec_fds()@[fd as int])
                } else {
                    old(state).spec_fds()@.push(final(state).spec_fds()@[fd as int])
                }
                &&& final(memory)@ == splice(old(memory)@, fd_out@ as int, le_u32(fd))
            }
        },
{
    proof {
        broadcast use vstd::layout::layout_of_primitives;
    }
    let (base, inheriting) = match path_open_rights(state, dirfd, rights_base, rights_inheriting) {
        Ok(p) => p,
        Err(e) => return e.errno(),
    };
    let cell = match fd_out.deref(memory) {
        Some(g) => g,
        None => return Error::OutOfBounds.errno(),
    };
    let (kind, host) = match opened {
        Ok(o) => o,
        Err(e) => return e.errno(),
    };
    let kind = match kind {
        ResourceKind::Preopen => ResourceKind::Directory,
        k => k,
    };
    let entry = FdEntry { kind, rights_base: base, rights_inheriting: inheriting, host };
    let fd = state.register(entry);
    memory.write_u32(cell.start, fd);
    proof {
        assert(!old(state).spec_fds().is_open(fd));
    }
    ESUCCESS
}

/// Reads the resolution of a clock. No host logic stands behind this call yet: the guest is told so.
pub fn clock_res_get(_state: &WasiState, _clock_id: u32, _resolution: WasmPtr<u64>) -> (r: Errno)
    ensures
        r == Error::NotImplemented.spec_errno(),
{
    Error::NotImplemented.errno()
}

/// Reads the time of a clock. No host logic stands behind this call yet: the guest is told so.
pub fn clock_time_get(_state: &WasiState, _clock_id: u32, _precision: u64, _time: WasmPtr<u64>) -> (r: Errno)
    ensures
        r == Error::NotImplemented.spec_errno(),
{
    Error::NotImplemented.errno()
}

/// Advises the host on the use of a file region. No host logic stands behind this call yet: the guest is told so.
pub fn fd_advise(_state: &WasiState, _fd: u32, _offset: u64, _len: u64, _advice: u8) -> (r: Errno)
    ensures
        r == Error::NotImplemented.spec_errno(),
{
    Error::NotImplemented.errno()
}

/// Reserves space in a file. No host logic stands behind this call yet: the guest is told so.
pub fn fd_allocate(_state: &WasiState, _fd: u32, _offset: u64, _len: u64) -> (r: Errno)
    ensures
        r == Error::NotImplemented.spec_errno(),
{
    Error::NotImplemented.errno()
}

/// Flushes the data of a file. No host logic stands behind this call yet: the guest is told so.
pub fn fd_datasync(_state: &WasiState, _fd: u32) -> (r: Errno)
    ensures
        r == Error::NotImplemented.spec_errno(),
{
    Error::NotImplemented.errno()
}

/// Changes the flags of a descriptor. No host logic stands behind this call yet: the guest is told so.
pub fn fd_fdstat_set_flags(_state: &WasiState, _fd: u32, _flags: u16) -> (r: Errno)
    ensures
        r == Error::NotImplemented.spec_errno(),
{
    Error::NotImplemented.errno()
}

/// Reads the attributes of an open file. No host logic stands behind this call yet: the guest is told so.
pub fn fd_filestat_get(_state: &WasiState, _fd: u32, _buf: WasmPtr<u8, Array>) -> (r: Errno)
    ensures
        r == Error::NotImplemented.spec_errno(),
{
    Error::NotImplemented.errno()
}

/// Truncates or extends an open file. No host logic stands behind this call yet: the guest is told so.
pub fn fd_filestat_set_size(_state: &WasiState, _fd: u32, _st_size: u64) -> (r: Errno)
    ensures
        r == Error::NotImplemented.spec_errno(),
{
    Error::NotImplemented.errno()
}

/// Changes the timestamps of an open file. No host logic stands behind this call yet: the guest is told so.
pub fn fd_filestat_set_times(_state: &WasiState, _fd: u32, _st_atim: u64, _st_mtim: u64, _fst_flags: u16) -> (r: Errno)
    ensures
        r == Error::NotImplemented.spec_errno(),
{
    Error::NotImplemented.errno()
}

/// Reads from a file at an offset. No host logic stands behind this call yet: the guest is told so.
pub fn fd_pread(_state: &WasiState, _fd: u32, _iovs: WasmPtr<u8, Array>, _iovs_len: u32, _offset: u64, _nread: WasmPtr<u32>) -> (r: Errno)
    ensures
        r == Error::NotImplemented.spec_errno(),
{
    Error::NotImplemented.errno()
}

/// Writes to a file at an offset. No host logic stands behind this call yet: the guest is told so.
pub fn fd_pwrite(_state: &WasiState, _fd: u32, _iovs: WasmPtr<u8, Array>, _iovs_len: u32, _offset: u64, _nwritten: WasmPtr<u32>) -> (r: Errno)
    ensures
        r == Error::NotImplemented.spec_errno(),
{
    Error::NotImplemented.errno()
}

/// Reads from a descriptor. No host logic stands behind this call yet: the guest is told so.
pub fn fd_read(_state: &WasiState) -> (r: Errno)
    ensures
        r == Error::NotImplemented.spec_errno(),
{
    Error::NotImplemented.errno()
}

/// Reads directory entries. No host logic stands behind this call yet: the guest is told so.
pub fn fd_readdir(_state: &WasiState) -> (r: Errno)
    ensures
        r == Error::NotImplemented.spec_errno(),
{
    Error::NotImplemented.errno()
}

/// Moves a descriptor to another number. No host logic stands behind this call yet: the guest is told so.
pub fn fd_renumber(_state: &WasiState) -> (r: Errno)
    ensures
        r == Error::NotImplemented.spec_errno(),
{
    Error::NotImplemented.errno()
}

/// Moves the offset of a descriptor. No host logic stands behind this call yet: the guest is told so.
pub fn fd_seek(_state: &WasiState) -> (r: Errno)
    ensures
        r == Error::NotImplemented.spec_errno(),
{
    Error::NotImplemented.errno()
}

/// Flushes the data and metadata of a file. No host logic stands behind this call yet: the guest is told so.
pub fn fd_sync(_state: &WasiState) -> (r: Errno)
    ensures
        r == Error::NotImplemented.spec_errno(),
{
    Error::NotImplemented.errno()
}

/// Reads the offset of a descriptor. No host logic stands behind this call yet: the guest is told so.
pub fn fd_tell(_state: &WasiState) -> (r: Errno)
    ensures
        r == Error::NotImplemented.spec_errno(),
{
    Error::NotImplemented.errno()
}

/// Writes to a descriptor. No host logic stands behind this call yet: the guest is told so.
pub fn fd_write(_state: &WasiState) -> (r: Errno)
    ensures
        r == Error::NotImplemented.spec_errno(),
{
    Error::NotImplemented.errno()
}

/// Creates a directory. No host logic stands behind this call yet: the guest is told so.
pub fn path_create_directory(_state: &WasiState) -> (r: Errno)
    ensures
        r == Error::NotImplemented.spec_errno(),
{
    Error::NotImplemented.errno()
}

/// Reads the attributes of a path. No host logic stands behind this call yet: the guest is told so.
pub fn path_filestat_get(_state: &WasiState) -> (r: Errno)
    ensures
        r == Error::NotImplemented.spec_errno(),
{
    Error::NotImplemented.errno()
}

/// Changes the timestamps of a path. No host logic stands behind this call yet: the guest is told so.
pub fn path_filestat_set_times(_state: &WasiState) -> (r: Errno)
    ensures
        r == Error::NotImplemented.spec_errno(),
{
    Error::NotImplemented.errno()
}

/// Creates a hard link. No host logic stands behind this call yet: the guest is told so.
pub fn path_link(_state: &WasiState) -> (r: Errno)
    ensures
        r == Error::NotImplemented.spec_errno(),
{
    Error::NotImplemented.errno()
}

/// Reads a symbolic link. No host logic stands behind this call yet: the guest is told so.
pub fn path_readlink(_state: &WasiState) -> (r: Errno)
    ensures
        r == Error::NotImplemented.spec_errno(),
{
    Error::NotImplemented.errno()
}

/// Removes a directory. No host logic stands behind this call yet: the guest is told so.
pub fn path_remove_directory(_state: &WasiState) -> (r: Errno)
    ensures
        r == Error::NotImplemented.spec_errno(),
{
    Error::NotImplemented.errno()
}

/// Renames a path. No host logic stands behind this call yet: the guest is told so.
pub fn path_rename(_state: &WasiState) -> (r: Errno)
    ensures
        r == Error::NotImplemented.spec_errno(),
{
    Error::NotImplemented.errno()
}

/// Creates a symbolic link. No host logic stands behind this call yet: the guest is told so.
pub fn path_symlink(_state: &WasiState) -> (r: Errno)
    ensures
        r == Error::NotImplemented.spec_errno(),
{
    Error::NotImplemented.errno()
}

/// Removes a file. No host logic stands behind this call yet: the guest is told so.
pub fn path_unlink_file(_state: &WasiState) -> (r: Errno)
    ensures
        r == Error::NotImplemented.spec_errno(),
{
    Error::NotImplemented.errno()
}

/// Waits for events. No host logic stands behind this call yet: the guest is told so.
pub fn poll_oneoff(_state: &WasiState) -> (r: Errno)
    ensures
        r == Error::NotImplemented.spec_errno(),
{
    Error::NotImplemented.errno()
}

/// Ends the instance. No host logic stands behind this call yet: the guest is told so.
pub fn proc_exit(_state: &WasiState) -> (r: Errno)
    ensures
        r == Error::NotImplemented.spec_errno(),
{
    Error::NotImplemented.errno()
}

/// Sends a signal to the instance. No host logic stands behind this call yet: the guest is told so.
pub fn proc_raise(_state: &WasiState) -> (r: Errno)
    ensures
        r == Error::NotImplemented.spec_errno(),
{
    Error::NotImplemented.errno()
}

/// Fills a buffer with random bytes. No host logic stands behind this call yet: the guest is told so.
pub fn random_get(_state: &WasiState) -> (r: Errno)
    ensures
        r == Error::NotImplemented.spec_errno(),
{
    Error::NotImplemented.errno()
}

/// Yields the processor. No host logic stands behind this call yet: the guest is told so.
pub fn sched_yield(_state: &WasiState) -> (r: Errno)
    ensures
        r == Error::NotImplemented.spec_errno(),
{
    Error::NotImplemented.errno()
}

/// Receives from a socket. No host logic stands behind this call yet: the guest is told so.
pub fn sock_recv(_state: &WasiState) -> (r: Errno)
    ensures
        r == Error::NotImplemented.spec_errno(),
{
    Error::NotImplemented.errno()
}

/// Sends on a socket. No host logic stands behind this call yet: the guest is told so.
pub fn sock_send(_state: &WasiState) -> (r: Errno)
    ensures
        r == Error::NotImplemented.spec_errno(),
{
    Error::NotImplemented.errno()
}

/// Shuts a socket down. No host logic stands behind this call yet: the guest is told so.
pub fn sock_shutdown(_state: &WasiState) -> (r: Errno)
    ensures
        r == Error::NotImplemented.spec_errno(),
{
    Error::NotImplemented.errno()
}

/// Guest file type code of a resource kind.
pub open spec fn spec_filetype(kind: ResourceKind) -> u8 {
    match kind {
        ResourceKind::Stdio => 2,
        ResourceKind::Directory => 3,
        ResourceKind::Preopen => 3,
        ResourceKind::RegularFile => 4,
        ResourceKind::Socket => 6,
    }
}

/// Fdstat record of `e`: file type, padding, no flags, padding, then the two
/// rights sets.
pub open spec fn fdstat_bytes(e: FdEntry) -> Seq<u8> {
    seq![spec_filetype(e.kind), 0u8, 0u8, 0u8, 0u8, 0u8, 0u8, 0u8] + le_u64(e.rights_base) + le_u64(
        e.rights_inheriting,
    )
}

/// Writes the fdstat record of `fd` to the 24 bytes at `buf`.
pub fn fd_fdstat_get(state: &WasiState, memory: &mut MemoryView, fd: u32, buf: WasmPtr<u8, Array>) -> (r: Errno)
    ensures
        !state.spec_fds().is_open(fd) ==> r == Error::BadFileDescriptor.spec_errno(),
        state.spec_fds().is_open(fd) && buf@ + 24 > old(memory)@.len() ==> r == Error::OutOfBounds.spec_errno(),
        state.spec_fds().is_open(fd) && buf@ + 24 <= old(memory)@.len() ==> r == ESUCCESS
            && final(memory)@ == splice(old(memory)@, buf@ as int, fdstat_bytes(state.spec_fds().entry(fd))),
        r != ESUCCESS ==> final(memory)@ == old(memory)@,
{
    proof {
        broadcast use vstd::layout::layout_of_primitives;
    }
    let e = match state.fds().get(fd) {
        Ok(e) => e,
        Err(err) => return err.errno(),
    };
    let run = match buf.deref(memory, 24) {
        Some(g) => g,
        None => return Error::OutOfBounds.errno(),
    };
    let filetype: u8 = match e.kind {
        ResourceKind::Stdio => 2,
        ResourceKind::Directory => 3,
        ResourceKind::Preopen => 3,
        ResourceKind::RegularFile => 4,
        ResourceKind::Socket => 6,
    };
    let mut record: Vec<u8> = vec![filetype, 0u8, 0u8, 0u8, 0u8, 0u8, 0u8, 0u8];
    let mut base = MemoryView::u64_bytes(e.rights_base);
    let mut inheriting = MemoryView::u64_bytes(e.rights_inheriting);
    record.append(&mut base);
    record.append(&mut inheriting);
    assert(record@ =~= fdstat_bytes(e));
    memory.write_bytes(run.start, record.as_slice());
    ESUCCESS
}

} // verus!

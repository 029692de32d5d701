use vstd::prelude::*;

use crate::buffers::{buf_size, total_size};
use crate::error::Error;
use crate::fd::{FdEntry, FdTable, ResourceKind};
use crate::rights::{
    within, Rights, RIGHT_FD_FDSTAT_SET_FLAGS, RIGHT_FD_FILESTAT_GET, RIGHT_FD_READ, RIGHT_FD_WRITE,
    RIGHT_POLL_FD_READWRITE,
};

verus! {

/// Base rights of the three standard streams.
pub const STDIO_RIGHTS: Rights = RIGHT_FD_READ | RIGHT_FD_WRITE | RIGHT_FD_FDSTAT_SET_FLAGS
    | RIGHT_FD_FILESTAT_GET | RIGHT_POLL_FD_READWRITE;

/// Everything one guest instance owns on the host side: its arguments and
/// environment, fixed at creation, its descriptor table and the path of each
/// preopened directory.
pub struct WasiState {
    args: Vec<Vec<u8>>,
    envs: Vec<Vec<u8>>,
    fds: FdTable,
    preopen_paths: Vec<Vec<u8>>,
}

/// A list of strings whose count and buffer size a 32-bit guest can hold.
pub open spec fn fits_guest(s: Seq<Seq<u8>>) -> bool {
    s.len() <= u32::MAX && buf_size(s) <= u32::MAX
}

impl WasiState {
    pub closed spec fn spec_args(&self) -> Seq<Seq<u8>> {
        self.args.deep_view()
    }

    pub closed spec fn spec_envs(&self) -> Seq<Seq<u8>> {
        self.envs.deep_view()
    }

    pub closed spec fn spec_fds(&self) -> FdTable {
        self.fds
    }

    pub closed spec fn spec_preopen_paths(&self) -> Seq<Seq<u8>> {
        self.preopen_paths.deep_view()
    }

    /// The state's invariant: arguments and environment fit a 32-bit guest,
    /// and every preopen entry names a recorded path.
    pub open spec fn wf(&self) -> bool {
        &&& fits_guest(self.spec_args())
        &&& fits_guest(self.spec_envs())
        &&& forall|i: int|
            0 <= i < self.spec_preopen_paths().len() ==> #[trigger] self.spec_preopen_paths()[i].len()
                <= u32::MAX
        &&& forall|fd: u32|
            #![trigger self.spec_fds().entry(fd)]
            self.spec_fds().is_open(fd) && self.spec_fds().entry(fd).kind == ResourceKind::Preopen
                ==> self.spec_fds().entry(fd).host < self.spec_preopen_paths().len()
    }

    /// A fresh state with `args` and `envs`, and the standard streams open as
    /// descriptors 0, 1 and 2. `None` when either list is too large for a
    /// 32-bit guest.
    pub fn new(args: Vec<Vec<u8>>, envs: Vec<Vec<u8>>) -> (r: Option<WasiState>)
        ensures
            r is Some <==> fits_guest(args.deep_view()) && fits_guest(envs.deep_view()),
            r matches Some(st) ==> {
                &&& st.wf()
                &&& st.spec_args() == args.deep_view()
                &&& st.spec_envs() == envs.deep_view()
                &&& st.spec_preopen_paths().len() == 0
                &&& st.spec_fds()@ == seq![
                    Some(stdio_entry(0)),
                    Some(stdio_entry(1)),
                    Some(stdio_entry(2)),
                ]
            },
    {
        if args.len() > u32::MAX as usize || envs.len() > u32::MAX as usize {
            return None;
        }
        if !fits_u32_total(&args) || !fits_u32_total(&envs) {
            return None;
        }
        let mut fds = FdTable::new();
        fds.open(FdEntry {
            kind: ResourceKind::Stdio,
            rights_base: STDIO_RIGHTS,
            rights_inheriting: 0,
            host: 0,
        });
        fds.open(FdEntry {
            kind: ResourceKind::Stdio,
            rights_base: STDIO_RIGHTS,
            rights_inheriting: 0,
            host: 1,
        });
        fds.open(FdEntry {
            kind: ResourceKind::Stdio,
            rights_base: STDIO_RIGHTS,
            rights_inheriting: 0,
            host: 2,
        });
        assert(fds@ =~= seq![Some(stdio_entry(0)), Some(stdio_entry(1)), Some(stdio_entry(2))]);
        let preopen_paths: Vec<Vec<u8>> = Vec::new();
        proof {
            assert(preopen_paths.deep_view() =~= Seq::<Seq<u8>>::empty());
        }
        Some(WasiState { args, envs, fds, preopen_paths })
    }

    /// Installs a preopened directory named `path` with the given initial
    /// rights and returns its descriptor.
    pub fn add_preopen(&mut self, path: Vec<u8>, rights_base: Rights, rights_inheriting: Rights) -> (fd: u32)
        requires
            old(self).wf(),
            old(self).spec_fds()@.len() < u32::MAX,
            path@.len() <= u32::MAX,
        ensures
            final(self).wf(),
            final(self).spec_args() == old(self).spec_args(),
            final(self).spec_envs() == old(self).spec_envs(),
            final(self).spec_preopen_paths() == old(self).spec_preopen_paths().push(path@),
            !old(self).spec_fds().is_open(fd),
            final(self).spec_fds().is_open(fd),
            final(self).spec_fds().entry(fd) == (FdEntry {
                kind: ResourceKind::Preopen,
                rights_base,
                rights_inheriting,
                host: old(self).spec_preopen_paths().len() as u64,
            }),
            forall|g: u32|
                g != fd ==> final(self).spec_fds().is_open(g) == old(self).spec_fds().is_open(g)
                    && (old(self).spec_fds().is_open(g) ==> final(self).spec_fds().entry(g) == old(self).spec_fds().entry(g)),
    {
        let index = self.preopen_paths.len();
        let ghost old_paths = self.preopen_paths.deep_view();
        assert(path.deep_view() =~= path@);
        self.preopen_paths.push(path);
        proof {
            assert(self.preopen_paths.deep_view() =~= old_paths.push(path@));
        }
        let ghost before = self.fds@;
        let fd = self.fds.open(
            FdEntry { kind: ResourceKind::Preopen, rights_base, rights_inheriting, host: index as u64 },
        );
        proof {
            assert forall|g: u32| g != fd implies self.fds.is_open(g) == old(self).fds.is_open(g)
                && (old(self).fds.is_open(g) ==> self.fds.entry(g) == old(self).fds.entry(g)) by {
                assert(before == old(self).fds@);
                if (g as int) < before.len() {
                    assert(self.fds@[g as int] == before[g as int]);
                }
            }
            assert forall|g: u32|
                #![trigger self.spec_fds().entry(g)]
                self.spec_fds().is_open(g) && self.spec_fds().entry(g).kind == ResourceKind::Preopen
                    implies self.spec_fds().entry(g).host < self.spec_preopen_paths().len() by {
                if g != fd {
                    assert(old(self).spec_fds().entry(g) == self.spec_fds().entry(g));
                }
            }
        }
        fd
    }

    pub fn args(&self) -> (r: &Vec<Vec<u8>>)
        ensures
            r.deep_view() == self.spec_args(),
    {
        &self.args
    }

    pub fn envs(&self) -> (r: &Vec<Vec<u8>>)
        ensures
            r.deep_view() == self.spec_envs(),
    {
        &self.envs
    }

    /// Number of preopened directories installed so far.
    pub fn preopen_count(&self) -> (r: usize)
        ensures
            r == self.spec_preopen_paths().len(),
    {
        self.preopen_paths.len()
    }

    /// The path of preopened directory number `index`.
    pub fn preopen_path(&self, index: usize) -> (r: &Vec<u8>)
        requires
            index < self.spec_preopen_paths().len(),
        ensures
            r@ == self.spec_preopen_paths()[index as int],
    {
        let r = &self.preopen_paths[index];
        assert(r.deep_view() =~= r@);
        r
    }

    pub fn fds(&self) -> (r: &FdTable)
        ensures
            *r == self.spec_fds(),
    {
        &self.fds
    }

    /// Closes `fd`; see `FdTable::close`.
    pub fn close_fd(&mut self, fd: u32) -> (r: Result<(), Error>)
        requires
            old(self).wf(),
        ensures
            final(self).wf(),
            final(self).spec_args() == old(self).spec_args(),
            final(self).spec_envs() == old(self).spec_envs(),
            final(self).spec_preopen_paths() == old(self).spec_preopen_paths(),
            !old(self).spec_fds().is_open(fd) ==> r == Err::<(), Error>(Error::BadFileDescriptor)
                && final(self).spec_fds()@ == old(self).spec_fds()@,
            old(self).spec_fds().is_open(fd) ==> r == Ok::<(), Error>(()) && final(self).spec_fds()@ == old(self).spec_fds()@.update(fd as int, None),
    {
        let r = self.fds.close(fd);
        proof {
            assert(fits_guest(self.spec_args()));
            assert(fits_guest(self.spec_envs()));
            assert(self.spec_preopen_paths() == old(self).spec_preopen_paths());
            assert forall|g: u32|
                #![trigger self.spec_fds().entry(g)]
                self.spec_fds().is_open(g) && self.spec_fds().entry(g).kind == ResourceKind::Preopen
                    implies self.spec_fds().entry(g).host < self.spec_preopen_paths().len() by {
                assert(old(self).spec_fds().entry(g) == self.spec_fds().entry(g));
            }
        }
        r
    }

    /// Narrows the rights of `fd`; see `FdTable::narrow_rights`.
    pub fn narrow_fd_rights(&mut self, fd: u32, base: Rights, inheriting: Rights) -> (r: Result<
        (),
        Error,
    >)
        requires
            old(self).wf(),
        ensures
            final(self).wf(),
            final(self).spec_args() == old(self).spec_args(),
            final(self).spec_envs() == old(self).spec_envs(),
            final(self).spec_preopen_paths() == old(self).spec_preopen_paths(),
            !old(self).spec_fds().is_open(fd) ==> r == Err::<(), Error>(Error::BadFileDescriptor),
            old(self).spec_fds().is_open(fd) && !(within(base, old(self).spec_fds().entry(fd).rights_base)
                && within(inheriting, old(self).spec_fds().entry(fd).rights_inheriting)) ==> r == Err::<
                (),
                Error,
            >(Error::PermissionDenied),
            old(self).spec_fds().is_open(fd) && within(base, old(self).spec_fds().entry(fd).rights_base)
                && within(inheriting, old(self).spec_fds().entry(fd).rights_inheriting) ==> r is Ok,
            r is Err ==> final(self).spec_fds()@ == old(self).spec_fds()@,
            r is Ok ==> final(self).spec_fds()@ == old(self).spec_fds()@.update(
                fd as int,
                Some(
                    (FdEntry {
                        rights_base: base,
                        rights_inheriting: inheriting,
                        ..old(self).spec_fds().entry(fd)
                    }),
                ),
            ),
    {
        let r = self.fds.narrow_rights(fd, base, inheriting);
        proof {
            assert(fits_guest(self.spec_args()));
            assert(fits_guest(self.spec_envs()));
            assert(self.spec_preopen_paths() == old(self).spec_preopen_paths());
            assert forall|g: u32|
                #![trigger self.spec_fds().entry(g)]
                self.spec_fds().is_open(g) && self.spec_fds().entry(g).kind == ResourceKind::Preopen
                    implies self.spec_fds().entry(g).host < self.spec_preopen_paths().len() by {
                assert(old(self).spec_fds().entry(g).kind == self.spec_fds().entry(g).kind);
                assert(old(self).spec_fds().entry(g).host == self.spec_fds().entry(g).host);
            }
        }
        r
    }

    /// Registers a descriptor that is not a preopen; see `FdTable::open`.
    pub fn register(&mut self, entry: FdEntry) -> (fd: u32)
        requires
            old(self).wf(),
            old(self).spec_fds()@.len() < u32::MAX,
            entry.kind != ResourceKind::Preopen,
        ensures
            final(self).wf(),
            final(self).spec_args() == old(self).spec_args(),
            final(self).spec_envs() == old(self).spec_envs(),
            final(self).spec_preopen_paths() == old(self).spec_preopen_paths(),
            fd <= old(self).spec_fds()@.len(),
            forall|g: int| 0 <= g < fd ==> old(self).spec_fds()@[g] is Some,
            fd < old(self).spec_fds()@.len() ==> old(self).spec_fds()@[fd as int] is None && final(self).spec_fds()@ == old(self).spec_fds()@.update(fd as int, Some(entry)),
            fd == old(self).spec_fds()@.len() ==> final(self).spec_fds()@ == old(self).spec_fds()@.push(Some(entry)),
            final(self).spec_fds().is_open(fd),
            final(self).spec_fds().entry(fd) == entry,
    {
        let fd = self.fds.open(entry);
        proof {
            assert(fits_guest(self.spec_args()));
            assert(fits_guest(self.spec_envs()));
            assert(self.spec_preopen_paths() == old(self).spec_preopen_paths());
            assert forall|g: u32|
                #![trigger self.spec_fds().entry(g)]
                self.spec_fds().is_open(g) && self.spec_fds().entry(g).kind == ResourceKind::Preopen
                    implies self.spec_fds().entry(g).host < self.spec_preopen_paths().len() by {
                if g != fd {
                    assert(old(self).spec_fds().entry(g) == self.spec_fds().entry(g));
                }
            }
        }
        fd
    }
}

/// The entry of standard stream `n`.
pub open spec fn stdio_entry(n: u64) -> FdEntry {
    FdEntry { kind: ResourceKind::Stdio, rights_base: STDIO_RIGHTS, rights_inheriting: 0, host: n }
}

/// Whether the buffer size of `s` fits in 32 bits, without overflow.
fn fits_u32_total(s: &Vec<Vec<u8>>) -> (r: bool)
    ensures
        r == (buf_size(s.deep_view()) <= u32::MAX),
{
    let ghost v = s.deep_view();
    let mut total: u64 = 0;
    let mut i: usize = 0;
    while i < s.len()
        invariant
            v == s.deep_view(),
            i <= s@.len(),
            total == buf_size(v.take(i as int)),
            total <= u32::MAX,
        decreases s@.len() - i,
    {
        proof {
            assert(v.take(i + 1).drop_last() =~= v.take(i as int));
            crate::buffers::lemma_buf_size_prefix(v, i + 1, v.len() as int);
            assert(v.take(v.len() as int) =~= v);
        }
        if s[i].len() > u32::MAX as usize {
            return false;
        }
        let next: u64 = total + s[i].len() as u64 + 1;
        if next > u32::MAX as u64 {
            return false;
        }
        total = next;
        i = i + 1;
    }
    proof {
        assert(v.take(v.len() as int) =~= v);
    }
    true
}

} // verus!

use wasi_host::error::{Error, EBADF, EFAULT, ENOSYS, ENOTCAPABLE, ESUCCESS};
use wasi_host::fd::{FdEntry, FdTable, ResourceKind};
use wasi_host::memory::MemoryView;
use wasi_host::ptr::{Array, Item, WasmPtr};
use wasi_host::rights::{
    intersect, is_subset, RIGHTS_ALL, RIGHT_FD_READ, RIGHT_FD_SEEK, RIGHT_FD_WRITE, RIGHT_PATH_OPEN,
};
use wasi_host::state::{WasiState, STDIO_RIGHTS};
use wasi_host::syscalls::{
    args_get, args_sizes_get, clock_time_get, environ_get, environ_sizes_get, fd_close,
    fd_fdstat_get, fd_fdstat_set_rights, fd_prestat_dir_name, fd_prestat_get, path_open, path_open_rights,
    proc_exit, sock_send,
};

fn u32_at(mem: &MemoryView, at: usize) -> u32 {
    let b = mem.as_bytes();
    u32::from_le_bytes([b[at], b[at + 1], b[at + 2], b[at + 3]])
}

fn strings(list: &[&str]) -> Vec<Vec<u8>> {
    list.iter().map(|s| s.as_bytes().to_vec()).collect()
}

fn dir_entry(base: u64, inheriting: u64) -> FdEntry {
    FdEntry { kind: ResourceKind::Directory, rights_base: base, rights_inheriting: inheriting, host: 9 }
}

#[test]
fn item_past_end_of_64k_memory_fails() {
    let mem = MemoryView::new(65536);
    let wide: WasmPtr<u32> = WasmPtr::new(65536 - 2);
    assert_eq!(wide.deref(&mem), None);
    let byte: WasmPtr<u8> = WasmPtr::new(65535);
    let run = byte.deref(&mem).unwrap();
    assert_eq!(run.start, 65535);
    assert_eq!(run.len, 1);
}

#[test]
fn item_ending_exactly_at_memory_end_succeeds() {
    let mem = MemoryView::new(16);
    let p: WasmPtr<u32, Item> = WasmPtr::new(12);
    assert!(p.deref(&mem).is_some());
    let q: WasmPtr<u32, Item> = WasmPtr::new(13);
    assert!(q.deref(&mem).is_none());
}

#[test]
fn item_offset_near_u32_max_does_not_wrap() {
    let mem = MemoryView::new(64);
    let p: WasmPtr<u64> = WasmPtr::new(u32::MAX - 3);
    assert!(p.deref(&mem).is_none());
}

#[test]
fn array_bounds_and_empty_runs() {
    let mem = MemoryView::new(100);
    let p: WasmPtr<u32, Array> = WasmPtr::new(60);
    assert_eq!(p.deref(&mem, 10).unwrap().len, 40);
    assert!(p.deref(&mem, 11).is_none());
    let empty = p.deref(&mem, 0).unwrap();
    assert_eq!(empty.start, 60);
    assert_eq!(empty.len, 0);
    let at_end: WasmPtr<u32, Array> = WasmPtr::new(100);
    assert!(at_end.deref(&mem, 0).is_some());
    let huge: WasmPtr<u64, Array> = WasmPtr::new(8);
    assert!(huge.deref(&mem, u32::MAX).is_none());
}

#[test]
fn pointer_equality_is_by_offset() {
    let a: WasmPtr<u8> = WasmPtr::new(7);
    let b: WasmPtr<u8> = WasmPtr::new(7);
    let c: WasmPtr<u8> = WasmPtr::new(8);
    assert!(a == b);
    assert!(a != c);
    assert_eq!(a.offset(), 7);
}

#[test]
fn args_scenario_prog_a_bb() {
    let state = WasiState::new(strings(&["prog", "a", "bb"]), vec![]).unwrap();
    let mut mem = MemoryView::new(256);
    assert_eq!(args_sizes_get(&state, &mut mem, WasmPtr::new(0), WasmPtr::new(4)), ESUCCESS);
    assert_eq!(u32_at(&mem, 0), 3);
    assert_eq!(u32_at(&mem, 4), 10);
    let base = 100u32;
    assert_eq!(args_get(&state, &mut mem, WasmPtr::new(32), WasmPtr::new(base)), ESUCCESS);
    assert_eq!(u32_at(&mem, 32), base);
    assert_eq!(u32_at(&mem, 36), base + 5);
    assert_eq!(u32_at(&mem, 40), base + 7);
    assert_eq!(&mem.as_bytes()[100..110], b"prog\0a\0bb\0");
    assert_eq!(mem.as_bytes()[110], 0);
    assert_eq!(mem.as_bytes()[44], 0);
}

#[test]
fn reported_size_matches_bytes_written() {
    let state = WasiState::new(strings(&["x", "", "hello"]), vec![]).unwrap();
    let mut mem = MemoryView::new(128);
    assert_eq!(args_sizes_get(&state, &mut mem, WasmPtr::new(0), WasmPtr::new(4)), ESUCCESS);
    let size = u32_at(&mem, 4) as usize;
    assert_eq!(size, 2 + 1 + 6);
    let mut fresh = MemoryView::from_bytes(vec![0xaa; 128]);
    assert_eq!(args_get(&state, &mut fresh, WasmPtr::new(8), WasmPtr::new(40)), ESUCCESS);
    let written = fresh.as_bytes()[40..].iter().take_while(|b| **b != 0xaa).count();
    assert_eq!(written, size);
    let off_first = u32_at(&fresh, 8);
    let off_second = u32_at(&fresh, 12);
    let off_third = u32_at(&fresh, 16);
    assert!(off_first < off_second && off_second < off_third);
    assert_eq!((off_first, off_second, off_third), (40, 42, 43));
}

#[test]
fn args_get_into_short_buffer_writes_nothing() {
    let state = WasiState::new(strings(&["prog", "a", "bb"]), vec![]).unwrap();
    let mut mem = MemoryView::new(64);
    assert_eq!(args_get(&state, &mut mem, WasmPtr::new(0), WasmPtr::new(55)), EFAULT);
    assert!(mem.as_bytes().iter().all(|b| *b == 0));
    assert_eq!(args_get(&state, &mut mem, WasmPtr::new(60), WasmPtr::new(20)), EFAULT);
    assert!(mem.as_bytes().iter().all(|b| *b == 0));
}

#[test]
fn sizes_get_out_of_bounds_writes_nothing() {
    let state = WasiState::new(strings(&["a"]), vec![]).unwrap();
    let mut mem = MemoryView::new(8);
    assert_eq!(args_sizes_get(&state, &mut mem, WasmPtr::new(0), WasmPtr::new(5)), EFAULT);
    assert!(mem.as_bytes().iter().all(|b| *b == 0));
}

#[test]
fn environment_calls_use_environment() {
    let state = WasiState::new(strings(&["prog"]), strings(&["A=1", "HOME=/"])).unwrap();
    let mut mem = MemoryView::new(128);
    assert_eq!(environ_sizes_get(&state, &mut mem, WasmPtr::new(0), WasmPtr::new(4)), ESUCCESS);
    assert_eq!(u32_at(&mem, 0), 2);
    assert_eq!(u32_at(&mem, 4), 11);
    assert_eq!(environ_get(&state, &mut mem, WasmPtr::new(16), WasmPtr::new(64)), ESUCCESS);
    assert_eq!(u32_at(&mem, 16), 64);
    assert_eq!(u32_at(&mem, 20), 68);
    assert_eq!(&mem.as_bytes()[64..75], b"A=1\0HOME=/\0");
}

#[test]
fn empty_argument_list() {
    let state = WasiState::new(vec![], vec![]).unwrap();
    let mut mem = MemoryView::new(8);
    assert_eq!(args_sizes_get(&state, &mut mem, WasmPtr::new(0), WasmPtr::new(4)), ESUCCESS);
    assert_eq!(u32_at(&mem, 0), 0);
    assert_eq!(u32_at(&mem, 4), 0);
    assert_eq!(args_get(&state, &mut mem, WasmPtr::new(8), WasmPtr::new(8)), ESUCCESS);
}

#[test]
fn new_state_opens_standard_streams() {
    let state = WasiState::new(vec![], vec![]).unwrap();
    let fds = state.fds();
    assert_eq!(fds.slot_count(), 3);
    for fd in 0..3u32 {
        let e = fds.get(fd).unwrap();
        assert_eq!(e.kind, ResourceKind::Stdio);
        assert_eq!(e.rights_base, STDIO_RIGHTS);
    }
    assert_eq!(fds.get(3), Err(Error::BadFileDescriptor));
}

#[test]
fn narrowing_only_narrows() {
    let mut state = WasiState::new(vec![], vec![]).unwrap();
    let fd = state.add_preopen(b"/sandbox".to_vec(), RIGHT_FD_READ | RIGHT_FD_WRITE, RIGHT_FD_READ);
    assert_eq!(fd_fdstat_set_rights(&mut state, fd, RIGHT_FD_READ, RIGHT_FD_READ), ESUCCESS);
    assert_eq!(fd_fdstat_set_rights(&mut state, fd, RIGHT_FD_READ | RIGHT_FD_WRITE, 0), ENOTCAPABLE);
    let e = state.fds().get(fd).unwrap();
    assert_eq!(e.rights_base, RIGHT_FD_READ);
    assert_eq!(e.rights_inheriting, RIGHT_FD_READ);
    assert_eq!(fd_fdstat_set_rights(&mut state, fd, 0, 0), ESUCCESS);
    assert_eq!(fd_fdstat_set_rights(&mut state, fd, RIGHT_FD_READ, 0), ENOTCAPABLE);
    assert_eq!(state.fds().get(fd).unwrap().rights_base, 0);
    assert_eq!(fd_fdstat_set_rights(&mut state, 40, 0, 0), EBADF);
}

#[test]
fn table_narrow_rights_errors() {
    let mut table = FdTable::new();
    let fd = table.open(dir_entry(RIGHT_FD_SEEK, 0));
    assert_eq!(table.narrow_rights(fd + 1, 0, 0), Err(Error::BadFileDescriptor));
    assert_eq!(table.narrow_rights(fd, RIGHT_FD_READ, 0), Err(Error::PermissionDenied));
    assert_eq!(table.get(fd).unwrap().rights_base, RIGHT_FD_SEEK);
}

#[test]
fn derived_rights_are_cut_to_parent_inheriting() {
    let mut table = FdTable::new();
    let parent = table.open(dir_entry(RIGHT_PATH_OPEN, RIGHT_FD_READ | RIGHT_FD_SEEK));
    assert_eq!(table.derive_under(parent, RIGHTS_ALL), Ok(RIGHT_FD_READ | RIGHT_FD_SEEK));
    assert_eq!(table.derive_under(parent, RIGHT_FD_WRITE | RIGHT_FD_READ), Ok(RIGHT_FD_READ));
    assert_eq!(table.derive_under(parent + 5, RIGHT_FD_READ), Err(Error::BadFileDescriptor));
}

#[test]
fn path_open_registers_entry_with_inherited_rights() {
    let mut state = WasiState::new(vec![], vec![]).unwrap();
    let dir = state.add_preopen(b"/data".to_vec(), RIGHT_PATH_OPEN, RIGHT_FD_READ | RIGHT_FD_SEEK);
    let mut mem = MemoryView::new(64);
    assert_eq!(
        path_open_rights(&state, dir, RIGHTS_ALL, RIGHT_FD_WRITE | RIGHT_FD_SEEK),
        Ok((RIGHT_FD_READ | RIGHT_FD_SEEK, RIGHT_FD_SEEK))
    );
    let r = path_open(
        &mut state,
        &mut mem,
        dir,
        RIGHTS_ALL,
        RIGHT_FD_WRITE,
        Ok((ResourceKind::RegularFile, 77)),
        WasmPtr::new(0),
    );
    assert_eq!(r, ESUCCESS);
    let fd = u32_at(&mem, 0);
    assert_eq!(fd, dir + 1);
    let e = state.fds().get(fd).unwrap();
    assert_eq!(e.kind, ResourceKind::RegularFile);
    assert_eq!(e.host, 77);
    assert_eq!(e.rights_base, RIGHT_FD_READ | RIGHT_FD_SEEK);
    assert_eq!(e.rights_inheriting, 0);
}

#[test]
fn path_open_failures() {
    let mut state = WasiState::new(vec![], vec![]).unwrap();
    let dir = state.add_preopen(b"/d".to_vec(), RIGHT_FD_READ, RIGHTS_ALL);
    let mut mem = MemoryView::new(8);
    let opened = Ok((ResourceKind::RegularFile, 1));
    assert_eq!(path_open(&mut state, &mut mem, dir, 0, 0, opened, WasmPtr::new(0)), ENOTCAPABLE);
    assert_eq!(path_open(&mut state, &mut mem, 99, 0, 0, opened, WasmPtr::new(0)), EBADF);
    let dir2 = state.add_preopen(b"/e".to_vec(), RIGHT_PATH_OPEN, RIGHTS_ALL);
    assert_eq!(path_open(&mut state, &mut mem, dir2, 0, 0, opened, WasmPtr::new(6)), EFAULT);
    assert_eq!(
        path_open(&mut state, &mut mem, dir2, 0, 0, Err(Error::NotFound), WasmPtr::new(0)),
        44
    );
    assert_eq!(state.fds().slot_count(), 5);
    assert!(mem.as_bytes().iter().all(|b| *b == 0));
}

#[test]
fn closed_number_reused_with_fresh_rights() {
    let mut state = WasiState::new(vec![], vec![]).unwrap();
    let dir = state.add_preopen(b"/d".to_vec(), RIGHT_PATH_OPEN, RIGHTS_ALL);
    let mut mem = MemoryView::new(8);
    let opened = Ok((ResourceKind::RegularFile, 5));
    assert_eq!(path_open(&mut state, &mut mem, dir, RIGHTS_ALL, RIGHTS_ALL, opened, WasmPtr::new(0)), ESUCCESS);
    let first = u32_at(&mem, 0);
    assert_eq!(fd_close(&mut state, first), ESUCCESS);
    assert_eq!(fd_close(&mut state, first), EBADF);
    let opened = Ok((ResourceKind::RegularFile, 6));
    assert_eq!(path_open(&mut state, &mut mem, dir, RIGHT_FD_READ, 0, opened, WasmPtr::new(4)), ESUCCESS);
    let second = u32_at(&mem, 4);
    assert_eq!(second, first);
    let e = state.fds().get(second).unwrap();
    assert_eq!(e.rights_base, RIGHT_FD_READ);
    assert_eq!(e.rights_inheriting, 0);
    assert_eq!(e.host, 6);
}

#[test]
fn prestat_of_preopen() {
    let mut state = WasiState::new(vec![], vec![]).unwrap();
    let dir = state.add_preopen(b"/sandbox".to_vec(), RIGHTS_ALL, RIGHTS_ALL);
    let mut mem = MemoryView::new(32);
    assert_eq!(fd_prestat_get(&state, &mut mem, dir, WasmPtr::new(0)), ESUCCESS);
    assert_eq!(&mem.as_bytes()[0..4], &[0, 0, 0, 0]);
    assert_eq!(u32_at(&mem, 4), 8);
    assert_eq!(fd_prestat_dir_name(&state, &mut mem, dir, WasmPtr::new(16), 8), ESUCCESS);
    assert_eq!(&mem.as_bytes()[16..24], b"/sandbox");
    assert_eq!(fd_prestat_dir_name(&state, &mut mem, dir, WasmPtr::new(16), 7), EFAULT);
    assert_eq!(fd_prestat_get(&state, &mut mem, dir, WasmPtr::new(28)), EFAULT);
    assert_eq!(fd_prestat_get(&state, &mut mem, 1, WasmPtr::new(0)), EBADF);
    assert_eq!(fd_prestat_dir_name(&state, &mut mem, 12, WasmPtr::new(0), 8), EBADF);
}

#[test]
fn unimplemented_calls_report_enosys() {
    let state = WasiState::new(vec![], vec![]).unwrap();
    assert_eq!(clock_time_get(&state, 0, 0, WasmPtr::new(0)), ENOSYS);
    assert_eq!(sock_send(&state), ENOSYS);
    assert_eq!(proc_exit(&state), ENOSYS);
}

#[test]
fn error_codes() {
    assert_eq!(Error::OutOfBounds.errno(), EFAULT);
    assert_eq!(Error::BadFileDescriptor.errno(), EBADF);
    assert_eq!(Error::PermissionDenied.errno(), ENOTCAPABLE);
    assert_eq!(Error::NotFound.errno(), 44);
    assert_eq!(Error::NotImplemented.errno(), ENOSYS);
    assert_eq!(Error::Io(5).errno(), 5);
    assert_eq!(Error::Io(0).errno(), 29);
}

#[test]
fn rights_helpers() {
    assert!(is_subset(RIGHT_FD_READ, RIGHT_FD_READ | RIGHT_FD_WRITE));
    assert!(!is_subset(RIGHT_FD_READ | RIGHT_FD_SEEK, RIGHT_FD_READ | RIGHT_FD_WRITE));
    assert_eq!(intersect(RIGHT_FD_READ | RIGHT_FD_SEEK, RIGHT_FD_READ | RIGHT_FD_WRITE), RIGHT_FD_READ);
}

#[test]
fn memory_grow_and_write() {
    let mut mem = MemoryView::new(4);
    assert!(mem.grow(4));
    assert_eq!(mem.byte_length(), 8);
    mem.write_u32(4, 0x0403_0201);
    assert_eq!(mem.as_bytes(), &[0, 0, 0, 0, 1, 2, 3, 4]);
    assert_eq!(mem.read_u8(7), 4);
    assert!(!mem.grow(usize::MAX));
    assert_eq!(mem.byte_length(), 8);
    let p: WasmPtr<u32> = WasmPtr::new(8);
    assert!(p.deref(&mem).is_none());
    assert!(mem.grow(4));
    assert!(p.deref(&mem).is_some());
}

#[test]
fn fdstat_reports_current_rights() {
    let mut state = WasiState::new(vec![], vec![]).unwrap();
    let dir = state.add_preopen(b"/d".to_vec(), RIGHT_PATH_OPEN | RIGHT_FD_READ, RIGHT_FD_SEEK);
    assert_eq!(fd_fdstat_set_rights(&mut state, dir, RIGHT_PATH_OPEN, RIGHT_FD_SEEK), ESUCCESS);
    let mut mem = MemoryView::from_bytes(vec![0xff; 40]);
    assert_eq!(fd_fdstat_get(&state, &mut mem, dir, WasmPtr::new(8)), ESUCCESS);
    let b = mem.as_bytes();
    assert_eq!(&b[8..16], &[3, 0, 0, 0, 0, 0, 0, 0]);
    assert_eq!(u64::from_le_bytes(b[16..24].try_into().unwrap()), RIGHT_PATH_OPEN);
    assert_eq!(u64::from_le_bytes(b[24..32].try_into().unwrap()), RIGHT_FD_SEEK);
    assert_eq!(b[7], 0xff);
    assert_eq!(b[32], 0xff);
    assert_eq!(fd_fdstat_get(&state, &mut mem, 1, WasmPtr::new(0)), ESUCCESS);
    assert_eq!(mem.as_bytes()[0], 2);
    assert_eq!(u64::from_le_bytes(mem.as_bytes()[8..16].try_into().unwrap()), STDIO_RIGHTS);
    assert_eq!(fd_fdstat_get(&state, &mut mem, dir, WasmPtr::new(17)), EFAULT);
    assert_eq!(fd_fdstat_get(&state, &mut mem, 50, WasmPtr::new(0)), EBADF);
}

use vstd::prelude::*;

verus! {

/// A set of capabilities, one bit each.
pub type Rights = u64;

pub const RIGHT_FD_DATASYNC: Rights = 0x1;
pub const RIGHT_FD_READ: Rights = 0x2;
pub const RIGHT_FD_SEEK: Rights = 0x4;
pub const RIGHT_FD_FDSTAT_SET_FLAGS: Rights = 0x8;
pub const RIGHT_FD_SYNC: Rights = 0x10;
pub const RIGHT_FD_TELL: Rights = 0x20;
pub const RIGHT_FD_WRITE: Rights = 0x40;
pub const RIGHT_FD_ADVISE: Rights = 0x80;
pub const RIGHT_FD_ALLOCATE: Rights = 0x100;
pub const RIGHT_PATH_CREATE_DIRECTORY: Rights = 0x200;
pub const RIGHT_PATH_CREATE_FILE: Rights = 0x400;
pub const RIGHT_PATH_LINK_SOURCE: Rights = 0x800;
pub const RIGHT_PATH_LINK_TARGET: Rights = 0x1000;
pub const RIGHT_PATH_OPEN: Rights = 0x2000;
pub const RIGHT_FD_READDIR: Rights = 0x4000;
pub const RIGHT_PATH_READLINK: Rights = 0x8000;
pub const RIGHT_PATH_RENAME_SOURCE: Rights = 0x10000;
pub const RIGHT_PATH_RENAME_TARGET: Rights = 0x20000;
pub const RIGHT_PATH_FILESTAT_GET: Rights = 0x40000;
pub const RIGHT_PATH_FILESTAT_SET_SIZE: Rights = 0x80000;
pub const RIGHT_PATH_FILESTAT_SET_TIMES: Rights = 0x100000;
pub const RIGHT_FD_FILESTAT_GET: Rights = 0x200000;
pub const RIGHT_FD_FILESTAT_SET_SIZE: Rights = 0x400000;
pub const RIGHT_FD_FILESTAT_SET_TIMES: Rights = 0x800000;
pub const RIGHT_PATH_SYMLINK: Rights = 0x1000000;
pub const RIGHT_PATH_REMOVE_DIRECTORY: Rights = 0x2000000;
pub const RIGHT_PATH_UNLINK_FILE: Rights = 0x4000000;
pub const RIGHT_POLL_FD_READWRITE: Rights = 0x8000000;
pub const RIGHT_SOCK_SHUTDOWN: Rights = 0x10000000;
/// Every right defined above.
pub const RIGHTS_ALL: Rights = 0x1fffffff;

/// Every right in `a` is also in `b`.
pub open spec fn within(a: Rights, b: Rights) -> bool {
    a & b == a
}

pub fn is_subset(a: Rights, b: Rights) -> (r: bool)
    ensures
        r == within(a, b),
{
    a & b == a
}

/// The rights held by both `a` and `b`.
pub fn intersect(a: Rights, b: Rights) -> (r: Rights)
    ensures
        r == a & b,
        within(r, a),
        within(r, b),
{
    proof {
        lemma_intersect_within(a, b);
    }
    a & b
}

/// An intersection lies within both of its sides.
pub proof fn lemma_intersect_within(a: Rights, b: Rights)
    ensures
        within(a & b, a),
        within(a & b, b),
{
    assert((a & b) & a == a & b && (a & b) & b == a & b) by (bit_vector);
}

/// Every set lies within itself.
pub proof fn lemma_within_refl(a: Rights)
    ensures
        within(a, a),
{
    assert(a & a == a) by (bit_vector);
}

/// Lying within is transitive.
pub proof fn lemma_within_trans(a: Rights, b: Rights, c: Rights)
    requires
        within(a, b),
        within(b, c),
    ensures
        within(a, c),
{
    assert(a & b == a && b & c == b ==> a & c == a) by (bit_vector);
}

} // verus!

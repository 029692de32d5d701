use vstd::prelude::*;

use crate::error::Error;
use crate::rights::{intersect, is_subset, within, Rights};

verus! {

/// What a descriptor refers to.
#[derive(Clone, Copy, Debug, PartialEq, Eq, Structural)]
pub enum ResourceKind {
    Stdio,
    RegularFile,
    Directory,
    Preopen,
    Socket,
}

/// One live descriptor.
#[derive(Clone, Copy, Debug, PartialEq, Eq, Structural)]
pub struct FdEntry {
    pub kind: ResourceKind,
    /// Rights that operations on this descriptor may use.
    pub rights_base: Rights,
    /// Rights that descriptors opened through this one may receive.
    pub rights_inheriting: Rights,
    /// Opaque handle of the host resource behind the descriptor.
    pub host: u64,
}

/// The descriptor table: slot `fd` holds the entry of descriptor `fd`, or
/// nothing when that number is free.
pub struct FdTable {
    slots: Vec<Option<FdEntry>>,
}

impl View for FdTable {
    type V = Seq<Option<FdEntry>>;

    closed spec fn view(&self) -> Seq<Option<FdEntry>> {
        self.slots@
    }
}

impl FdTable {
    pub open spec fn is_open(&self, fd: u32) -> bool {
        (fd as int) < self@.len() && self@[fd as int] is Some
    }

    pub open spec fn entry(&self, fd: u32) -> FdEntry {
        self@[fd as int]->Some_0
    }

    /// The table with no descriptor in it.
    pub fn new() -> (t: FdTable)
        ensures
            t@ == Seq::<Option<FdEntry>>::empty(),
    {
        FdTable { slots: Vec::new() }
    }

    /// Number of slots, free or taken.
    pub fn slot_count(&self) -> (r: usize)
        ensures
            r == self@.len(),
    {
        self.slots.len()
    }

    /// Registers `entry` under the lowest free number and returns it.
    pub fn open(&mut self, entry: FdEntry) -> (fd: u32)
        requires
            old(self)@.len() < u32::MAX,
        ensures
            fd <= old(self)@.len(),
            forall|g: int| 0 <= g < fd ==> old(self)@[g] is Some,
            fd < old(self)@.len() ==> old(self)@[fd as int] is None && final(self)@ == old(self)@.update(
                fd as int,
                Some(entry),
            ),
            fd == old(self)@.len() ==> final(self)@ == old(self)@.push(Some(entry)),
            final(self).is_open(fd),
            final(self).entry(fd) == entry,
    {
        let mut i: usize = 0;
        while i < self.slots.len()
            invariant
                i <= self.slots@.len(),
                self.slots@ == old(self)@,
                self.slots@.len() < u32::MAX,
                forall|g: int| 0 <= g < i ==> self.slots@[g] is Some,
            decreases self.slots@.len() - i,
        {
            if self.slots[i].is_none() {
                self.slots.set(i, Some(entry));
                return i as u32;
            }
            i = i + 1;
        }
        self.slots.push(Some(entry));
        i as u32
    }

    /// The entry of `fd`.
    pub fn get(&self, fd: u32) -> (r: Result<FdEntry, Error>)
        ensures
            self.is_open(fd) ==> r == Ok::<FdEntry, Error>(self.entry(fd)),
            !self.is_open(fd) ==> r == Err::<FdEntry, Error>(Error::BadFileDescriptor),
    {
        let i = fd as usize;
        if i >= self.slots.len() {
            return Err(Error::BadFileDescriptor);
        }
        match self.slots[i] {
            Some(e) => Ok(e),
            None => Err(Error::BadFileDescriptor),
        }
    }

    /// Replaces the rights of `fd` by `base` and `inheriting`, which must lie
    /// within the current ones; on failure nothing changes.
    pub fn narrow_rights(&mut self, fd: u32, base: Rights, inheriting: Rights) -> (r: Result<
        (),
        Error,
    >)
        ensures
            !old(self).is_open(fd) ==> r == Err::<(), Error>(Error::BadFileDescriptor),
            old(self).is_open(fd) && !(within(base, old(self).entry(fd).rights_base) && within(
                inheriting,
                old(self).entry(fd).rights_inheriting,
            )) ==> r == Err::<(), Error>(Error::PermissionDenied),
            old(self).is_open(fd) && within(base, old(self).entry(fd).rights_base) && within(
                inheriting,
                old(self).entry(fd).rights_inheriting,
            ) ==> r is Ok,
            r is Err ==> final(self)@ == old(self)@,
            r is Ok ==> final(self)@ == old(self)@.update(
                fd as int,
                Some(
                    (FdEntry {
                        rights_base: base,
                        rights_inheriting: inheriting,
                        ..old(self).entry(fd)
                    }),
                ),
            ),
    {
        let e = match self.get(fd) {
            Ok(e) => e,
            Err(err) => return Err(err),
        };
        if !is_subset(base, e.rights_base) || !is_subset(inheriting, e.rights_inheriting) {
            return Err(Error::PermissionDenied);
        }
        self.slots.set(
            fd as usize,
            Some(FdEntry { rights_base: base, rights_inheriting: inheriting, ..e }),
        );
        Ok(())
    }

    /// Frees the number `fd`.
    pub fn close(&mut self, fd: u32) -> (r: Result<(), Error>)
        ensures
            !old(self).is_open(fd) ==> r == Err::<(), Error>(Error::BadFileDescriptor)
                && final(self)@ == old(self)@,
            old(self).is_open(fd) ==> r == Ok::<(), Error>(()) && final(self)@ == old(
                self,
            )@.update(fd as int, None),
    {
        match self.get(fd) {
            Ok(_) => {
                self.slots.set(fd as usize, None);
                Ok(())
            },
            Err(err) => Err(err),
        }
    }

    /// Base rights of a descriptor opened under `parent` that asked for
    /// `requested`: what `parent` may hand on, and nothing else.
    pub fn derive_under(&self, parent: u32, requested: Rights) -> (r: Result<Rights, Error>)
        ensures
            self.is_open(parent) ==> r == Ok::<Rights, Error>(
                requested & self.entry(parent).rights_inheriting,
            ),
            !self.is_open(parent) ==> r == Err::<Rights, Error>(Error::BadFileDescriptor),
            r matches Ok(b) ==> within(b, self.entry(parent).rights_inheriting) && within(
                b,
                requested,
            ),
    {
        match self.get(parent) {
            Ok(e) => Ok(intersect(requested, e.rights_inheriting)),
            Err(err) => Err(err),
        }
    }
}

} // verus!

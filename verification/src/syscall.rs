//! The facilities a target may offer, and the system calls that a creation
//! asks for.

use vstd::prelude::*;
use crate::descriptor::Descriptor;
use crate::name::ShmName;

verus! {

/// The way in which a target makes anonymous shared memory.
#[derive(Debug, Clone, Copy, PartialEq, Eq)]
pub enum Facility {
    /// One call makes an anonymous memory-backed file. The name only labels
    /// it; no namespace ever holds it.
    AnonymousFile,
    /// The shared-memory open takes an anonymous mode in place of a name.
    /// The caller's name is not used.
    AnonymousOpen,
    /// The shared-memory open knows names only: the object is made under the
    /// caller's name, and the name is unlinked right after.
    NamedOpen,
}

/// What a target offers.
#[derive(Debug, Clone, Copy, PartialEq, Eq)]
pub struct Platform {
    /// It has the call that makes an anonymous memory-backed file.
    pub memfd_create: bool,
    /// Its shared-memory open has an anonymous mode.
    pub shm_anon: bool,
}

impl Facility {
    /// Chooses the facility for a target: the first that it offers, in the
    /// order in which `Facility` lists them. The last one needs nothing
    /// special, so there is always one to choose.
    pub fn select(platform: Platform) -> (r: Facility)
        ensures
            r is AnonymousFile <==> platform.memfd_create,
            r is AnonymousOpen <==> !platform.memfd_create && platform.shm_anon,
            r is NamedOpen <==> !platform.memfd_create && !platform.shm_anon,
    {
        if platform.memfd_create {
            Facility::AnonymousFile
        } else if platform.shm_anon {
            Facility::AnonymousOpen
        } else {
            Facility::NamedOpen
        }
    }
}

/// What is asked of the call that makes an anonymous file.
#[derive(Debug, Clone, Copy, PartialEq, Eq)]
pub struct MemfdFlags {
    /// Close the descriptor when the process replaces its program image.
    pub close_on_exec: bool,
}

impl MemfdFlags {
    /// The flag word for these flags, where the target writes the flag as
    /// `cloexec`.
    pub open spec fn word(self, cloexec: u32) -> u32 {
        if self.close_on_exec {
            cloexec
        } else {
            0
        }
    }

    /// Computes the flag word to hand to the system.
    pub fn bits(&self, cloexec: u32) -> (r: u32)
        ensures
            r == self.word(cloexec),
    {
        if self.close_on_exec {
            cloexec
        } else {
            0
        }
    }
}

/// What is asked of a shared-memory open, flag by flag.
#[derive(Debug, Clone, Copy, PartialEq, Eq)]
pub struct OpenFlags {
    /// Make the object.
    pub create: bool,
    /// Open it for reading and writing.
    pub read_write: bool,
    /// Fail if an object of that name is there already.
    pub exclusive: bool,
}

impl OpenFlags {
    /// The flag word for these flags, where the target writes the three
    /// flags as `creat`, `rdwr` and `excl`.
    pub open spec fn word(self, creat: i32, rdwr: i32, excl: i32) -> i32 {
        (if self.create {
            creat
        } else {
            0
        }) | (if self.read_write {
            rdwr
        } else {
            0
        }) | (if self.exclusive {
            excl
        } else {
            0
        })
    }

    /// Computes the flag word to hand to the system.
    pub fn bits(&self, creat: i32, rdwr: i32, excl: i32) -> (r: i32)
        ensures
            r == self.word(creat, rdwr, excl),
    {
        let c: i32 = if self.create { creat } else { 0 };
        let w: i32 = if self.read_write { rdwr } else { 0 };
        let x: i32 = if self.exclusive { excl } else { 0 };
        c | w | x
    }
}

/// The flag word holds what was asked for and nothing else: every bit of
/// each flag that is asked for, and no bit that is in none of the three.
pub proof fn lemma_word_holds_what_is_asked(flags: OpenFlags, creat: i32, rdwr: i32, excl: i32)
    ensures
        flags.create ==> flags.word(creat, rdwr, excl) & creat == creat,
        flags.read_write ==> flags.word(creat, rdwr, excl) & rdwr == rdwr,
        flags.exclusive ==> flags.word(creat, rdwr, excl) & excl == excl,
        flags.word(creat, rdwr, excl) & !(creat | rdwr | excl) == 0,
{
    let c: i32 = if flags.create { creat } else { 0 };
    let w: i32 = if flags.read_write { rdwr } else { 0 };
    let x: i32 = if flags.exclusive { excl } else { 0 };
    assert((c | w | x) & c == c) by (bit_vector);
    assert((c | w | x) & w == w) by (bit_vector);
    assert((c | w | x) & x == x) by (bit_vector);
    assert((c | w | x) & !(creat | rdwr | excl) == 0) by (bit_vector)
        requires
            c == creat || c == 0,
            w == rdwr || w == 0,
            x == excl || x == 0,
    ;
}

/// The flags of every open that a creation asks for: make a new object,
/// readable and writable, and fail rather than open one that exists.
pub open spec fn new_object() -> OpenFlags {
    OpenFlags { create: true, read_write: true, exclusive: true }
}

/// Permission bits that let the owning user read and write, and nobody else
/// do anything.
pub const OWNER_ONLY: u32 = 0o600;

/// A system call to perform.
#[derive(Debug, PartialEq, Eq)]
pub enum Syscall {
    /// Make an anonymous memory-backed file, labelled `label`.
    MemfdCreate { label: ShmName, flags: MemfdFlags },
    /// Open a shared memory object in the anonymous mode, with permission
    /// bits `mode`.
    ShmOpenAnon { oflag: OpenFlags, mode: u32 },
    /// Open a shared memory object under `name`, with permission bits
    /// `mode`.
    ShmOpen { name: ShmName, oflag: OpenFlags, mode: u32 },
    /// Take `name` out of the shared memory namespace.
    ShmUnlink { name: ShmName },
    /// Close `fd`, which nobody will get.
    Close { fd: Descriptor },
}

/// The model of a system call.
pub enum SyscallView {
    MemfdCreate { label: Seq<u8>, flags: MemfdFlags },
    ShmOpenAnon { oflag: OpenFlags, mode: u32 },
    ShmOpen { name: Seq<u8>, oflag: OpenFlags, mode: u32 },
    ShmUnlink { name: Seq<u8> },
    Close { fd: int },
}

impl View for Syscall {
    type V = SyscallView;

    open spec fn view(&self) -> SyscallView {
        match *self {
            Syscall::MemfdCreate { label, flags } => SyscallView::MemfdCreate { label: label@, flags },
            Syscall::ShmOpenAnon { oflag, mode } => SyscallView::ShmOpenAnon { oflag, mode },
            Syscall::ShmOpen { name, oflag, mode } => SyscallView::ShmOpen {
                name: name@,
                oflag,
                mode,
            },
            Syscall::ShmUnlink { name } => SyscallView::ShmUnlink { name: name@ },
            Syscall::Close { fd } => SyscallView::Close { fd: fd@ },
        }
    }
}

/// The call that asks the facility for a new object on behalf of `name`.
pub open spec fn creating_call(facility: Facility, name: Seq<u8>) -> SyscallView {
    match facility {
        Facility::AnonymousFile => SyscallView::MemfdCreate {
            label: name,
            flags: MemfdFlags { close_on_exec: true },
        },
        Facility::AnonymousOpen => SyscallView::ShmOpenAnon {
            oflag: new_object(),
            mode: OWNER_ONLY,
        },
        Facility::NamedOpen => SyscallView::ShmOpen {
            name,
            oflag: new_object(),
            mode: OWNER_ONLY,
        },
    }
}

} // verus!

use std::cell::{Cell, RefCell};
use std::collections::{BTreeMap, BTreeSet};

use shmemfd::{create_shmem, Facility, OsError, Reply, ShmName, Syscall};

const ENOENT: i32 = 2;
const EACCES: i32 = 13;
const EEXIST: i32 = 17;
const EINVAL: i32 = 22;
const EMFILE: i32 = 24;
const ENOSYS: i32 = 38;

const CREAT: i32 = 0o100;
const RDWR: i32 = 0o2;
const EXCL: i32 = 0o200;
const CLOEXEC: u32 = 1;

/// A system that keeps shared memory objects as byte vectors, a namespace of
/// names for them, and a table of open descriptors.
struct System {
    objects: RefCell<Vec<Vec<u8>>>,
    names: RefCell<BTreeMap<Vec<u8>, usize>>,
    open: RefCell<BTreeMap<i32, usize>>,
    close_on_exec: RefCell<BTreeSet<i32>>,
    next_fd: Cell<i32>,
    descriptors_left: Cell<usize>,
    unlink_fails_with: Cell<Option<i32>>,
    log: RefCell<Vec<String>>,
}

impl System {
    fn new() -> System {
        System {
            objects: RefCell::new(Vec::new()),
            names: RefCell::new(BTreeMap::new()),
            open: RefCell::new(BTreeMap::new()),
            close_on_exec: RefCell::new(BTreeSet::new()),
            next_fd: Cell::new(3),
            descriptors_left: Cell::new(1024),
            unlink_fails_with: Cell::new(None),
            log: RefCell::new(Vec::new()),
        }
    }

    fn failed(errno: i32) -> Reply {
        Reply { ret: -1, errno }
    }

    fn new_descriptor(&self, object: usize) -> Reply {
        if self.descriptors_left.get() == 0 {
            return System::failed(EMFILE);
        }
        self.descriptors_left.set(self.descriptors_left.get() - 1);
        let fd = self.next_fd.get();
        self.next_fd.set(fd + 1);
        self.open.borrow_mut().insert(fd, object);
        self.close_on_exec.borrow_mut().insert(fd);
        Reply { ret: fd, errno: 0 }
    }

    fn new_object(&self) -> usize {
        self.objects.borrow_mut().push(Vec::new());
        self.objects.borrow().len() - 1
    }

    fn shm_open(&self, name: &[u8], oflag: i32, mode: u32) -> Reply {
        if name.first() != Some(&b'/') || name[1..].contains(&b'/') || name.len() < 2 {
            return System::failed(EINVAL);
        }
        let known = self.names.borrow().get(name).copied();
        match known {
            Some(_) if oflag & CREAT != 0 && oflag & EXCL != 0 => System::failed(EEXIST),
            Some(object) => self.new_descriptor(object),
            None if oflag & CREAT == 0 => System::failed(ENOENT),
            None => {
                assert_eq!(mode, 0o600);
                let object = self.new_object();
                let reply = self.new_descriptor(object);
                if reply.ret != -1 {
                    self.names.borrow_mut().insert(name.to_vec(), object);
                }
                reply
            }
        }
    }

    fn perform(&self, call: &Syscall) -> Reply {
        match call {
            Syscall::MemfdCreate { label, flags } => {
                let text = String::from_utf8_lossy(label.as_bytes()).into_owned();
                self.log.borrow_mut().push(format!("memfd_create({}, {})", text, flags.bits(CLOEXEC)));
                if flags.bits(CLOEXEC) & !CLOEXEC != 0 {
                    return System::failed(EINVAL);
                }
                let object = self.new_object();
                let reply = self.new_descriptor(object);
                if reply.ret != -1 && flags.bits(CLOEXEC) == 0 {
                    self.close_on_exec.borrow_mut().remove(&reply.ret);
                }
                reply
            }
            Syscall::ShmOpen { name, oflag, mode } => {
                let text = String::from_utf8_lossy(name.as_bytes()).into_owned();
                let oflag = oflag.bits(CREAT, RDWR, EXCL);
                self.log.borrow_mut().push(format!("shm_open({}, {:#o}, {:#o})", text, oflag, mode));
                self.shm_open(name.as_bytes(), oflag, *mode)
            }
            Syscall::ShmOpenAnon { oflag, mode } => {
                let oflag = oflag.bits(CREAT, RDWR, EXCL);
                self.log.borrow_mut().push(format!("shm_open(anonymous, {:#o}, {:#o})", oflag, mode));
                let object = self.new_object();
                self.new_descriptor(object)
            }
            Syscall::ShmUnlink { name } => {
                let text = String::from_utf8_lossy(name.as_bytes()).into_owned();
                self.log.borrow_mut().push(format!("shm_unlink({})", text));
                if let Some(errno) = self.unlink_fails_with.get() {
                    return System::failed(errno);
                }
                match self.names.borrow_mut().remove(name.as_bytes()) {
                    Some(_) => Reply { ret: 0, errno: 0 },
                    None => System::failed(ENOENT),
                }
            }
            Syscall::Close { fd } => {
                self.log.borrow_mut().push(format!("close({})", fd.raw()));
                match self.open.borrow_mut().remove(&fd.raw()) {
                    Some(_) => Reply { ret: 0, errno: 0 },
                    None => System::failed(9),
                }
            }
        }
    }

    /// What another process gets that looks the name up.
    fn lookup(&self, name: &str) -> Reply {
        self.shm_open(name.as_bytes(), RDWR, 0)
    }

    fn resize(&self, fd: i32, len: usize) {
        let object = self.open.borrow()[&fd];
        self.objects.borrow_mut()[object].resize(len, 0);
    }

    fn write(&self, fd: i32, bytes: &[u8]) {
        let object = self.open.borrow()[&fd];
        self.objects.borrow_mut()[object].extend_from_slice(bytes);
    }

    fn read(&self, fd: i32) -> Vec<u8> {
        let object = self.open.borrow()[&fd];
        self.objects.borrow()[object].clone()
    }

    fn log(&self) -> Vec<String> {
        self.log.borrow().clone()
    }
}

fn token(text: &str) -> ShmName {
    ShmName::new(text.as_bytes().to_vec()).unwrap()
}

fn create(system: &System, facility: Facility, name: &str) -> Result<i32, OsError> {
    create_shmem(facility, token(name), |call: &Syscall| system.perform(call)).map(|fd| fd.raw())
}

const FACILITIES: [Facility; 3] =
    [Facility::AnonymousFile, Facility::AnonymousOpen, Facility::NamedOpen];

#[test]
fn test_create_shmem() {
    for facility in FACILITIES {
        let system = System::new();
        create_shmem(facility, token("/helloworld"), |call: &Syscall| system.perform(call))
            .unwrap();
    }
}

#[test]
fn created_object_is_empty() {
    for facility in FACILITIES {
        let system = System::new();
        let fd = create(&system, facility, "/helloworld").unwrap();
        assert_eq!(fd, 3);
        assert_eq!(system.read(fd), Vec::<u8>::new());
        assert!(system.close_on_exec.borrow().contains(&fd));
        assert_eq!(system.open.borrow().len(), 1);
    }
}

#[test]
fn created_object_can_be_sized_and_used() {
    for facility in FACILITIES {
        let system = System::new();
        let fd = create(&system, facility, "/helloworld").unwrap();
        system.resize(fd, 4096);
        assert_eq!(system.read(fd), vec![0u8; 4096]);
        system.write(fd, b"shared");
        assert_eq!(system.read(fd).len(), 4102);
        assert_eq!(&system.read(fd)[4096..], b"shared");
    }
}

#[test]
fn memfd_creation_makes_one_call() {
    let system = System::new();
    assert_eq!(create(&system, Facility::AnonymousFile, "/helloworld"), Ok(3));
    assert_eq!(system.log(), vec!["memfd_create(/helloworld, 1)"]);
}

#[test]
fn anonymous_open_makes_one_call_and_ignores_the_name() {
    let system = System::new();
    assert_eq!(create(&system, Facility::AnonymousOpen, "/helloworld"), Ok(3));
    assert_eq!(system.log(), vec!["shm_open(anonymous, 0o302, 0o600)"]);
    let system = System::new();
    assert_eq!(create(&system, Facility::AnonymousOpen, "not/a/name"), Ok(3));
    assert_eq!(system.log(), vec!["shm_open(anonymous, 0o302, 0o600)"]);
}

#[test]
fn named_open_unlinks_the_name() {
    let system = System::new();
    assert_eq!(create(&system, Facility::NamedOpen, "/helloworld"), Ok(3));
    assert_eq!(
        system.log(),
        vec!["shm_open(/helloworld, 0o302, 0o600)", "shm_unlink(/helloworld)"]
    );
}

#[test]
fn name_cannot_be_looked_up_afterwards() {
    for facility in FACILITIES {
        let system = System::new();
        create(&system, facility, "/helloworld").unwrap();
        assert!(system.names.borrow().is_empty());
        assert_eq!(system.lookup("/helloworld"), Reply { ret: -1, errno: ENOENT });
    }
}

#[test]
fn second_creation_under_the_same_name_is_independent() {
    for facility in FACILITIES {
        let system = System::new();
        let first = create(&system, facility, "/helloworld").unwrap();
        let second = create(&system, facility, "/helloworld").unwrap();
        assert_eq!((first, second), (3, 4));
        system.write(first, b"first");
        assert_eq!(system.read(first), b"first".to_vec());
        assert_eq!(system.read(second), Vec::<u8>::new());
        system.write(second, b"second");
        assert_eq!(system.read(first), b"first".to_vec());
        assert_eq!(system.read(second), b"second".to_vec());
    }
}

#[test]
fn name_that_the_system_rejects_gives_its_error() {
    for name in ["helloworld", "/hello/world", "/", ""] {
        let system = System::new();
        assert_eq!(
            create(&system, Facility::NamedOpen, name),
            Err(OsError { code: EINVAL })
        );
        assert_eq!(system.log().len(), 1);
        assert!(system.open.borrow().is_empty());
        assert!(system.names.borrow().is_empty());
        assert!(system.objects.borrow().is_empty());
    }
}

#[test]
fn name_that_is_taken_gives_the_collision_and_stays() {
    let system = System::new();
    let theirs = system.shm_open(b"/helloworld", CREAT | RDWR | EXCL, 0o600).ret;
    system.write(theirs, b"theirs");
    system.log.borrow_mut().clear();

    assert_eq!(
        create(&system, Facility::NamedOpen, "/helloworld"),
        Err(OsError { code: EEXIST })
    );
    assert_eq!(system.log(), vec!["shm_open(/helloworld, 0o302, 0o600)"]);
    assert_eq!(system.open.borrow().len(), 1);
    let looked_up = system.lookup("/helloworld").ret;
    assert_eq!(system.read(looked_up), b"theirs".to_vec());
}

#[test]
fn exhausted_descriptors_give_the_error_at_once() {
    for facility in FACILITIES {
        let system = System::new();
        system.descriptors_left.set(0);
        assert_eq!(create(&system, facility, "/helloworld"), Err(OsError { code: EMFILE }));
        assert_eq!(system.log().len(), 1);
        assert!(system.open.borrow().is_empty());
        assert!(system.names.borrow().is_empty());
    }
}

#[test]
fn failed_unlinking_fails_the_creation_and_closes_the_descriptor() {
    let system = System::new();
    system.unlink_fails_with.set(Some(EACCES));
    assert_eq!(
        create(&system, Facility::NamedOpen, "/helloworld"),
        Err(OsError { code: EACCES })
    );
    assert_eq!(
        system.log(),
        vec!["shm_open(/helloworld, 0o302, 0o600)", "shm_unlink(/helloworld)", "close(3)"]
    );
    assert!(system.open.borrow().is_empty());
}

#[test]
fn error_of_the_closing_does_not_replace_that_of_the_unlinking() {
    let replies = RefCell::new(vec![
        Reply { ret: -1, errno: 9 },
        Reply { ret: -1, errno: EACCES },
        Reply { ret: 7, errno: 0 },
    ]);
    let made = create_shmem(Facility::NamedOpen, token("/helloworld"), |_call: &Syscall| {
        replies.borrow_mut().pop().unwrap()
    });
    assert_eq!(made, Err(OsError { code: EACCES }));
    assert!(replies.borrow().is_empty());
}

#[test]
fn missing_facility_gives_the_error_of_the_system() {
    let asked = Cell::new(0);
    let made = create_shmem(Facility::AnonymousFile, token("/helloworld"), |_call: &Syscall| {
        asked.set(asked.get() + 1);
        Reply { ret: -1, errno: ENOSYS }
    });
    assert_eq!(made, Err(OsError { code: ENOSYS }));
    assert_eq!(asked.get(), 1);
}

use std::sync::atomic::{AtomicBool, AtomicUsize, Ordering};

use nucleus::backend::{
    Backend, MemPerms, Mutex, RawMutex, Region, SandboxImplementation, SystemInfo, EXEC, READ,
    WRITE,
};
use nucleus::Nucleus;

struct SpinLock {
    held: AtomicBool,
}

impl RawMutex for SpinLock {
    const INIT: Self = SpinLock { held: AtomicBool::new(false) };

    fn lock(&self) {
        while !self.try_lock() {
            std::hint::spin_loop();
        }
    }

    fn try_lock(&self) -> bool {
        self.held.compare_exchange(false, true, Ordering::Acquire, Ordering::Relaxed).is_ok()
    }

    fn unlock(&self) {
        self.held.store(false, Ordering::Release);
    }
}

struct Info;

impl SystemInfo for Info {
    fn hardware_thread_num(&self) -> usize {
        4
    }

    fn sandbox_implementation(&self) -> SandboxImplementation {
        SandboxImplementation::BoundsChecks
    }
}

struct CountingBackend {
    info: Info,
    next: AtomicUsize,
    live: AtomicUsize,
}

impl Backend for CountingBackend {
    type ThreadToken = usize;
    type Info = Info;
    type RawMutex = SpinLock;

    fn create_thread(&self, entry: usize, arg: usize) -> usize {
        entry + arg
    }

    fn destroy_thread(&self, _token: usize) {}

    fn allocate(&self, size: usize, _perms: MemPerms) -> Region {
        self.live.fetch_add(size, Ordering::SeqCst);
        Region::new(self.next.fetch_add(size, Ordering::SeqCst), size)
    }

    fn deallocate(&self, region: Region, size: usize) {
        assert_eq!(region.size(), size);
        self.live.fetch_sub(size, Ordering::SeqCst);
    }

    fn system_info(&self) -> &Info {
        &self.info
    }
}

fn backend() -> CountingBackend {
    CountingBackend { info: Info, next: AtomicUsize::new(0x1000), live: AtomicUsize::new(0) }
}

#[test]
fn permission_bits() {
    assert_eq!((READ, WRITE, EXEC), (0x1, 0x2, 0x4));
    assert_eq!(MemPerms::none().bits(), 0x0);
    assert_eq!(MemPerms::read().bits(), 0x1);
    assert_eq!(MemPerms::write().bits(), 0x2);
    assert_eq!(MemPerms::exec().bits(), 0x4);
}

#[test]
fn union_of_permissions() {
    let read_write = MemPerms::read().union(MemPerms::write());
    let all = read_write.union(MemPerms::exec());

    assert_eq!(read_write.bits(), 0x3);
    assert_eq!(all.bits(), 0x7);
    assert_eq!(MemPerms::none().union(MemPerms::exec()), MemPerms::exec());
    assert_eq!(read_write.union(read_write), read_write);
}

#[test]
fn containment_of_permissions() {
    let read_exec = MemPerms::read().union(MemPerms::exec());

    assert!(read_exec.contains(MemPerms::read()));
    assert!(read_exec.contains(MemPerms::exec()));
    assert!(read_exec.contains(MemPerms::none()));
    assert!(read_exec.contains(read_exec));
    assert!(!read_exec.contains(MemPerms::write()));
    assert!(!MemPerms::read().contains(read_exec));
    assert!(MemPerms::none().contains(MemPerms::none()));
    assert!(!MemPerms::none().contains(MemPerms::read()));
}

#[test]
fn permissions_from_bits() {
    assert_eq!(MemPerms::from_bits(0), Some(MemPerms::none()));
    assert_eq!(MemPerms::from_bits(5), Some(MemPerms::read().union(MemPerms::exec())));
    assert_eq!(MemPerms::from_bits(7).map(|perms| perms.bits()), Some(7));
    assert_eq!(MemPerms::from_bits(8), None);
    assert_eq!(MemPerms::from_bits(0x81), None);
    assert_eq!(MemPerms::from_bits(0xff), None);
}

#[test]
fn region_keeps_address_and_size() {
    let region = Region::new(0x4000, 4096);

    assert_eq!(region.address(), 0x4000);
    assert_eq!(region.size(), 4096);
}

#[test]
fn allocation_is_returned_with_its_size() {
    let backend = backend();

    let first = backend.allocate(4096, MemPerms::read().union(MemPerms::write()));
    let second = backend.allocate(64, MemPerms::exec());

    assert_eq!(first.size(), 4096);
    assert_eq!(second.size(), 64);
    assert_ne!(first.address(), second.address());
    assert_eq!(backend.live.load(Ordering::SeqCst), 4160);
    let size = first.size();
    backend.deallocate(first, size);
    backend.deallocate(second, 64);
    assert_eq!(backend.live.load(Ordering::SeqCst), 0);
}

#[test]
fn system_info_of_a_backend() {
    let backend = backend();

    assert_eq!(backend.system_info().hardware_thread_num(), 4);
    assert_eq!(
        backend.system_info().sandbox_implementation(),
        SandboxImplementation::BoundsChecks
    );
    assert_ne!(SandboxImplementation::BoundsChecks, SandboxImplementation::UncommittedPages);
}

#[test]
fn thread_token_is_consumed() {
    let backend = backend();

    let token = backend.create_thread(0x1000, 8);

    assert_eq!(token, 0x1008);
    backend.destroy_thread(token);
}

#[test]
fn raw_mutex_is_exclusive() {
    let lock = SpinLock::INIT;

    assert!(lock.try_lock());
    assert!(!lock.try_lock());
    lock.unlock();
    assert!(lock.try_lock());
    lock.unlock();
    lock.lock();
    assert!(!lock.try_lock());
}

#[test]
fn mutex_hands_back_what_it_guards() {
    let mutex: Mutex<SpinLock, Vec<u32>> = Mutex::new(vec![1, 2, 3]);

    assert_eq!(mutex.into_inner(), vec![1, 2, 3]);
}

#[test]
fn mutex_of_a_mutex() {
    let inner: Mutex<SpinLock, &str> = Mutex::new("payload");
    let outer: Mutex<SpinLock, Mutex<SpinLock, &str>> = Mutex::new(inner);

    assert_eq!(outer.into_inner().into_inner(), "payload");
}

#[test]
fn nucleus_on_a_backend() {
    let nucleus = Nucleus::new(backend());

    assert_eq!(nucleus.backend().system_info().hardware_thread_num(), 4);
    let region = nucleus.backend().allocate(16, MemPerms::read());
    assert_eq!(nucleus.backend().live.load(Ordering::SeqCst), 16);
    nucleus.backend().deallocate(region, 16);
    assert_eq!(nucleus.backend().live.load(Ordering::SeqCst), 0);
}

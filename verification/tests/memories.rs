use externals::creator::{HeapMemory, HeapMemoryCreator, LinearMemory, MemoryCreator};
use externals::runtime::{MemoryStyle, WASM_MAX_PAGES, WASM_PAGE_SIZE};
use externals::{Config, Engine, Error, Limits, Memory, MemoryType, Store};
use std::sync::Mutex;

fn store() -> Store<HeapMemoryCreator> {
    Store::new(&Engine::new(&Config::new()))
}

fn pages(min: u32, max: Option<u32>) -> MemoryType {
    MemoryType::new(Limits::new(min, max))
}

// Assert that creating a memory via `Memory::new` respects the limits/tunables
// in `Config`.
#[test]
fn respect_tunables() {
    let mut cfg = Config::new();
    cfg.static_memory_maximum_size(0)
        .dynamic_memory_guard_size(0);
    let mut store = Store::new(&Engine::new(&cfg));
    let ty = MemoryType::new(Limits::new(1, None));
    let mem = Memory::new(&mut store, ty);
    assert_eq!(mem.wasmtime_export.memory.offset_guard_size, 0);
    match mem.wasmtime_export.memory.style {
        MemoryStyle::Dynamic => {}
        other => panic!("unexpected style {:?}", other),
    }
}

#[test]
fn page_sizes_are_those_of_the_runtime() {
    assert_eq!(WASM_PAGE_SIZE, wasmtime_environ::WASM_PAGE_SIZE);
    assert_eq!(WASM_MAX_PAGES, wasmtime_environ::WASM_MAX_PAGES);
}

#[test]
fn default_layout() {
    let tunables = wasmtime_environ::Tunables::default();
    let mut store = store();
    let memory = Memory::new(&mut store, pages(1, Some(2)));
    let plan = memory.wasmtime_export.memory;
    assert_eq!(
        plan.style,
        MemoryStyle::Static {
            bound: tunables.static_memory_bound
        }
    );
    assert_eq!(
        plan.offset_guard_size,
        tunables.static_memory_offset_guard_size
    );
}

#[test]
fn layout_follows_the_maximum() {
    let mut cfg = Config::new();
    cfg.static_memory_maximum_size(10 * 65536 + 1)
        .dynamic_memory_guard_size(65537);
    let mut store = Store::new(&Engine::new(&cfg));
    let memory = Memory::new(&mut store, pages(1, Some(10)));
    assert_eq!(
        memory.wasmtime_export.memory.style,
        MemoryStyle::Static { bound: 10 }
    );
    let memory = Memory::new(&mut store, pages(1, Some(11)));
    assert_eq!(memory.wasmtime_export.memory.style, MemoryStyle::Dynamic);
    assert_eq!(memory.wasmtime_export.memory.offset_guard_size, 131072);
    let memory = Memory::new(&mut store, pages(1, None));
    assert_eq!(memory.wasmtime_export.memory.style, MemoryStyle::Dynamic);
}

#[test]
fn guards_of_static_memories_are_never_smaller() {
    let mut cfg = Config::new();
    cfg.dynamic_memory_guard_size(1 << 32);
    let mut store = Store::new(&Engine::new(&cfg));
    let memory = Memory::new(&mut store, pages(1, Some(1)));
    assert_eq!(memory.wasmtime_export.memory.offset_guard_size, 1 << 32);
}

#[test]
fn grow_up_to_the_maximum() {
    let mut store = store();
    let memory = Memory::new(&mut store, pages(1, Some(2)));
    assert_eq!(memory.size(&store), 1);
    assert_eq!(memory.grow(&mut store, 1).unwrap(), 1);
    assert_eq!(memory.size(&store), 2);
    assert!(memory.grow(&mut store, 1).is_err());
    assert_eq!(memory.size(&store), 2);
    assert_eq!(memory.grow(&mut store, 0).unwrap(), 2);
}

#[test]
fn type_of_memory() {
    let mut store = store();
    let memory = Memory::new(&mut store, pages(1, None));
    assert_eq!(memory.ty().limits().min(), 1);
    assert_eq!(memory.ty().limits().max(), None);
    memory.grow(&mut store, 3).unwrap();
    assert_eq!(memory.ty(), pages(1, None));
}

#[test]
fn fresh_memory_is_zero() {
    let mut store = store();
    let memory = Memory::new(&mut store, pages(2, None));
    assert_eq!(memory.data_size(&store), 131072);
    assert!(memory.data_unchecked(&store).iter().all(|byte| *byte == 0));
    let empty = Memory::new(&mut store, pages(0, None));
    assert_eq!(empty.size(&store), 0);
    assert_eq!(empty.data_size(&store), 0);
    assert_eq!(empty.data_unchecked(&store).len(), 0);
}

#[test]
fn growth_keeps_the_bytes() {
    let mut store = store();
    let memory = Memory::new(&mut store, pages(1, None));
    let other = Memory::new(&mut store, pages(1, None));
    memory.data_unchecked_mut(&mut store)[0x123] = 3;
    memory.data_unchecked_mut(&mut store)[65535] = 4;
    assert_eq!(memory.grow(&mut store, 2).unwrap(), 1);
    let data = memory.data_unchecked(&store);
    assert_eq!(data.len(), 3 * 65536);
    assert_eq!(data[0x123], 3);
    assert_eq!(data[65535], 4);
    assert!(data[65536..].iter().all(|byte| *byte == 0));
    assert_eq!(other.size(&store), 1);
    assert!(other.data_unchecked(&store).iter().all(|byte| *byte == 0));
}

#[test]
fn growth_in_steps() {
    let mut store = store();
    let once = Memory::new(&mut store, pages(1, Some(4)));
    let twice = Memory::new(&mut store, pages(1, Some(4)));
    once.grow(&mut store, 3).unwrap();
    twice.grow(&mut store, 1).unwrap();
    twice.grow(&mut store, 2).unwrap();
    assert_eq!(
        once.data_unchecked(&store),
        twice.data_unchecked(&store)
    );
}

#[test]
fn growth_refused() {
    let mut store = store();
    let memory = Memory::new(&mut store, pages(1, None));
    // A memory can be made with 65536 pages, but is not grown to so many.
    let error = memory.grow(&mut store, 65535).unwrap_err();
    assert!(matches!(error, Error::MemoryGrow));
    assert_eq!(error.message(), "failed to grow memory");
    assert!(memory.grow(&mut store, u32::MAX).is_err());
    assert_eq!(memory.size(&store), 1);

    // A minimum above the maximum is kept, and nothing is added to it.
    let memory = Memory::new(&mut store, pages(2, Some(1)));
    assert_eq!(memory.size(&store), 2);
    assert!(memory.grow(&mut store, 1).is_err());
    assert_eq!(memory.grow(&mut store, 0).unwrap(), 2);
}

#[test]
fn clones_are_the_same_memory() {
    let mut store = store();
    let a = Memory::new(&mut store, pages(1, None));
    let b = a.clone();
    b.data_unchecked_mut(&mut store)[0] = 1;
    b.grow(&mut store, 1).unwrap();
    assert_eq!(a.data_unchecked(&store)[0], 1);
    assert_eq!(a.size(&store), 2);
    let c = Memory::from_wasmtime_memory(a.wasmtime_export, a.instance);
    assert_eq!(c.size(&store), 2);
}

#[test]
fn memory_that_cannot_be_indexed() {
    let mut cfg = Config::new();
    cfg.static_memory_maximum_size(0);
    let mut store = Store::new(&Engine::new(&cfg));
    let error = Memory::try_new(&mut store, pages(65537, None)).unwrap_err();
    assert_eq!(
        error.message(),
        "generated memory: minimum size exceeds what can be indexed"
    );
    let error = Memory::try_new(&mut store, pages(1, Some(65537))).unwrap_err();
    assert_eq!(
        error.message(),
        "generated memory: maximum size exceeds what can be indexed"
    );
    assert!(Memory::try_new(&mut store, pages(1, Some(65536))).is_ok());
}

/// What a creator was asked for: the type, the reservation and the guard.
type Request = (MemoryType, Option<u64>, u64);

/// A creator that takes note of what it is asked for, and makes nothing above a
/// number of pages.
struct Bounded {
    most: u32,
    requests: &'static Mutex<Vec<Request>>,
}

impl MemoryCreator for Bounded {
    type Memory = HeapMemory;

    // The two functions that only proofs speak of are never called.
    fn may_make(&self, _: MemoryType, _: Option<u64>, _: u64, _: HeapMemory) -> bool {
        unreachable!()
    }

    fn may_refuse(&self, _: MemoryType, _: Option<u64>, _: u64) -> bool {
        unreachable!()
    }

    fn new_memory(
        &self,
        ty: MemoryType,
        reserved_size_in_bytes: Option<u64>,
        guard_size_in_bytes: u64,
    ) -> Result<HeapMemory, String> {
        let request = (ty, reserved_size_in_bytes, guard_size_in_bytes);
        self.requests.lock().unwrap().push(request);
        if ty.limits().min() > self.most {
            return Err("too many pages".to_string());
        }
        HeapMemoryCreator {}.new_memory(ty, reserved_size_in_bytes, guard_size_in_bytes)
    }
}

#[test]
fn host_managed_memory() {
    let mut cfg = Config::new();
    cfg.static_memory_maximum_size(8 * 65536)
        .dynamic_memory_guard_size(65536);
    let requests: &'static Mutex<Vec<Request>> = Box::leak(Box::new(Mutex::new(vec![])));
    let creator = Bounded { most: 3, requests };
    let mut store = Store::with_host_memory(&Engine::new(&cfg), creator);
    let guard = wasmtime_environ::Tunables::default().static_memory_offset_guard_size;

    let memory = Memory::try_new(&mut store, pages(3, Some(5))).unwrap();
    assert_eq!(memory.size(&store), 3);
    assert_eq!(memory.grow(&mut store, 2).unwrap(), 3);
    assert!(memory.grow(&mut store, 1).is_err());
    let memory = Memory::new(&mut store, pages(2, None));
    assert_eq!(memory.size(&store), 2);

    let error = Memory::try_new(&mut store, pages(4, None)).unwrap_err();
    assert_eq!(error.message(), "generated memory: too many pages");
    assert!(matches!(error, Error::MemoryCreation(_)));

    assert_eq!(
        *requests.lock().unwrap(),
        vec![
            (pages(3, Some(5)), Some(8 * 65536), guard),
            (pages(2, None), None, 65536),
            (pages(4, None), None, 65536),
        ]
    );
}

#[test]
fn sizes_stay_within_limits() {
    let requests: &'static Mutex<Vec<Request>> = Box::leak(Box::new(Mutex::new(vec![])));
    let creator = Bounded { most: 9, requests };
    let mut store = Store::with_host_memory(&Engine::new(&Config::new()), creator);
    let memory = Memory::new(&mut store, pages(2, Some(5)));
    for delta in vec![0, 1, 9, 2, 1, 0, u32::MAX] {
        let before = memory.data_size(&store);
        let grown = memory.grow(&mut store, delta).is_ok();
        let size = memory.data_size(&store);
        assert_eq!(size % 65536, 0);
        assert!(2 * 65536 <= size && size <= 5 * 65536);
        assert!(grown || size == before);
    }
    assert_eq!(memory.size(&store), 5);
}

#[test]
fn heap_memory_by_itself() {
    let mut memory = match (HeapMemoryCreator {}).new_memory(pages(1, Some(3)), None, 0) {
        Ok(memory) => memory,
        Err(why) => panic!("{}", why),
    };
    assert_eq!(memory.size(), 1);
    memory.as_mut_ptr()[7] = 7;
    assert_eq!(memory.grow(2), Some(1));
    assert_eq!(memory.grow(1), None);
    assert_eq!(memory.size(), 3);
    assert_eq!(memory.as_ptr().len(), 3 * 65536);
    assert_eq!(memory.as_ptr()[7], 7);
}

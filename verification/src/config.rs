//! How stores are set up.
use crate::runtime::{default_tunables, standard_tunables, Tunables, WASM_PAGE_SIZE};
use vstd::prelude::*;

verus! {

/// Global configuration options used to create an `Engine`.
#[derive(Debug)]
pub struct Config {
    tunables: Tunables,
}

/// The greatest number of whole wasm pages of bytes that a `u64` can count.
pub const LARGEST_GUARD_SIZE: u64 = 0xffff_ffff_ffff_0000;

/// A size in bytes, rounded up to whole wasm pages.
pub open spec fn rounded_up(size: u64) -> u64 {
    if size > LARGEST_GUARD_SIZE {
        LARGEST_GUARD_SIZE
    } else {
        ((size + WASM_PAGE_SIZE - 1) / (WASM_PAGE_SIZE as int) * WASM_PAGE_SIZE) as u64
    }
}

/// Rounds a size in bytes up to whole wasm pages.
fn round_up_to_pages(size: u64) -> (rounded: u64)
    ensures
        rounded == rounded_up(size),
        rounded % (WASM_PAGE_SIZE as u64) == 0,
{
    if size > LARGEST_GUARD_SIZE {
        assert(0xffff_ffff_ffff_0000u64 % 0x1_0000u64 == 0);
        return LARGEST_GUARD_SIZE;
    }
    let page: u64 = WASM_PAGE_SIZE as u64;
    let pages: u64 = if size % page == 0 {
        size / page
    } else {
        size / page + 1
    };
    assert(pages == (size + WASM_PAGE_SIZE - 1) / (WASM_PAGE_SIZE as int));
    pages * page
}

impl Config {
    /// The parameters of the layout of memories.
    pub closed spec fn spec_tunables(self) -> Tunables {
        self.tunables
    }

    /// The guard sizes are whole numbers of wasm pages.
    pub open spec fn wf(self) -> bool {
        self.spec_tunables().wf()
    }

    /// Creates a new configuration object with the default configuration
    /// specified.
    pub fn new() -> (config: Config)
        ensures
            config.wf(),
            config.spec_tunables() == standard_tunables(),
    {
        let tunables = default_tunables();
        assert(0x8000_0000u64 % 0x1_0000u64 == 0 && 0x1_0000u64 % 0x1_0000u64 == 0);
        Config { tunables }
    }

    /// Configures the maximum size, in bytes, where a linear memory is
    /// considered static, above which it'll be considered dynamic.
    pub fn static_memory_maximum_size(&mut self, max_size: u64) -> (config: &mut Config)
        requires
            old(self).wf(),
        ensures
            config.wf(),
            config.spec_tunables() == (Tunables {
                static_memory_bound: (if max_size / (WASM_PAGE_SIZE as u64) > u32::MAX {
                    u32::MAX
                } else {
                    (max_size / (WASM_PAGE_SIZE as u64)) as u32
                }),
                ..old(self).spec_tunables()
            }),
            *final(self) == *final(config),
    {
        let max_pages: u64 = max_size / WASM_PAGE_SIZE as u64;
        self.tunables.static_memory_bound =
        if max_pages > u32::MAX as u64 {
            u32::MAX
        } else {
            max_pages as u32
        };
        self
    }

    /// Configures the size, in bytes, of the guard region used at the end of a
    /// dynamic memory's address space reservation. The guard region of a static
    /// memory is never smaller.
    pub fn dynamic_memory_guard_size(&mut self, guard_size: u64) -> (config: &mut Config)
        requires
            old(self).wf(),
        ensures
            config.wf(),
            config.spec_tunables() == (Tunables {
                dynamic_memory_offset_guard_size: rounded_up(guard_size),
                static_memory_offset_guard_size: (if rounded_up(guard_size) > old(
                    self,
                ).spec_tunables().static_memory_offset_guard_size {
                    rounded_up(guard_size)
                } else {
                    old(self).spec_tunables().static_memory_offset_guard_size
                }),
                ..old(self).spec_tunables()
            }),
            *final(self) == *final(config),
    {
        let guard_size: u64 = round_up_to_pages(guard_size);
        self.tunables.dynamic_memory_offset_guard_size = guard_size;
        if guard_size > self.tunables.static_memory_offset_guard_size {
            self.tunables.static_memory_offset_guard_size = guard_size;
        }
        self
    }
}

/// An `Engine` which is a global context for the stores that are made in it.
#[derive(Debug)]
pub struct Engine {
    tunables: Tunables,
}

impl Engine {
    /// The parameters of the layout of memories.
    pub closed spec fn spec_tunables(self) -> Tunables {
        self.tunables
    }

    /// The guard sizes are whole numbers of wasm pages.
    pub open spec fn wf(self) -> bool {
        self.spec_tunables().wf()
    }

    /// Creates a new `Engine` with the specified configuration settings.
    pub fn new(config: &Config) -> (engine: Engine)
        requires
            config.wf(),
        ensures
            engine.wf(),
            engine.spec_tunables() == config.spec_tunables(),
    {
        Engine { tunables: config.tunables }
    }

    /// Returns the parameters of the layout of memories.
    pub(crate) fn tunables(&self) -> (tunables: Tunables)
        ensures
            tunables == self.spec_tunables(),
    {
        self.tunables
    }
}

} // verus!

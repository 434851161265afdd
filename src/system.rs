//! The ownership graph: a system owns an arena and a native context; resources and
//! voices keep their system alive through shared references, and a voice keeps the
//! resources attached to it alive. Releasing the last reference to a node yields the
//! native calls that tear it down, in an order in which no handle is used after the
//! object it names is gone.
use vstd::prelude::*;
use vstd::utf8::*;
use std::rc::Rc;
use crate::status::{check_status, describes_message, PicoError, PICO_OK};
use crate::text::{c_text, lemma_decoded_len_le, NativeString, PicoString};

verus! {

/// Alignment of the arena handed to the engine, in bytes.
pub const ARENA_ALIGN: usize = 16;

/// Capacity of the buffer the engine writes a resource name into.
pub const PICO_MAX_RESOURCE_NAME_SIZE: usize = 32;

/// Longest voice name the engine accepts.
pub const PICO_MAX_VOICE_NAME_SIZE: usize = 32;

/// Largest arena size the engine's initialization can be told about.
pub const MAX_NATIVE_ARENA_SIZE: u32 = 4294967295;

/// Size and alignment of an arena.
#[derive(Clone, Copy, Debug, PartialEq, Eq, Structural)]
pub struct ArenaLayout {
    size: usize,
    align: usize,
}

/// Whether an arena of `size` bytes, rounded up to the arena alignment, fits the
/// address space (the rule of `std::alloc::Layout`).
pub open spec fn arena_size_ok(size: int) -> bool {
    size + (ARENA_ALIGN - 1) <= isize::MAX
}

impl ArenaLayout {
    pub closed spec fn spec_size(&self) -> nat {
        self.size as nat
    }

    pub closed spec fn spec_align(&self) -> nat {
        self.align as nat
    }

    /// The layout of an arena of `size` bytes aligned to `ARENA_ALIGN`; none when the
    /// size cannot be allocated.
    pub fn new(size: usize) -> (r: Option<ArenaLayout>)
        ensures
            r is Some <==> arena_size_ok(size as int),
            r matches Some(l) ==> l.spec_size() == size && l.spec_align() == ARENA_ALIGN,
    {
        if size <= isize::MAX as usize - (ARENA_ALIGN - 1) {
            Some(ArenaLayout { size, align: ARENA_ALIGN })
        } else {
            None
        }
    }

    pub fn size(&self) -> (n: usize)
        ensures
            n == self.spec_size(),
    {
        self.size
    }

    pub fn align(&self) -> (n: usize)
        ensures
            n == self.spec_align(),
    {
        self.align
    }

    /// The size told to the engine's initialization, which takes a 32-bit size: the
    /// arena's size, capped at the largest such value.
    pub fn native_size(&self) -> (n: u32)
        ensures
            n == if self.spec_size() <= MAX_NATIVE_ARENA_SIZE {
                self.spec_size()
            } else {
                MAX_NATIVE_ARENA_SIZE as nat
            },
    {
        if self.size <= MAX_NATIVE_ARENA_SIZE as usize {
            self.size as u32
        } else {
            MAX_NATIVE_ARENA_SIZE
        }
    }
}

/// One native call of a teardown.
#[derive(Debug)]
pub enum NativeRelease {
    /// Release the voice definition `name` from the context `sys`.
    ReleaseVoice { sys: usize, name: NativeString },
    /// Unload the resource `res` from the context `sys`.
    UnloadResource { sys: usize, res: usize },
    /// Finalize the context `sys`.
    Terminate { sys: usize },
    /// Free the arena at `mem`, allocated with `layout`.
    FreeArena { mem: usize, layout: ArenaLayout },
}

/// A native context together with the arena it lives in.
#[derive(Debug)]
pub struct System {
    c_sys: usize,
    mem: usize,
    layout: ArenaLayout,
}

/// The calls that tear down a context `c_sys` living in the arena `mem`: the context
/// is finalized first, then its arena freed; a null handle or address is skipped.
pub open spec fn system_steps(c_sys: usize, mem: usize, layout: ArenaLayout) -> Seq<NativeRelease> {
    (if c_sys != 0 {
        seq![NativeRelease::Terminate { sys: c_sys }]
    } else {
        Seq::<NativeRelease>::empty()
    }) + (if mem != 0 {
        seq![NativeRelease::FreeArena { mem, layout }]
    } else {
        Seq::<NativeRelease>::empty()
    })
}

impl System {
    pub closed spec fn spec_handle(&self) -> usize {
        self.c_sys
    }

    pub closed spec fn spec_arena(&self) -> usize {
        self.mem
    }

    pub closed spec fn spec_layout(&self) -> ArenaLayout {
        self.layout
    }

    /// The calls that tear this system down.
    pub open spec fn teardown(&self) -> Seq<NativeRelease> {
        system_steps(self.spec_handle(), self.spec_arena(), self.spec_layout())
    }

    /// Completes the creation of a system once the engine's initialization, run on the
    /// arena at `mem` (null when allocation failed), returned `code` and the context
    /// handle `c_sys`. On failure the error comes with the calls that release whatever
    /// was acquired, so that the arena is never leaked.
    pub fn initialize(
        c_sys: usize,
        mem: usize,
        layout: ArenaLayout,
        code: i32,
        message: &PicoString,
    ) -> (r: Result<Rc<System>, (PicoError, Vec<NativeRelease>)>)
        ensures
            r is Ok <==> code == PICO_OK,
            r matches Ok(s) ==> s.spec_handle() == c_sys && s.spec_arena() == mem
                && s.spec_layout() == layout,
            r matches Err((e, plan)) ==> e.code == code && describes_message(e.descr@, message@)
                && plan@ == system_steps(c_sys, mem, layout),
    {
        let sys = System { c_sys, mem, layout };
        match check_status(code, message) {
            Ok(()) => Ok(Rc::new(sys)),
            Err(e) => Err((e, sys.release())),
        }
    }

    /// The context handle.
    pub fn handle(&self) -> (h: usize)
        ensures
            h == self.spec_handle(),
    {
        self.c_sys
    }

    /// The address of the arena.
    pub fn arena(&self) -> (m: usize)
        ensures
            m == self.spec_arena(),
    {
        self.mem
    }

    /// The layout of the arena.
    pub fn layout(&self) -> (l: ArenaLayout)
        ensures
            l == self.spec_layout(),
    {
        self.layout
    }

    /// Tears this system down. Taking it by value makes a second release impossible.
    pub fn release(self) -> (plan: Vec<NativeRelease>)
        ensures
            plan@ == self.teardown(),
    {
        let mut plan: Vec<NativeRelease> = Vec::new();
        if self.c_sys != 0 {
            plan.push(NativeRelease::Terminate { sys: self.c_sys });
        }
        if self.mem != 0 {
            plan.push(NativeRelease::FreeArena { mem: self.mem, layout: self.layout });
        }
        proof {
            assert(plan@ =~= self.teardown());
        }
        plan
    }
}

impl PartialEq for System {
    /// Two systems are the same when they hold the same context.
    fn eq(&self, other: &System) -> (r: bool) {
        self.c_sys == other.c_sys
    }
}

impl vstd::std_specs::cmp::PartialEqSpecImpl for System {
    open spec fn obeys_eq_spec() -> bool {
        true
    }

    open spec fn eq_spec(&self, other: &System) -> bool {
        self.spec_handle() == other.spec_handle()
    }
}

impl Eq for System {}

/// Drops one reference to a system: when it was the last, the system is torn down;
/// otherwise nothing is to be done.
pub fn release_system(sys: Rc<System>) -> (plan: Vec<NativeRelease>)
    ensures
        plan@.len() == 0 || plan@ == (*sys).teardown(),
{
    match Rc::try_unwrap(sys) {
        Ok(s) => s.release(),
        Err(_) => Vec::new(),
    }
}

} // verus!

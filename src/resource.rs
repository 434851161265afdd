//! Loaded resources: data blobs of a system, named by the engine.
use vstd::prelude::*;
use vstd::utf8::*;
use std::rc::Rc;
use crate::system::{release_system, NativeRelease, System, PICO_MAX_RESOURCE_NAME_SIZE};
use crate::text::{c_text, lemma_decoded_len_le, PicoString};

verus! {

/// A resource loaded into a system. It keeps its system alive, and its name, written
/// by the engine at load time, never changes.
#[derive(Debug)]
pub struct Resource {
    sys: Rc<System>,
    c_res: usize,
    c_name: PicoString,
}

/// The calls that unload a resource `res` from the context `sys`; none for a null handle.
pub open spec fn resource_steps(sys: usize, res: usize) -> Seq<NativeRelease> {
    if res != 0 {
        seq![NativeRelease::UnloadResource { sys, res }]
    } else {
        Seq::<NativeRelease>::empty()
    }
}

impl Resource {
    #[verifier::type_invariant]
    spec fn wf(&self) -> bool {
        self.c_name@.len() == PICO_MAX_RESOURCE_NAME_SIZE
    }

    pub closed spec fn spec_sys(&self) -> Rc<System> {
        self.sys
    }

    pub closed spec fn spec_handle(&self) -> usize {
        self.c_res
    }

    /// The buffer the engine wrote the name into.
    pub closed spec fn spec_name_buf(&self) -> Seq<u8> {
        self.c_name@
    }

    /// The calls that unload this resource.
    pub open spec fn teardown(&self) -> Seq<NativeRelease> {
        resource_steps((*self.spec_sys()).spec_handle(), self.spec_handle())
    }

    /// A buffer of the size the engine writes a resource name into.
    pub fn name_buffer() -> (s: PicoString)
        ensures
            s@.len() == PICO_MAX_RESOURCE_NAME_SIZE,
    {
        PicoString::new(PICO_MAX_RESOURCE_NAME_SIZE)
    }

    /// The resource `c_res` loaded into `sys`, whose name the engine wrote into `c_name`.
    pub fn new(sys: Rc<System>, c_res: usize, c_name: PicoString) -> (r: Resource)
        requires
            c_name@.len() == PICO_MAX_RESOURCE_NAME_SIZE,
        ensures
            r.spec_sys() == sys,
            r.spec_handle() == c_res,
            r.spec_name_buf() == c_name@,
    {
        Resource { sys, c_res, c_name }
    }

    /// The system that loaded this resource.
    pub fn sys(&self) -> (s: Rc<System>)
        ensures
            s == self.spec_sys(),
    {
        self.sys.clone()
    }

    /// The resource's name, as the engine wrote it, decoded as UTF-8. It holds at most
    /// `PICO_MAX_RESOURCE_NAME_SIZE` characters.
    pub fn name(&self) -> (r: Result<&str, core::str::Utf8Error>)
        ensures
            r is Ok <==> valid_utf8(c_text(self.spec_name_buf())),
            r matches Ok(s) ==> s@ == decode_utf8(c_text(self.spec_name_buf()))
                && s@.len() <= PICO_MAX_RESOURCE_NAME_SIZE,
    {
        proof {
            use_type_invariant(self);
        }
        let r = self.c_name.to_str();
        proof {
            if valid_utf8(c_text(self.c_name@)) {
                lemma_decoded_len_le(c_text(self.c_name@));
            }
        }
        r
    }

    /// The native resource handle.
    pub fn handle(&self) -> (h: usize)
        ensures
            h == self.spec_handle(),
    {
        self.c_res
    }

    /// Tears this resource down: it is unloaded while its system is still alive, then
    /// its reference to the system is dropped. Taking it by value makes a second
    /// unloading impossible.
    pub fn release(self) -> (plan: Vec<NativeRelease>)
        ensures
            plan@ == self.teardown() || plan@ == self.teardown() + (*self.spec_sys()).teardown(),
    {
        let ghost whole = self;
        let Resource { sys, c_res, c_name } = self;
        let mut plan: Vec<NativeRelease> = Vec::new();
        if c_res != 0 {
            plan.push(NativeRelease::UnloadResource { sys: sys.handle(), res: c_res });
        }
        assert(plan@ =~= whole.teardown());
        let mut rest = release_system(sys);
        plan.append(&mut rest);
        proof {
            if plan@.len() != whole.teardown().len() {
                assert(plan@ =~= whole.teardown() + (*whole.spec_sys()).teardown());
            } else {
                assert(plan@ =~= whole.teardown());
            }
        }
        plan
    }

    /// The name buffer, as handed to the engine when the resource is attached to a voice.
    pub fn native_name(&self) -> (s: &PicoString)
        ensures
            s@ == self.spec_name_buf(),
    {
        &self.c_name
    }
}

impl PartialEq for Resource {
    /// Two resources are the same when they are the same handle of the same context.
    fn eq(&self, other: &Resource) -> (r: bool) {
        self.sys.handle() == other.sys.handle() && self.c_res == other.c_res
    }
}

impl vstd::std_specs::cmp::PartialEqSpecImpl for Resource {
    open spec fn obeys_eq_spec() -> bool {
        true
    }

    open spec fn eq_spec(&self, other: &Resource) -> bool {
        (*self.spec_sys()).spec_handle() == (*other.spec_sys()).spec_handle()
            && self.spec_handle() == other.spec_handle()
    }
}

impl Eq for Resource {}

/// The calls that unload `c_res` from `sys` before any `Resource` holds it, as when
/// its name cannot be obtained after loading.
pub fn unload_steps(sys: &System, c_res: usize) -> (plan: Vec<NativeRelease>)
    ensures
        plan@ == resource_steps(sys.spec_handle(), c_res),
{
    let mut plan: Vec<NativeRelease> = Vec::new();
    if c_res != 0 {
        plan.push(NativeRelease::UnloadResource { sys: sys.handle(), res: c_res });
    }
    assert(plan@ =~= resource_steps(sys.spec_handle(), c_res));
    plan
}

/// What may come of dropping one reference to `res`: nothing, when others remain;
/// otherwise its unloading, followed by the teardown of its system when that was the
/// system's last reference.
pub open spec fn resource_plan_ok(plan: Seq<NativeRelease>, res: Resource) -> bool {
    ||| plan.len() == 0
    ||| plan == res.teardown()
    ||| plan == res.teardown() + (*res.spec_sys()).teardown()
}

/// Drops one reference to a resource: when it was the last, the resource is torn down
/// as `Resource::release` says; otherwise nothing is to be done.
pub fn release_resource(res: Rc<Resource>) -> (plan: Vec<NativeRelease>)
    ensures
        resource_plan_ok(plan@, *res),
{
    match Rc::try_unwrap(res) {
        Ok(r) => r.release(),
        Err(_) => Vec::new(),
    }
}

} // verus!

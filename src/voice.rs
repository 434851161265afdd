//! Voices: named aggregations of resources, from which engines are created.
use vstd::prelude::*;
use vstd::utf8::*;
use std::rc::Rc;
use crate::resource::{release_resource, resource_plan_ok, Resource};
use crate::status::{check_status, describes_message, PicoError, PICO_OK};
use crate::system::{release_system, NativeRelease, System};
use crate::text::{NativeString, PicoString};

verus! {

/// A voice definition registered with a system. It keeps its system alive, and every
/// resource attached to it; attaching is append-only.
#[derive(Debug)]
pub struct Voice {
    sys: Rc<System>,
    c_name: NativeString,
    resources: Vec<Rc<Resource>>,
}

/// The plans of several teardowns, one after the other.
pub open spec fn concat_plans(parts: Seq<Seq<NativeRelease>>) -> Seq<NativeRelease>
    decreases parts.len(),
{
    if parts.len() == 0 {
        Seq::<NativeRelease>::empty()
    } else {
        concat_plans(parts.drop_last()) + parts.last()
    }
}

impl Voice {
    pub closed spec fn spec_sys(&self) -> Rc<System> {
        self.sys
    }

    pub closed spec fn spec_name(&self) -> NativeString {
        self.c_name
    }

    /// The resources attached so far, in the order they were attached.
    pub closed spec fn spec_resources(&self) -> Seq<Rc<Resource>> {
        self.resources@
    }

    /// What dropping the voice may call: first the release of its definition, then,
    /// for each attached resource in turn, what dropping that reference calls, and last
    /// the teardown of its system when the voice held the last reference to it.
    pub open spec fn teardown_ok(&self, plan: Seq<NativeRelease>) -> bool {
        exists|parts: Seq<Seq<NativeRelease>>, tail: Seq<NativeRelease>|
            {
                &&& parts.len() == self.spec_resources().len()
                &&& forall|k: int|
                    0 <= k < parts.len() ==> resource_plan_ok(
                        #[trigger] parts[k],
                        *self.spec_resources()[k],
                    )
                &&& (tail.len() == 0 || tail == (*self.spec_sys()).teardown())
                &&& plan == seq![
                    NativeRelease::ReleaseVoice {
                        sys: (*self.spec_sys()).spec_handle(),
                        name: self.spec_name(),
                    },
                ] + concat_plans(parts) + tail
            }
    }

    /// Completes the creation of the voice `c_name` in `sys`, once the engine's
    /// registration of the name returned `code`. A new voice has no resources.
    pub fn create(sys: Rc<System>, c_name: NativeString, code: i32, message: &PicoString) -> (r:
        Result<Voice, PicoError>)
        ensures
            r is Ok <==> code == PICO_OK,
            r matches Ok(v) ==> v.spec_sys() == sys && v.spec_name() == c_name
                && v.spec_resources().len() == 0,
            r matches Err(e) ==> e.code == code && describes_message(e.descr@, message@),
    {
        match check_status(code, message) {
            Ok(()) => Ok(Voice { sys, c_name, resources: Vec::new() }),
            Err(e) => Err(e),
        }
    }

    /// The system that created this voice.
    pub fn sys(&self) -> (s: Rc<System>)
        ensures
            s == self.spec_sys(),
    {
        self.sys.clone()
    }

    /// The voice's name, decoded as UTF-8.
    pub fn name(&self) -> (r: Result<&str, core::str::Utf8Error>)
        ensures
            r is Ok <==> valid_utf8(self.spec_name()@),
            r matches Ok(s) ==> s@ == decode_utf8(self.spec_name()@),
    {
        self.c_name.to_str()
    }

    /// The name in the form handed to the engine.
    pub fn native_name(&self) -> (s: &NativeString)
        ensures
            *s == self.spec_name(),
    {
        &self.c_name
    }

    /// How many resources are attached.
    pub fn resource_count(&self) -> (n: usize)
        ensures
            n == self.spec_resources().len(),
    {
        self.resources.len()
    }

    /// Records the outcome of attaching `resource` to this voice, once the engine
    /// returned `code` for it. On success the voice keeps its own reference to the
    /// resource, which stays loaded at least as long as the voice; on failure the
    /// voice is unchanged. Attached resources are never removed.
    pub fn add_resource(&mut self, resource: Rc<Resource>, code: i32, message: &PicoString) -> (r:
        Result<(), PicoError>)
        ensures
            r is Ok <==> code == PICO_OK,
            r matches Err(e) ==> e.code == code && describes_message(e.descr@, message@),
            r is Ok ==> final(self).spec_resources() == old(self).spec_resources().push(resource),
            r is Err ==> final(self).spec_resources() == old(self).spec_resources(),
            final(self).spec_resources().len() >= old(self).spec_resources().len(),
            final(self).spec_resources().subrange(0, old(self).spec_resources().len() as int)
                == old(self).spec_resources(),
            final(self).spec_sys() == old(self).spec_sys(),
            final(self).spec_name() == old(self).spec_name(),
    {
        let r = check_status(code, message);
        if r.is_ok() {
            self.resources.push(resource);
        }
        proof {
            assert(final(self).spec_resources().subrange(0, old(self).spec_resources().len() as int)
                =~= old(self).spec_resources());
        }
        r
    }

    /// Tears this voice down: its definition is released while its system and
    /// resources are still alive, then its references to them are dropped.
    pub fn release(self) -> (plan: Vec<NativeRelease>)
        ensures
            self.teardown_ok(plan@),
    {
        let ghost whole = self;
        let Voice { sys, c_name, resources } = self;
        let mut plan: Vec<NativeRelease> = Vec::new();
        plan.push(NativeRelease::ReleaseVoice { sys: sys.handle(), name: c_name });
        let ghost first = plan@;
        assert(first =~= seq![
            NativeRelease::ReleaseVoice {
                sys: (*whole.spec_sys()).spec_handle(),
                name: whole.spec_name(),
            },
        ]);
        let ghost orig = resources@;
        let ghost mut parts: Seq<Seq<NativeRelease>> = Seq::empty();
        let mut rest = resources;
        while rest.len() > 0
            invariant
                parts.len() + rest@.len() == orig.len(),
                rest@ == orig.subrange(parts.len() as int, orig.len() as int),
                forall|k: int| 0 <= k < parts.len() ==> resource_plan_ok(#[trigger] parts[k], *orig[k]),
                plan@ == first + concat_plans(parts),
            decreases rest@.len(),
        {
            let r = rest.remove(0);
            let mut part = release_resource(r);
            proof {
                let next = parts.push(part@);
                assert(next.drop_last() =~= parts);
                assert(concat_plans(next) == concat_plans(parts) + part@);
                assert(first + concat_plans(next) =~= plan@ + part@);
                assert forall|k: int| 0 <= k < next.len() implies resource_plan_ok(#[trigger] next[k], *orig[k]) by {
                    if k < parts.len() {
                        assert(next[k] == parts[k]);
                    }
                }
                parts = next;
            }
            plan.append(&mut part);
            proof {
                assert(rest@ =~= orig.subrange(parts.len() as int, orig.len() as int));
            }
        }
        let mut tail = release_system(sys);
        let ghost tail_seq = tail@;
        plan.append(&mut tail);
        proof {
            assert(plan@ =~= first + concat_plans(parts) + tail_seq);
        }
        plan
    }
}

/// Whether `step` can come of dropping a reference to one of `resources`: it never
/// releases a voice definition, and an unloading it asks for is of one of them.
pub open spec fn step_of_resources(step: NativeRelease, resources: Seq<Rc<Resource>>) -> bool {
    &&& !(step is ReleaseVoice)
    &&& step is UnloadResource ==> exists|k: int|
        0 <= k < resources.len() && step == (*resources[k]).teardown()[0]
}

proof fn lemma_concat_steps(parts: Seq<Seq<NativeRelease>>, resources: Seq<Rc<Resource>>)
    requires
        parts.len() <= resources.len(),
        forall|k: int| 0 <= k < parts.len() ==> resource_plan_ok(#[trigger] parts[k], *resources[k]),
    ensures
        forall|i: int|
            0 <= i < concat_plans(parts).len() ==> step_of_resources(
                #[trigger] concat_plans(parts)[i],
                resources,
            ),
    decreases parts.len(),
{
    if parts.len() > 0 {
        let init = parts.drop_last();
        let k = parts.len() - 1;
        assert forall|j: int| 0 <= j < init.len() implies resource_plan_ok(#[trigger] init[j], *resources[j]) by {
            assert(init[j] == parts[j]);
        }
        lemma_concat_steps(init, resources);
        let last = parts.last();
        assert(resource_plan_ok(parts[k], *resources[k]));
        assert forall|i: int| 0 <= i < concat_plans(parts).len() implies step_of_resources(
            #[trigger] concat_plans(parts)[i],
            resources,
        ) by {
            let head = concat_plans(init);
            if i >= head.len() {
                let j = i - head.len();
                assert(concat_plans(parts)[i] == last[j]);
                let r = *resources[k];
                if j < r.teardown().len() {
                    assert(last[j] == r.teardown()[j]);
                } else {
                    assert(last[j] == (*r.spec_sys()).teardown()[j - r.teardown().len()]);
                }
            } else {
                assert(concat_plans(parts)[i] == head[i]);
            }
        }
    }
}

/// Dropping a voice releases its definition exactly once, before anything else, while
/// its system and resources are still alive; and every resource it unloads is one of
/// those attached to it.
pub proof fn lemma_voice_teardown_order(v: Voice, plan: Seq<NativeRelease>)
    requires
        v.teardown_ok(plan),
    ensures
        plan.len() >= 1,
        plan[0] == (NativeRelease::ReleaseVoice {
            sys: (*v.spec_sys()).spec_handle(),
            name: v.spec_name(),
        }),
        forall|i: int| 1 <= i < plan.len() ==> !(#[trigger] plan[i] is ReleaseVoice),
        forall|i: int|
            0 <= i < plan.len() && #[trigger] plan[i] is UnloadResource ==> exists|k: int|
                0 <= k < v.spec_resources().len() && plan[i] == (*v.spec_resources()[k]).teardown()[0],
{
    let (parts, tail) = choose|parts: Seq<Seq<NativeRelease>>, tail: Seq<NativeRelease>|
        {
            &&& parts.len() == v.spec_resources().len()
            &&& forall|k: int|
                0 <= k < parts.len() ==> resource_plan_ok(
                    #[trigger] parts[k],
                    *v.spec_resources()[k],
                )
            &&& (tail.len() == 0 || tail == (*v.spec_sys()).teardown())
            &&& plan == seq![
                NativeRelease::ReleaseVoice {
                    sys: (*v.spec_sys()).spec_handle(),
                    name: v.spec_name(),
                },
            ] + concat_plans(parts) + tail
        };
    lemma_concat_steps(parts, v.spec_resources());
    let mid = concat_plans(parts);
    assert forall|i: int| 1 <= i < plan.len() implies !(#[trigger] plan[i] is ReleaseVoice) by {
        if i < 1 + mid.len() {
            assert(plan[i] == mid[i - 1]);
            assert(step_of_resources(mid[i - 1], v.spec_resources()));
        } else {
            assert(plan[i] == tail[i - 1 - mid.len()]);
        }
    }
    assert forall|i: int|
        0 <= i < plan.len() && #[trigger] plan[i] is UnloadResource implies exists|k: int|
            0 <= k < v.spec_resources().len() && plan[i] == (*v.spec_resources()[k]).teardown()[0] by {
        if 1 <= i < 1 + mid.len() {
            assert(plan[i] == mid[i - 1]);
            assert(step_of_resources(mid[i - 1], v.spec_resources()));
        } else if i >= 1 + mid.len() {
            assert(plan[i] == tail[i - 1 - mid.len()]);
        }
    }
}

impl PartialEq for Voice {
    /// Two voices are the same when they are the same name in the same context.
    fn eq(&self, other: &Voice) -> (r: bool) {
        self.sys.handle() == other.sys.handle() && self.c_name == other.c_name
    }
}

impl vstd::std_specs::cmp::PartialEqSpecImpl for Voice {
    open spec fn obeys_eq_spec() -> bool {
        true
    }

    open spec fn eq_spec(&self, other: &Voice) -> bool {
        (*self.spec_sys()).spec_handle() == (*other.spec_sys()).spec_handle()
            && self.spec_name()@ == other.spec_name()@
    }
}

impl Eq for Voice {}

} // verus!

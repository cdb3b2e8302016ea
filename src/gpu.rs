use vstd::prelude::*;

use crate::program::{
    compiled_handles, lemma_teardown_leaves_nothing_compiled, without_compiled, ProgramId,
    ProgramManager, ProgramState,
};

verus! {

/// A GPU object, by its kind and the handle that the driver gave out for it.
#[derive(Debug, Clone, Copy, PartialEq, Eq, Structural)]
pub enum GpuObject {
    VertexArray(u32),
    Buffer(u32),
    Renderbuffer(u32),
    Program(u32),
}

/// The renderbuffer that holds per-pixel depth, and the size it was made with.
#[derive(Debug, Clone, Copy, PartialEq, Eq, Structural)]
pub struct DepthBuffer {
    pub handle: u32,
    pub width: i32,
    pub height: i32,
}

/// What a frame has to do about the depth buffer before it draws.
#[derive(Debug, Clone, Copy, PartialEq, Eq, Structural)]
pub enum DepthBufferAction {
    /// The depth buffer matches the viewport: draw with it.
    Keep,
    /// Delete the renderbuffer `release`, if there is one, create one of
    /// `width` by `height` and hand it to `RenderResources::attach_depth_buffer`.
    Recreate { release: Option<u32>, width: i32, height: i32 },
}

/// The GPU objects that a renderer owns, as values.
pub struct ResourcesView {
    pub depth_buffer: Option<DepthBuffer>,
    pub objects: Seq<GpuObject>,
}

/// Each object is owned once: no object is tracked twice, the depth buffer
/// is not among the other objects, and programs are left to the program
/// cache, which owns them.
pub open spec fn well_formed(v: ResourcesView) -> bool {
    &&& v.objects.no_duplicates()
    &&& forall|i: int| 0 <= i < v.objects.len() ==> !(v.objects[i] is Program)
    &&& (v.depth_buffer matches Some(d) ==> !v.objects.contains(GpuObject::Renderbuffer(d.handle)))
}

/// The depth buffer, as the object it is, if there is one.
pub open spec fn depth_objects(depth_buffer: Option<DepthBuffer>) -> Seq<GpuObject> {
    match depth_buffer {
        Some(d) => seq![GpuObject::Renderbuffer(d.handle)],
        None => Seq::empty(),
    }
}

/// Program handles as GPU objects.
pub open spec fn program_objects(handles: Seq<u32>) -> Seq<GpuObject> {
    handles.map_values(|h: u32| GpuObject::Program(h))
}

/// What a teardown releases, in order: the compiled programs of the cache,
/// the depth buffer, then the objects of the drawables.
pub open spec fn released(v: ResourcesView, programs: Map<ProgramId, ProgramState>) -> Seq<GpuObject> {
    program_objects(compiled_handles(programs)) + depth_objects(v.depth_buffer) + v.objects
}

/// Tracks the GPU objects that a renderer owns, so that each is released
/// exactly once when the renderer is torn down, and keeps its depth buffer
/// in step with the viewport.
pub struct RenderResources {
    depth_buffer: Option<DepthBuffer>,
    objects: Vec<GpuObject>,
}

impl View for RenderResources {
    type V = ResourcesView;

    closed spec fn view(&self) -> ResourcesView {
        ResourcesView { depth_buffer: self.depth_buffer, objects: self.objects@ }
    }
}

impl RenderResources {
    /// Owns nothing yet.
    pub fn new() -> (r: Self)
        ensures
            r@.depth_buffer is None,
            r@.objects == Seq::<GpuObject>::empty(),
            well_formed(r@),
    {
        RenderResources { depth_buffer: None, objects: Vec::new() }
    }

    /// Whether `object` is owned here, the depth buffer included.
    pub fn owns(&self, object: GpuObject) -> (r: bool)
        ensures
            r == (self@.objects.contains(object) || depth_objects(self@.depth_buffer).contains(
                object,
            )),
    {
        if let Some(d) = self.depth_buffer {
            if object == GpuObject::Renderbuffer(d.handle) {
                assert(depth_objects(self@.depth_buffer)[0] == object);
                return true;
            }
        }
        let mut i: usize = 0;
        while i < self.objects.len()
            invariant
                i <= self.objects@.len(),
                forall|j: int| 0 <= j < i ==> self.objects@[j] != object,
            decreases self.objects@.len() - i,
        {
            if self.objects[i] == object {
                return true;
            }
            i = i + 1;
        }
        false
    }

    /// Takes ownership of `object`. Returns whether it was taken: an object
    /// that is owned already is not taken twice, and programs belong to the
    /// program cache.
    pub fn track(&mut self, object: GpuObject) -> (r: bool)
        requires
            well_formed(old(self)@),
        ensures
            well_formed(final(self)@),
            r == !(object is Program || old(self)@.objects.contains(object) || depth_objects(
                old(self)@.depth_buffer,
            ).contains(object)),
            final(self)@.depth_buffer == old(self)@.depth_buffer,
            final(self)@.objects == (if r {
                old(self)@.objects.push(object)
            } else {
                old(self)@.objects
            }),
    {
        if let GpuObject::Program(_) = object {
            return false;
        }
        if self.owns(object) {
            return false;
        }
        self.objects.push(object);
        proof {
            if let Some(d) = self.depth_buffer {
                assert(depth_objects(self@.depth_buffer)[0] == GpuObject::Renderbuffer(d.handle));
                assert(self@.objects.last() == object);
            }
        }
        true
    }

    /// Decides what the depth buffer needs before a frame is drawn into a
    /// viewport of `width` by `height`. One of that size is kept. Otherwise
    /// the current one, if any, is given up, and a new one is asked for.
    pub fn ensure_depth_buffer(&mut self, width: i32, height: i32) -> (r: DepthBufferAction)
        requires
            well_formed(old(self)@),
        ensures
            well_formed(final(self)@),
            final(self)@.objects == old(self)@.objects,
            match old(self)@.depth_buffer {
                Some(d) => if d.width == width && d.height == height {
                    r == DepthBufferAction::Keep && final(self)@.depth_buffer == old(self)@.depth_buffer
                } else {
                    r == (DepthBufferAction::Recreate { release: Some(d.handle), width, height })
                        && final(self)@.depth_buffer is None
                },
                None => r == (DepthBufferAction::Recreate { release: None, width, height })
                    && final(self)@.depth_buffer is None,
            },
    {
        match self.depth_buffer {
            Some(d) => {
                if d.width == width && d.height == height {
                    DepthBufferAction::Keep
                } else {
                    self.depth_buffer = None;
                    DepthBufferAction::Recreate { release: Some(d.handle), width, height }
                }
            },
            None => DepthBufferAction::Recreate { release: None, width, height },
        }
    }

    /// Takes a new depth buffer, the renderbuffer `handle` of `width` by
    /// `height`. Returns whether it was taken: at most one depth buffer is
    /// owned at a time, and an object that is owned already is not taken
    /// twice.
    pub fn attach_depth_buffer(&mut self, handle: u32, width: i32, height: i32) -> (r: bool)
        requires
            well_formed(old(self)@),
        ensures
            well_formed(final(self)@),
            r == (old(self)@.depth_buffer is None && !old(self)@.objects.contains(
                GpuObject::Renderbuffer(handle),
            )),
            final(self)@.objects == old(self)@.objects,
            final(self)@.depth_buffer == (if r {
                Some(DepthBuffer { handle, width, height })
            } else {
                old(self)@.depth_buffer
            }),
    {
        if self.depth_buffer.is_some() || self.owns(GpuObject::Renderbuffer(handle)) {
            return false;
        }
        self.depth_buffer = Some(DepthBuffer { handle, width, height });
        true
    }

    /// Tears the renderer's GPU state down: takes the compiled programs out
    /// of `programs`, and gives up the depth buffer and every tracked
    /// object. Returns all of them, for the caller to delete, in the order
    /// `released` gives.
    pub fn destroy(&mut self, programs: &mut ProgramManager) -> (r: Vec<GpuObject>)
        requires
            well_formed(old(self)@),
            old(programs).wf(),
        ensures
            r@ == released(old(self)@, old(programs)@),
            final(self)@.depth_buffer is None,
            final(self)@.objects == Seq::<GpuObject>::empty(),
            well_formed(final(self)@),
            final(programs).wf(),
            final(programs)@ == without_compiled(old(programs)@),
    {
        let ghost before = self@;
        let handles = programs.delete_all_program();
        let mut out: Vec<GpuObject> = Vec::new();
        let mut i: usize = 0;
        while i < handles.len()
            invariant
                i <= handles@.len(),
                out@ == program_objects(handles@.take(i as int)),
            decreases handles@.len() - i,
        {
            out.push(GpuObject::Program(handles[i]));
            i = i + 1;
            assert(out@ =~= program_objects(handles@.take(i as int)));
        }
        assert(handles@.take(handles@.len() as int) =~= handles@);
        if let Some(d) = self.depth_buffer.take() {
            out.push(GpuObject::Renderbuffer(d.handle));
        }
        assert(out@ =~= program_objects(handles@) + depth_objects(before.depth_buffer));
        out.append(&mut self.objects);
        assert(out@ =~= released(before, old(programs)@));
        assert(self@.objects =~= Seq::<GpuObject>::empty());
        out
    }
}

/// A teardown releases every object that the renderer and its program cache
/// own exactly once: nothing it returns comes twice, provided the driver's
/// program handles are distinct, as live handles are. After it, nothing is
/// owned any more, so a second teardown releases nothing.
pub proof fn lemma_destroy_releases_once(v: ResourcesView, programs: Map<ProgramId, ProgramState>)
    requires
        well_formed(v),
        compiled_handles(programs).no_duplicates(),
    ensures
        released(v, programs).no_duplicates(),
        released(
            ResourcesView { depth_buffer: None, objects: Seq::empty() },
            without_compiled(programs),
        ) == Seq::<GpuObject>::empty(),
{
    let handles = compiled_handles(programs);
    let progs = program_objects(handles);
    let depth = depth_objects(v.depth_buffer);
    let all = released(v, programs);
    assert(progs.no_duplicates()) by {
        assert forall|i: int, j: int| 0 <= i < j < progs.len() implies progs[i] != progs[j] by {
            assert(handles[i] != handles[j]);
        }
    }
    assert forall|i: int, j: int| 0 <= i < j < all.len() implies all[i] != all[j] by {
        let np = progs.len() as int;
        let nd = depth.len() as int;
        if j < np {
        } else if j < np + nd {
            assert(all[j] is Renderbuffer);
        } else {
            assert(all[j] == v.objects[j - np - nd]);
            assert(!(all[j] is Program));
            if i >= np + nd {
                assert(all[i] == v.objects[i - np - nd]);
            } else if i >= np {
                assert(v.objects.contains(all[j]));
            }
        }
    }
    lemma_teardown_leaves_nothing_compiled(programs);
    assert(released(
        ResourcesView { depth_buffer: None, objects: Seq::empty() },
        without_compiled(programs),
    ) =~= Seq::<GpuObject>::empty());
}

} // verus!

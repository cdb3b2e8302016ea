use vstd::prelude::*;

verus! {

/// Names a shader program of the cache.
#[derive(Debug, Clone, Copy, PartialEq, Eq, Hash, Structural)]
pub enum ProgramId {
    Unknown,
    Default,
    DrawableLine,
    DrawableArrow,
}

/// How many programs the cache has room for: one per `ProgramId`.
pub const PROGRAM_SLOTS: usize = 4;

/// The program that stands at `slot` of the cache.
pub open spec fn id_at(slot: int) -> ProgramId {
    if slot == 0 {
        ProgramId::Unknown
    } else if slot == 1 {
        ProgramId::Default
    } else if slot == 2 {
        ProgramId::DrawableLine
    } else {
        ProgramId::DrawableArrow
    }
}

impl ProgramId {
    /// The place of this program in the cache.
    pub open spec fn slot(self) -> int {
        match self {
            ProgramId::Unknown => 0,
            ProgramId::Default => 1,
            ProgramId::DrawableLine => 2,
            ProgramId::DrawableArrow => 3,
        }
    }

    /// The name of the program: the name of its variant.
    pub open spec fn spec_name(self) -> Seq<char> {
        match self {
            ProgramId::Unknown => "Unknown"@,
            ProgramId::Default => "Default"@,
            ProgramId::DrawableLine => "DrawableLine"@,
            ProgramId::DrawableArrow => "DrawableArrow"@,
        }
    }

    fn slot_index(&self) -> (r: usize)
        ensures
            r == self.slot(),
    {
        match self {
            ProgramId::Unknown => 0,
            ProgramId::Default => 1,
            ProgramId::DrawableLine => 2,
            ProgramId::DrawableArrow => 3,
        }
    }

    /// The name of the program, as diagnostics print it.
    pub fn name(&self) -> (r: &'static str)
        ensures
            r@ == self.spec_name(),
    {
        match self {
            ProgramId::Unknown => "Unknown",
            ProgramId::Default => "Default",
            ProgramId::DrawableLine => "DrawableLine",
            ProgramId::DrawableArrow => "DrawableArrow",
        }
    }
}

proof fn lemma_id_slot(slot: int)
    requires
        0 <= slot < PROGRAM_SLOTS,
    ensures
        id_at(slot).slot() == slot,
{
}

proof fn lemma_slot_id(id: ProgramId)
    ensures
        0 <= id.slot() < PROGRAM_SLOTS,
        id_at(id.slot()) == id,
{
}

/// What the cache holds for one program, as a value.
pub enum ProgramState {
    /// Not compiled yet: the sources of its two stages.
    Source { vert_shader: Seq<char>, frag_shader: Seq<char> },
    /// Compiled and linked: the driver's handle of the program.
    Compiled(u32),
}

/// What the cache holds for one program.
pub enum ManagedProgram {
    Raw { vert_shader: String, frag_shader: String },
    Compiled(u32),
}

impl ManagedProgram {
    pub open spec fn state(self) -> ProgramState {
        match self {
            ManagedProgram::Raw { vert_shader, frag_shader } => ProgramState::Source {
                vert_shader: vert_shader@,
                frag_shader: frag_shader@,
            },
            ManagedProgram::Compiled(handle) => ProgramState::Compiled(handle),
        }
    }
}

/// The answer of a cache lookup.
pub enum ProgramLookup {
    /// No program is registered under the id.
    NotFound,
    /// The program is compiled: its handle.
    Ready(u32),
    /// The program is registered but not compiled: the sources to compile,
    /// after which the handle is handed to `ProgramManager::install`.
    Compile { vert_shader: String, frag_shader: String },
}

/// A cache of shader programs, each compiled at most once, on first request.
pub struct ProgramManager {
    slots: Vec<Option<ManagedProgram>>,
}

impl View for ProgramManager {
    type V = Map<ProgramId, ProgramState>;

    closed spec fn view(&self) -> Map<ProgramId, ProgramState> {
        Map::new(
            |id: ProgramId| self.slots@[id.slot()] is Some,
            |id: ProgramId| self.slots@[id.slot()]->Some_0.state(),
        )
    }
}

/// The cache after `vert_shader` and `frag_shader` are registered under `id`;
/// an id that is registered already keeps what it has.
pub open spec fn registered(
    m: Map<ProgramId, ProgramState>,
    id: ProgramId,
    vert_shader: Seq<char>,
    frag_shader: Seq<char>,
) -> Map<ProgramId, ProgramState> {
    if m.contains_key(id) {
        m
    } else {
        m.insert(id, ProgramState::Source { vert_shader, frag_shader })
    }
}

/// The cache after a compiled `program` is offered for `id`: it is taken
/// only where `id` waits for its first compile.
pub open spec fn installed(m: Map<ProgramId, ProgramState>, id: ProgramId, program: u32) -> Map<
    ProgramId,
    ProgramState,
> {
    if m.contains_key(id) && m[id] is Source {
        m.insert(id, ProgramState::Compiled(program))
    } else {
        m
    }
}

/// The handles of the compiled programs among the first `count` slots, in
/// slot order.
pub open spec fn compiled_upto(m: Map<ProgramId, ProgramState>, count: int) -> Seq<u32>
    decreases count,
{
    if count <= 0 {
        Seq::empty()
    } else {
        let id = id_at(count - 1);
        let earlier = compiled_upto(m, count - 1);
        if m.contains_key(id) && m[id] is Compiled {
            earlier.push(m[id]->Compiled_0)
        } else {
            earlier
        }
    }
}

/// The handles of all compiled programs of the cache, in slot order.
pub open spec fn compiled_handles(m: Map<ProgramId, ProgramState>) -> Seq<u32> {
    compiled_upto(m, PROGRAM_SLOTS as int)
}

/// The cache once its compiled programs are gone: only the programs that
/// were never compiled remain, with their sources.
pub open spec fn without_compiled(m: Map<ProgramId, ProgramState>) -> Map<ProgramId, ProgramState> {
    Map::new(|id: ProgramId| m.contains_key(id) && m[id] is Source, |id: ProgramId| m[id])
}

/// A change that the cache goes through while programs are requested.
pub enum ProgramChange {
    Register { id: ProgramId, vert_shader: Seq<char>, frag_shader: Seq<char> },
    Install { id: ProgramId, program: u32 },
}

/// The cache after one change.
pub open spec fn changed(m: Map<ProgramId, ProgramState>, change: ProgramChange) -> Map<
    ProgramId,
    ProgramState,
> {
    match change {
        ProgramChange::Register { id, vert_shader, frag_shader } => registered(
            m,
            id,
            vert_shader,
            frag_shader,
        ),
        ProgramChange::Install { id, program } => installed(m, id, program),
    }
}

/// The cache after a run of changes, in order.
pub open spec fn changed_all(m: Map<ProgramId, ProgramState>, changes: Seq<ProgramChange>) -> Map<
    ProgramId,
    ProgramState,
>
    decreases changes.len(),
{
    if changes.len() == 0 {
        m
    } else {
        changed_all(changed(m, changes[0]), changes.drop_first())
    }
}

/// A program is compiled at most once: once the cache holds a handle for
/// it, the handle stays through any run of registrations and installs, from
/// however many callers, so every later lookup hands that handle back and
/// none asks for a compile again.
pub proof fn lemma_compiled_once(
    m: Map<ProgramId, ProgramState>,
    id: ProgramId,
    handle: u32,
    changes: Seq<ProgramChange>,
)
    requires
        m.contains_key(id),
        m[id] == ProgramState::Compiled(handle),
    ensures
        changed_all(m, changes).contains_key(id),
        changed_all(m, changes)[id] == ProgramState::Compiled(handle),
    decreases changes.len(),
{
    if changes.len() > 0 {
        lemma_compiled_once(changed(m, changes[0]), id, handle, changes.drop_first());
    }
}

proof fn lemma_nothing_compiled_upto(m: Map<ProgramId, ProgramState>, count: int)
    ensures
        compiled_upto(without_compiled(m), count) == Seq::<u32>::empty(),
    decreases count,
{
    if count > 0 {
        lemma_nothing_compiled_upto(m, count - 1);
    }
}

/// After a teardown the cache holds no compiled program, so a second
/// teardown hands back no handle.
pub proof fn lemma_teardown_leaves_nothing_compiled(m: Map<ProgramId, ProgramState>)
    ensures
        compiled_handles(without_compiled(m)) == Seq::<u32>::empty(),
{
    lemma_nothing_compiled_upto(m, PROGRAM_SLOTS as int);
}

impl ProgramManager {
    /// The cache has one slot per program id.
    pub closed spec fn wf(self) -> bool {
        self.slots@.len() == PROGRAM_SLOTS
    }

    /// An empty cache.
    pub fn new() -> (r: Self)
        ensures
            r.wf(),
            r@ == Map::<ProgramId, ProgramState>::empty(),
    {
        let mut slots: Vec<Option<ManagedProgram>> = Vec::new();
        let mut i: usize = 0;
        while i < PROGRAM_SLOTS
            invariant
                i <= PROGRAM_SLOTS,
                slots@.len() == i,
                forall|j: int| 0 <= j < i ==> slots@[j] is None,
            decreases PROGRAM_SLOTS - i,
        {
            slots.push(None);
            i = i + 1;
        }
        let r = ProgramManager { slots };
        assert(r@ =~= Map::<ProgramId, ProgramState>::empty());
        r
    }

    /// Registers the sources of a program under `id`. Returns whether they
    /// were taken: an id that is registered already keeps what it has.
    pub fn register(&mut self, id: ProgramId, vert_shader: String, frag_shader: String) -> (r: bool)
        requires
            old(self).wf(),
        ensures
            final(self).wf(),
            r == !old(self)@.contains_key(id),
            final(self)@ == registered(old(self)@, id, vert_shader@, frag_shader@),
    {
        let i = id.slot_index();
        if self.slots[i].is_some() {
            return false;
        }
        let ghost before = self@;
        self.slots.set(i, Some(ManagedProgram::Raw { vert_shader, frag_shader }));
        assert(self@ =~= registered(before, id, vert_shader@, frag_shader@));
        true
    }

    /// Looks `id` up. A compiled program comes back as its handle; one that
    /// waits for its first compile comes back as its sources.
    pub fn get_program(&self, id: ProgramId) -> (r: ProgramLookup)
        requires
            self.wf(),
        ensures
            match r {
                ProgramLookup::NotFound => !self@.contains_key(id),
                ProgramLookup::Ready(handle) => self@.contains_key(id) && self@[id]
                    == ProgramState::Compiled(handle),
                ProgramLookup::Compile { vert_shader, frag_shader } => self@.contains_key(id)
                    && self@[id] == (ProgramState::Source {
                    vert_shader: vert_shader@,
                    frag_shader: frag_shader@,
                }),
            },
    {
        let i = id.slot_index();
        match &self.slots[i] {
            None => ProgramLookup::NotFound,
            Some(ManagedProgram::Compiled(handle)) => ProgramLookup::Ready(*handle),
            Some(ManagedProgram::Raw { vert_shader, frag_shader }) => ProgramLookup::Compile {
                vert_shader: vert_shader.clone(),
                frag_shader: frag_shader.clone(),
            },
        }
    }

    /// Offers the handle of a freshly compiled `program` for `id`. It is
    /// taken where `id` waits for its first compile; a program that is
    /// compiled already keeps its handle. Returns the handle that the cache
    /// holds for `id` afterwards, or `None` where `id` is not registered: a
    /// caller whose `program` was not taken owns it and should delete it.
    pub fn install(&mut self, id: ProgramId, program: u32) -> (r: Option<u32>)
        requires
            old(self).wf(),
        ensures
            final(self).wf(),
            final(self)@ == installed(old(self)@, id, program),
            r == (if old(self)@.contains_key(id) {
                Some(final(self)@[id]->Compiled_0)
            } else {
                None
            }),
            old(self)@.contains_key(id) ==> final(self)@[id] is Compiled,
    {
        let i = id.slot_index();
        let ghost before = self@;
        match &self.slots[i] {
            None => None,
            Some(ManagedProgram::Compiled(handle)) => Some(*handle),
            Some(ManagedProgram::Raw { .. }) => {
                self.slots.set(i, Some(ManagedProgram::Compiled(program)));
                assert(self@ =~= installed(before, id, program));
                Some(program)
            },
        }
    }

    /// Takes every compiled program out of the cache and returns their
    /// handles, in slot order, for the caller to delete. Programs that were
    /// never compiled stay, with their sources.
    pub fn delete_all_program(&mut self) -> (r: Vec<u32>)
        requires
            old(self).wf(),
        ensures
            final(self).wf(),
            r@ == compiled_handles(old(self)@),
            final(self)@ == without_compiled(old(self)@),
    {
        let ghost before = self@;
        let mut handles: Vec<u32> = Vec::new();
        let mut i: usize = 0;
        while i < PROGRAM_SLOTS
            invariant
                self.wf(),
                i <= PROGRAM_SLOTS,
                handles@ == compiled_upto(before, i as int),
                old(self).wf(),
                before == old(self)@,
                forall|j: int|
                    0 <= j < i ==> self.slots@[j] == (if old(self).slots@[j] is Some
                        && old(self).slots@[j]->Some_0 is Compiled {
                        None
                    } else {
                        old(self).slots@[j]
                    }),
                forall|j: int| i <= j < PROGRAM_SLOTS ==> self.slots@[j] == old(self).slots@[j],
            decreases PROGRAM_SLOTS - i,
        {
            proof {
                lemma_id_slot(i as int);
            }
            if let Some(ManagedProgram::Compiled(handle)) = &self.slots[i] {
                handles.push(*handle);
                self.slots.set(i, None);
            }
            i = i + 1;
        }
        proof {
            assert forall|id: ProgramId| #[trigger] self@.contains_key(id) == without_compiled(before).contains_key(id) by {
                lemma_slot_id(id);
            }
        }
        assert(self@ =~= without_compiled(before));
        handles
    }
}

} // verus!

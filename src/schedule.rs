//! The staged scheduler: named stages run in the order they were added, and
//! each stage runs its systems in the order they were added to it.
use vstd::prelude::*;

verus! {

/// The stages of the runtime: `Startup` once when play begins, then
/// `PreUpdate`, `Update` and `PostUpdate` on every frame.
#[derive(Clone, Copy, Debug, PartialEq, Eq, Structural)]
pub enum CoreStage {
    Startup,
    PreUpdate,
    Update,
    PostUpdate,
}

/// A system a schedule can hold: one of the built-in ones, or a user system
/// known by the number its module gave it.
#[derive(Clone, Copy, Debug, PartialEq, Eq, Structural)]
pub enum SystemKind {
    RegisterActors,
    UpdateInput,
    DownloadTransform,
    UploadTransform,
    User(u64),
}

/// An ordered set of stages, each with an ordered list of systems.
pub struct Schedule {
    stages: Vec<CoreStage>,
    startup: Vec<SystemKind>,
    pre_update: Vec<SystemKind>,
    update: Vec<SystemKind>,
    post_update: Vec<SystemKind>,
}

/// The systems of `stages`, stage after stage.
pub open spec fn run_order_of(stages: Seq<CoreStage>, of: spec_fn(CoreStage) -> Seq<SystemKind>) -> Seq<SystemKind>
    decreases stages.len(),
{
    if stages.len() == 0 {
        Seq::empty()
    } else {
        run_order_of(stages.drop_last(), of) + of(stages.last())
    }
}

impl Schedule {
    /// The stages, in the order they run.
    pub closed spec fn spec_stages(&self) -> Seq<CoreStage> {
        self.stages@
    }

    /// The systems of the stage `label`, in the order they run.
    pub closed spec fn spec_systems(&self, label: CoreStage) -> Seq<SystemKind> {
        match label {
            CoreStage::Startup => self.startup@,
            CoreStage::PreUpdate => self.pre_update@,
            CoreStage::Update => self.update@,
            CoreStage::PostUpdate => self.post_update@,
        }
    }

    /// Every system of the schedule, in the order one run executes them.
    pub open spec fn spec_run_order(&self) -> Seq<SystemKind> {
        run_order_of(self.spec_stages(), |l: CoreStage| self.spec_systems(l))
    }

    pub open spec fn wf(&self) -> bool {
        self.spec_stages().no_duplicates()
    }

    /// A schedule with no stage.
    pub fn new() -> (r: Self)
        ensures
            r.wf(),
            r.spec_stages() == Seq::<CoreStage>::empty(),
            forall|l: CoreStage| r.spec_systems(l) == Seq::<SystemKind>::empty(),
    {
        Schedule {
            stages: Vec::new(),
            startup: Vec::new(),
            pre_update: Vec::new(),
            update: Vec::new(),
            post_update: Vec::new(),
        }
    }

    /// Whether the schedule has the stage `label`.
    pub fn has_stage(&self, label: CoreStage) -> (r: bool)
        ensures
            r == self.spec_stages().contains(label),
    {
        let mut i: usize = 0;
        while i < self.stages.len()
            invariant
                i <= self.stages@.len(),
                forall|j: int| 0 <= j < i ==> self.stages@[j] != label,
            decreases self.stages@.len() - i,
        {
            if self.stages[i] == label {
                return true;
            }
            i = i + 1;
        }
        false
    }

    /// Appends the stage `label`, which runs after all present stages.
    pub fn add_stage(&mut self, label: CoreStage)
        requires
            old(self).wf(),
            !old(self).spec_stages().contains(label),
            old(self).spec_systems(label) == Seq::<SystemKind>::empty(),
        ensures
            final(self).wf(),
            final(self).spec_stages() == old(self).spec_stages().push(label),
            forall|l: CoreStage| final(self).spec_systems(l) == old(self).spec_systems(l),
    {
        self.stages.push(label);
    }

    /// Appends `system` to the stage `label`, after the systems already there.
    pub fn add_system_to_stage(&mut self, label: CoreStage, system: SystemKind)
        requires
            old(self).wf(),
            old(self).spec_stages().contains(label),
        ensures
            final(self).wf(),
            final(self).spec_stages() == old(self).spec_stages(),
            final(self).spec_systems(label) == old(self).spec_systems(label).push(system),
            forall|l: CoreStage|
                l != label ==> final(self).spec_systems(l) == old(self).spec_systems(l),
    {
        match label {
            CoreStage::Startup => self.startup.push(system),
            CoreStage::PreUpdate => self.pre_update.push(system),
            CoreStage::Update => self.update.push(system),
            CoreStage::PostUpdate => self.post_update.push(system),
        }
    }

    /// The systems of the stage `label`, in order.
    pub fn systems(&self, label: CoreStage) -> (r: &Vec<SystemKind>)
        ensures
            r@ == self.spec_systems(label),
    {
        match label {
            CoreStage::Startup => &self.startup,
            CoreStage::PreUpdate => &self.pre_update,
            CoreStage::Update => &self.update,
            CoreStage::PostUpdate => &self.post_update,
        }
    }

    /// Every system of the schedule, in the order one run executes them.
    pub fn run_order(&self) -> (r: Vec<SystemKind>)
        ensures
            r@ == self.spec_run_order(),
    {
        let mut r: Vec<SystemKind> = Vec::new();
        let mut i: usize = 0;
        while i < self.stages.len()
            invariant
                i <= self.stages@.len(),
                r@ == run_order_of(self.stages@.take(i as int), |l: CoreStage| self.spec_systems(l)),
            decreases self.stages@.len() - i,
        {
            let systems = self.systems(self.stages[i]);
            let mut j: usize = 0;
            let ghost before = r@;
            while j < systems.len()
                invariant
                    j <= systems@.len(),
                    r@ == before + systems@.take(j as int),
                decreases systems@.len() - j,
            {
                r.push(systems[j]);
                j = j + 1;
                assert(r@ =~= before + systems@.take(j as int));
            }
            assert(systems@.take(j as int) =~= systems@);
            assert(self.stages@.take(i + 1).drop_last() =~= self.stages@.take(i as int));
            i = i + 1;
        }
        assert(self.stages@.take(i as int) =~= self.stages@);
        r
    }
}

/// The user systems of `systems` bound for the stage `label`, in order.
pub open spec fn user_systems_in(systems: Seq<(CoreStage, u64)>, label: CoreStage) -> Seq<SystemKind>
    decreases systems.len(),
{
    if systems.len() == 0 {
        Seq::empty()
    } else if systems.last().0 == label {
        user_systems_in(systems.drop_last(), label).push(SystemKind::User(systems.last().1))
    } else {
        user_systems_in(systems.drop_last(), label)
    }
}

} // verus!

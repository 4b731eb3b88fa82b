//! Tasks and their planning: a task is a sequence of stages, and planning
//! fills in what a stage leaves open.

use vstd::prelude::*;
use vstd::string::StringExecFns;
use crate::sandbox::{is_map, RunOptions, RunOptionsView};
use crate::text::{copy_pairs, copy_str, copy_strings, decimal, decimal_text};

verus! {

/// What a planned stage is run with.
pub type StageSpec = RunOptions;

/// Stage specification. What a stage leaves open is taken from the task's
/// defaults.
#[derive(Debug)]
pub struct Stage {
    pub name: Option<String>,
    pub image: Option<String>,
    pub extend: Option<Vec<String>>,
    pub workdir: Option<String>,
    pub script: Option<Vec<String>>,
    pub envs: Option<Vec<(String, String)>>,
}

/// What a [`Stage`] holds, with texts as sequences of characters.
pub struct StageView {
    pub name: Option<Seq<char>>,
    pub image: Option<Seq<char>>,
    pub extend: Option<Seq<Seq<char>>>,
    pub workdir: Option<Seq<char>>,
    pub script: Option<Seq<Seq<char>>>,
    pub envs: Option<Seq<(Seq<char>, Seq<char>)>>,
}

impl StageView {
    /// The environment, where there is one, is the entries of a map.
    pub open spec fn wf(self) -> bool {
        self.envs matches Some(envs) ==> is_map(envs)
    }

    /// The stage that leaves everything open.
    pub open spec fn empty() -> StageView {
        StageView {
            name: None,
            image: None,
            extend: None,
            workdir: None,
            script: None,
            envs: None,
        }
    }
}

impl View for Stage {
    type V = StageView;

    open spec fn view(&self) -> StageView {
        StageView {
            name: self.name.deep_view(),
            image: self.image.deep_view(),
            extend: self.extend.deep_view(),
            workdir: self.workdir.deep_view(),
            script: self.script.deep_view(),
            envs: self.envs.deep_view(),
        }
    }
}

impl DeepView for Stage {
    type V = StageView;

    open spec fn deep_view(&self) -> StageView {
        self@
    }
}

impl Default for Stage {
    fn default() -> (r: Self)
        ensures
            r@ == StageView::empty(),
    {
        Stage { name: None, image: None, extend: None, workdir: None, script: None, envs: None }
    }
}

/// Task specification: the stages, the assets by their place in the asset
/// directory, the mounts by their place in the container, and the defaults
/// for what a stage leaves open.
#[derive(Debug)]
pub struct Task {
    pub stages: Option<Vec<Stage>>,
    pub assets: Option<Vec<(String, String)>>,
    pub mounts: Option<Vec<(String, String)>>,
    pub defaults: Stage,
}

/// What a [`Task`] holds, with texts as sequences of characters.
pub struct TaskView {
    pub stages: Option<Seq<StageView>>,
    pub assets: Option<Seq<(Seq<char>, Seq<char>)>>,
    pub mounts: Option<Seq<(Seq<char>, Seq<char>)>>,
    pub defaults: StageView,
}

impl TaskView {
    /// The stages and the defaults are well formed, and the assets and the
    /// mounts are the entries of maps.
    pub open spec fn wf(self) -> bool {
        &&& self.defaults.wf()
        &&& self.stages matches Some(stages) ==> forall|i: int|
            0 <= i < stages.len() ==> (#[trigger] stages[i]).wf()
        &&& self.assets matches Some(assets) ==> is_map(assets)
        &&& self.mounts matches Some(mounts) ==> is_map(mounts)
    }
}

impl View for Task {
    type V = TaskView;

    open spec fn view(&self) -> TaskView {
        TaskView {
            stages: self.stages.deep_view(),
            assets: self.assets.deep_view(),
            mounts: self.mounts.deep_view(),
            defaults: self.defaults@,
        }
    }
}

/// What a task plans to: the assets, and the stages in order, each with its
/// name.
#[derive(Debug)]
pub struct Plan {
    pub assets: Vec<(String, String)>,
    pub stages: Vec<(String, StageSpec)>,
}

/// The value of a field: the stage's own, else the default, else
/// `fallback`.
pub open spec fn pick<A>(own: Option<A>, default: Option<A>, fallback: A) -> A {
    match own {
        Some(v) => v,
        None => match default {
            Some(v) => v,
            None => fallback,
        },
    }
}

/// The name of a stage without one: `stage-` and its position, counted from
/// zero.
pub open spec fn position_name(index: nat) -> Seq<char> {
    "stage-"@ + decimal_text(index)
}

/// The name of the stage at `index`: its own, else the default, else the
/// one made from its position.
pub open spec fn name_of(stage: StageView, defaults: StageView, index: nat) -> Seq<char> {
    pick(stage.name, defaults.name, position_name(index))
}

/// What the stage is run with: each field the stage's own, else the
/// default, else empty (for the working directory, `/workspace`); and the
/// mounts of the task.
pub open spec fn spec_of(
    stage: StageView,
    defaults: StageView,
    mounts: Seq<(Seq<char>, Seq<char>)>,
) -> RunOptionsView {
    RunOptionsView {
        image: pick(stage.image, defaults.image, Seq::empty()),
        extend: pick(stage.extend, defaults.extend, Seq::empty()),
        workdir: pick(stage.workdir, defaults.workdir, "/workspace"@),
        script: pick(stage.script, defaults.script, Seq::empty()),
        envs: pick(stage.envs, defaults.envs, Seq::empty()),
        mounts,
    }
}

/// The list that an optional list stands for: empty where it is absent.
pub open spec fn or_empty<A>(list: Option<Seq<A>>) -> Seq<A> {
    match list {
        Some(l) => l,
        None => Seq::empty(),
    }
}

/// The stages of a task: one stage that leaves everything open where the
/// task lists none.
pub open spec fn stages_of(task: TaskView) -> Seq<StageView> {
    match task.stages {
        Some(s) => s,
        None => seq![StageView::empty()],
    }
}

/// The stage that the task plans at `index`, with its name.
pub open spec fn planned_stage(task: TaskView, index: int) -> (Seq<char>, RunOptionsView) {
    (
        name_of(stages_of(task)[index], task.defaults, index as nat),
        spec_of(stages_of(task)[index], task.defaults, or_empty(task.mounts)),
    )
}

/// The stages that the task plans: one for each of its stages, in order.
pub open spec fn planned_stages(task: TaskView) -> Seq<(Seq<char>, RunOptionsView)> {
    Seq::new(stages_of(task).len(), |i: int| planned_stage(task, i))
}

fn pick_text(own: &Option<String>, default: &Option<String>, fallback: &str) -> (r: String)
    ensures
        r@ == pick(own.deep_view(), default.deep_view(), fallback@),
{
    match own {
        Some(v) => v.clone(),
        None => match default {
            Some(v) => v.clone(),
            None => copy_str(fallback),
        },
    }
}

fn pick_texts(own: &Option<Vec<String>>, default: &Option<Vec<String>>) -> (r: Vec<String>)
    ensures
        r.deep_view() == pick(own.deep_view(), default.deep_view(), Seq::empty()),
{
    match own {
        Some(v) => copy_strings(v),
        None => match default {
            Some(v) => copy_strings(v),
            None => {
                let out: Vec<String> = Vec::new();
                assert(out.deep_view() =~= Seq::<Seq<char>>::empty());
                out
            },
        },
    }
}

fn pick_pairs(own: &Option<Vec<(String, String)>>, default: &Option<Vec<(String, String)>>) -> (r:
    Vec<(String, String)>)
    ensures
        r.deep_view() == pick(own.deep_view(), default.deep_view(), Seq::empty()),
{
    match own {
        Some(v) => copy_pairs(v),
        None => match default {
            Some(v) => copy_pairs(v),
            None => {
                let out: Vec<(String, String)> = Vec::new();
                assert(out.deep_view() =~= Seq::<(Seq<char>, Seq<char>)>::empty());
                out
            },
        },
    }
}

fn pairs_or_empty(list: &Option<Vec<(String, String)>>) -> (r: Vec<(String, String)>)
    ensures
        r.deep_view() == or_empty(list.deep_view()),
{
    match list {
        Some(v) => copy_pairs(v),
        None => {
            let out: Vec<(String, String)> = Vec::new();
            assert(out.deep_view() =~= Seq::<(Seq<char>, Seq<char>)>::empty());
            out
        },
    }
}

/// The name of the stage at `index`, under the defaults of a task.
pub fn stage_name(stage: &Stage, defaults: &Stage, index: usize) -> (r: String)
    ensures
        r@ == name_of(stage@, defaults@, index as nat),
{
    let mut fallback = String::from_str("stage-");
    let number = decimal(index as u64);
    fallback.append(number.as_str());
    pick_text(&stage.name, &defaults.name, fallback.as_str())
}

/// What `stage` is run with, under the defaults and mounts of a task.
pub fn resolve(stage: &Stage, defaults: &Stage, mounts: &Vec<(String, String)>) -> (r: StageSpec)
    ensures
        r@ == spec_of(stage@, defaults@, mounts.deep_view()),
{
    proof {
        reveal_strlit("");
        assert(""@ =~= Seq::<char>::empty());
    }
    RunOptions {
        image: pick_text(&stage.image, &defaults.image, ""),
        extend: pick_texts(&stage.extend, &defaults.extend),
        workdir: pick_text(&stage.workdir, &defaults.workdir, "/workspace"),
        script: pick_texts(&stage.script, &defaults.script),
        envs: pick_pairs(&stage.envs, &defaults.envs),
        mounts: copy_pairs(mounts),
    }
}

impl Task {
    /// Plans the task: its assets, and for each stage in order its name and
    /// what it is run with. A task that lists no stages plans one stage
    /// from the defaults alone.
    pub fn plan(&self) -> (r: Plan)
        ensures
            r.assets.deep_view() == or_empty(self@.assets),
            r.stages.deep_view() == planned_stages(self@),
    {
        let assets = pairs_or_empty(&self.assets);
        let mounts = pairs_or_empty(&self.mounts);
        let mut stages: Vec<(String, StageSpec)> = Vec::new();
        match &self.stages {
            Some(list) => {
                let mut i: usize = 0;
                while i < list.len()
                    invariant
                        i <= list.len(),
                        self.stages == Some(*list),
                        mounts.deep_view() == or_empty(self@.mounts),
                        stages.len() == i,
                        forall|j: int|
                            0 <= j < i ==> (#[trigger] stages[j]).deep_view() == planned_stage(
                                self@,
                                j,
                            ),
                    decreases list.len() - i,
                {
                    assert(stages_of(self@)[i as int] == list[i as int]@);
                    let name = stage_name(&list[i], &self.defaults, i);
                    let spec = resolve(&list[i], &self.defaults, &mounts);
                    stages.push((name, spec));
                    i += 1;
                }
                assert(stages_of(self@).len() == list.len());
            },
            None => {
                let only = Stage::default();
                let name = stage_name(&only, &self.defaults, 0);
                let spec = resolve(&only, &self.defaults, &mounts);
                stages.push((name, spec));
                assert(stages_of(self@) =~= seq![StageView::empty()]);
                assert(stages_of(self@)[0] == only@);
            },
        }
        assert(stages.deep_view() =~= planned_stages(self@));
        Plan { assets, stages }
    }
}

/// Planning depends on what the task holds and on nothing else: tasks that
/// hold the same plan the same stages and the same assets.
pub proof fn lemma_plan_is_a_function(a: Task, b: Task)
    requires
        a@ == b@,
    ensures
        planned_stages(a@) == planned_stages(b@),
        or_empty(a@.assets) == or_empty(b@.assets),
{
}

/// A stage that leaves nothing open is planned as it stands, whatever the
/// defaults are, with the mounts of the task added.
pub proof fn lemma_full_stage_is_kept(task: TaskView, index: int)
    requires
        0 <= index < stages_of(task).len(),
        stages_of(task)[index].name is Some,
        stages_of(task)[index].image is Some,
        stages_of(task)[index].extend is Some,
        stages_of(task)[index].workdir is Some,
        stages_of(task)[index].script is Some,
        stages_of(task)[index].envs is Some,
    ensures
        planned_stages(task)[index] == (
            stages_of(task)[index].name->0,
            RunOptionsView {
                image: stages_of(task)[index].image->0,
                extend: stages_of(task)[index].extend->0,
                workdir: stages_of(task)[index].workdir->0,
                script: stages_of(task)[index].script->0,
                envs: stages_of(task)[index].envs->0,
                mounts: or_empty(task.mounts),
            },
        ),
{
}

/// What a stage leaves open is taken from the defaults, the name too; only
/// where the defaults leave it open as well is the name made from the
/// position, the working directory `/workspace`, and the rest empty.
pub proof fn lemma_defaults_fill_in(task: TaskView, index: int)
    requires
        0 <= index < stages_of(task).len(),
    ensures
        ({
            let stage = stages_of(task)[index];
            let planned = planned_stages(task)[index];
            &&& stage.name is None ==> planned.0 == match task.defaults.name {
                Some(n) => n,
                None => position_name(index as nat),
            }
            &&& stage.image is None ==> planned.1.image == or_empty(task.defaults.image)
            &&& stage.extend is None ==> planned.1.extend == or_empty(task.defaults.extend)
            &&& stage.workdir is None ==> planned.1.workdir == match task.defaults.workdir {
                Some(w) => w,
                None => "/workspace"@,
            }
            &&& stage.script is None ==> planned.1.script == or_empty(task.defaults.script)
            &&& stage.envs is None ==> planned.1.envs == or_empty(task.defaults.envs)
        }),
{
}

/// What a well-formed task plans is well formed: the assets, and the
/// environment and the mounts of every stage, are the entries of maps.
pub proof fn lemma_plan_keeps_maps(task: TaskView)
    requires
        task.wf(),
    ensures
        is_map(or_empty(task.assets)),
        forall|i: int|
            0 <= i < planned_stages(task).len() ==> (#[trigger] planned_stages(task)[i]).1.wf(),
{
    assert forall|i: int| 0 <= i < planned_stages(task).len() implies (
    #[trigger] planned_stages(task)[i]).1.wf() by {
        let stage = stages_of(task)[i];
        assert(stage.wf()) by {
            if task.stages is Some {
                assert(task.stages->0[i].wf());
            }
        }
    }
}

/// A task plans as many stages as it lists, in their order; one where it
/// lists none.
pub proof fn lemma_plan_keeps_count(task: TaskView)
    ensures
        planned_stages(task).len() == stages_of(task).len(),
        task.stages matches Some(list) ==> planned_stages(task).len() == list.len(),
        task.stages is None ==> planned_stages(task).len() == 1,
{
}

} // verus!

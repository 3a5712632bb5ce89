//! The benchmark run plan: which combinations of resolution, renderer
//! kind and instance counts a measuring session walks through, and the
//! records its results are collected in. The step values themselves
//! (an exponential ramp) are computed by the driver layer and handed in
//! as plain lists.

use vstd::prelude::*;

verus! {

/// One benchmark combination to run.
#[derive(Debug, Copy, Clone, PartialEq, Eq)]
pub struct TestRun {
    pub resolution: (u32, u32),
    pub deferred: bool,
    pub lights: u32,
    pub cubes: u32,
}

/// Frame-time statistics of one run, in nanoseconds.
#[derive(Debug, Copy, Clone, PartialEq, Eq, Structural)]
pub struct TestResult {
    pub min: u128,
    pub max: u128,
    pub avg: u128,
}

/// One run together with its measured result.
#[derive(Debug, Copy, Clone, PartialEq, Eq)]
pub struct TestRunResult {
    pub run: TestRun,
    pub result: TestResult,
}

/// A whole session's output: when it ran, its settings, and the
/// results of every run.
#[derive(Debug, Clone)]
pub struct TestOutput {
    pub time: u128,
    pub warmup: u32,
    pub length: u32,
    pub data: Vec<TestRunResult>,
}

/// The session settings read at startup.
#[derive(Debug, Clone, PartialEq, Eq, Structural)]
pub struct TestSpec {
    pub resolution_index: usize,
    pub warmup: u32,
    pub length: u32,
}

/// The runs for one resolution, renderer kind and light count: one per
/// cube count, in order, over the first `j` cube steps.
pub open spec fn spec_cube_runs(
    resolution: (u32, u32),
    deferred: bool,
    lights: u32,
    cubes: Seq<u32>,
    j: int,
) -> Seq<TestRun>
    decreases j,
{
    if j <= 0 {
        Seq::empty()
    } else {
        spec_cube_runs(resolution, deferred, lights, cubes, j - 1)
            + seq![TestRun { resolution, deferred, lights, cubes: cubes[j - 1] }]
    }
}

/// The runs for one resolution and renderer kind: for each of the
/// first `i` light steps, all cube steps in order.
pub open spec fn spec_light_runs(
    resolution: (u32, u32),
    deferred: bool,
    lights: Seq<u32>,
    cubes: Seq<u32>,
    i: int,
) -> Seq<TestRun>
    decreases i,
{
    if i <= 0 {
        Seq::empty()
    } else {
        spec_light_runs(resolution, deferred, lights, cubes, i - 1)
            + spec_cube_runs(resolution, deferred, lights[i - 1], cubes, cubes.len() as int)
    }
}

/// The whole run set of one resolution: the forward renderer first,
/// then the deferred one, each over every light and cube step.
pub open spec fn spec_runs_for_res(
    resolution: (u32, u32),
    lights: Seq<u32>,
    cubes: Seq<u32>,
) -> Seq<TestRun> {
    spec_light_runs(resolution, false, lights, cubes, lights.len() as int)
        + spec_light_runs(resolution, true, lights, cubes, lights.len() as int)
}

/// The run sets of the first `k` resolutions, in order.
pub open spec fn spec_all_runs(
    resolutions: Seq<(u32, u32)>,
    lights: Seq<u32>,
    cubes: Seq<u32>,
    k: int,
) -> Seq<TestRun>
    decreases k,
{
    if k <= 0 {
        Seq::empty()
    } else {
        spec_all_runs(resolutions, lights, cubes, k - 1)
            + spec_runs_for_res(resolutions[k - 1], lights, cubes)
    }
}

/// Appends the runs of one resolution and renderer kind: every light
/// step crossed with every cube step, cube-major.
fn push_light_runs(
    out: &mut Vec<TestRun>,
    resolution: (u32, u32),
    deferred: bool,
    lights: &Vec<u32>,
    cubes: &Vec<u32>,
)
    ensures
        final(out)@ == old(out)@ + spec_light_runs(
            resolution,
            deferred,
            lights@,
            cubes@,
            lights@.len() as int,
        ),
{
    let mut i: usize = 0;
    while i < lights.len()
        invariant
            i <= lights@.len(),
            out@ == old(out)@ + spec_light_runs(resolution, deferred, lights@, cubes@, i as int),
        decreases lights@.len() - i,
    {
        let light = lights[i];
        let ghost entering = out@;
        let mut j: usize = 0;
        while j < cubes.len()
            invariant
                j <= cubes@.len(),
                light == lights@[i as int],
                i < lights@.len(),
                out@ == entering + spec_cube_runs(resolution, deferred, light, cubes@, j as int),
            decreases cubes@.len() - j,
        {
            out.push(TestRun { resolution, deferred, lights: light, cubes: cubes[j] });
            j = j + 1;
        }
        i = i + 1;
    }
}

/// The run set of one resolution: the forward renderer first, then the
/// deferred one, each light step crossed with each cube step.
pub fn test_run_set_from_res(
    resolution: (u32, u32),
    lights: &Vec<u32>,
    cubes: &Vec<u32>,
) -> (r: Vec<TestRun>)
    ensures
        r@ == spec_runs_for_res(resolution, lights@, cubes@),
{
    let mut out: Vec<TestRun> = Vec::new();
    push_light_runs(&mut out, resolution, false, lights, cubes);
    push_light_runs(&mut out, resolution, true, lights, cubes);
    out
}

/// The run sets of every resolution, in order.
pub fn _all_test_run_set(
    resolutions: &Vec<(u32, u32)>,
    lights: &Vec<u32>,
    cubes: &Vec<u32>,
) -> (r: Vec<TestRun>)
    ensures
        r@ == spec_all_runs(resolutions@, lights@, cubes@, resolutions@.len() as int),
{
    let mut out: Vec<TestRun> = Vec::new();
    let mut k: usize = 0;
    while k < resolutions.len()
        invariant
            k <= resolutions@.len(),
            out@ == spec_all_runs(resolutions@, lights@, cubes@, k as int),
        decreases resolutions@.len() - k,
    {
        push_light_runs(&mut out, resolutions[k], false, lights, cubes);
        push_light_runs(&mut out, resolutions[k], true, lights, cubes);
        k = k + 1;
    }
    out
}

/// The length of one cube ramp's run list equals the number of steps.
pub proof fn lemma_cube_runs_len(
    resolution: (u32, u32),
    deferred: bool,
    lights: u32,
    cubes: Seq<u32>,
    j: int,
)
    requires
        0 <= j,
    ensures
        spec_cube_runs(resolution, deferred, lights, cubes, j).len() == j,
    decreases j,
{
    if j > 0 {
        lemma_cube_runs_len(resolution, deferred, lights, cubes, j - 1);
    }
}

/// The length of one renderer kind's run list is the light steps times
/// the cube steps.
pub proof fn lemma_light_runs_len(
    resolution: (u32, u32),
    deferred: bool,
    lights: Seq<u32>,
    cubes: Seq<u32>,
    i: int,
)
    requires
        0 <= i,
    ensures
        spec_light_runs(resolution, deferred, lights, cubes, i).len()
            == i * cubes.len(),
    decreases i,
{
    if i > 0 {
        lemma_light_runs_len(resolution, deferred, lights, cubes, i - 1);
        lemma_cube_runs_len(resolution, deferred, lights[i - 1], cubes, cubes.len() as int);
        assert(spec_light_runs(resolution, deferred, lights, cubes, i)
            == spec_light_runs(resolution, deferred, lights, cubes, i - 1) + spec_cube_runs(
                resolution,
                deferred,
                lights[i - 1],
                cubes,
                cubes.len() as int,
            ));
        assert(spec_light_runs(resolution, deferred, lights, cubes, i).len()
            == (i - 1) * cubes.len() + cubes.len());
        assert((i - 1) * cubes.len() + cubes.len() == i * cubes.len()) by (nonlinear_arith);
    } else {
        assert(spec_light_runs(resolution, deferred, lights, cubes, i).len() == 0);
        assert(i * cubes.len() == 0) by (nonlinear_arith)
            requires
                i == 0,
        ;
    }
}

/// Law: a resolution's run set covers the full cross product — both
/// renderer kinds, every light step, every cube step — so it holds
/// exactly twice the light steps times the cube steps.
pub proof fn lemma_run_set_len(resolution: (u32, u32), lights: Seq<u32>, cubes: Seq<u32>)
    ensures
        spec_runs_for_res(resolution, lights, cubes).len() == 2 * lights.len() * cubes.len(),
{
    lemma_light_runs_len(resolution, false, lights, cubes, lights.len() as int);
    lemma_light_runs_len(resolution, true, lights, cubes, lights.len() as int);
    assert(lights.len() * cubes.len() + lights.len() * cubes.len()
        == 2 * lights.len() * cubes.len()) by (nonlinear_arith);
}

} // verus!

//! Manual tests: one effect at a time, played for a while, so that the driver
//! can feel whether the wheel answers.

use crate::clap_lite::TestEffect;
use crate::config::{is_number, law_patterns_are_those_of_the_numbers, N0_40, N0_50, N0_60};
use crate::effects::EffectOutput;
use crate::shared::{DeviceInfo, DeviceInfoView};
use crate::text::{hex, hex_text};
use vstd::prelude::*;
use vstd::string::*;

verus! {

/// Effect targets and how long they are held.
#[derive(Debug, Clone, Copy, PartialEq, Eq, Structural)]
pub struct TestStep {
    pub output: EffectOutput,
    pub hold_ms: u64,
}

/// What a manual test announces and plays.
#[derive(Debug)]
pub struct ManualTest {
    pub banner: &'static str,
    pub steps: Vec<TestStep>,
}

/// How many steps the sine sweep takes.
pub const SWEEP_STEPS: u16 = 50;

/// The wave period that the sine sweep starts with, in milliseconds.
pub const SWEEP_PERIOD_MS: u16 = 80;

/// What a manual test says before it starts.
pub open spec fn banner_of(kind: TestEffect) -> Seq<char> {
    match kind {
        TestEffect::Constant => "3 seconds of 40% constant force to the right..."@,
        TestEffect::Spring =>
            "5 seconds of 50% centering spring (turn the wheel and release)..."@,
        TestEffect::Damper => "5 seconds of 60% damper (wheel should feel slow)..."@,
        TestEffect::Rumble => "3 seconds of rumble..."@,
        TestEffect::Sine => "Sweeping sine for 5 seconds..."@,
    }
}

/// One step of the sine sweep: the wave gets faster by a millisecond each time.
pub open spec fn sweep_step(i: int) -> TestStep {
    TestStep {
        output: EffectOutput {
            rumble_magnitude: N0_40,
            rumble_period_ms: (SWEEP_PERIOD_MS - i) as u16,
            ..EffectOutput::none()
        },
        hold_ms: 100,
    }
}

/// The steps of a manual test.
pub open spec fn steps_of(kind: TestEffect) -> Seq<TestStep> {
    match kind {
        TestEffect::Constant => seq![
            TestStep {
                output: EffectOutput { constant: N0_40, ..EffectOutput::none() },
                hold_ms: 3_000,
            },
        ],
        TestEffect::Spring => seq![
            TestStep {
                output: EffectOutput { spring_strength: N0_50, ..EffectOutput::none() },
                hold_ms: 5_000,
            },
        ],
        TestEffect::Damper => seq![
            TestStep {
                output: EffectOutput { damper: N0_60, ..EffectOutput::none() },
                hold_ms: 5_000,
            },
        ],
        TestEffect::Rumble => seq![
            TestStep {
                output: EffectOutput {
                    rumble_magnitude: N0_50,
                    rumble_period_ms: 40,
                    ..EffectOutput::none()
                },
                hold_ms: 3_000,
            },
        ],
        TestEffect::Sine => Seq::new(SWEEP_STEPS as nat, |i: int| sweep_step(i)),
    }
}

fn sweep() -> (steps: Vec<TestStep>)
    ensures
        steps@ == steps_of(TestEffect::Sine),
{
    let mut steps: Vec<TestStep> = Vec::new();
    let mut i: u16 = 0;
    while i < SWEEP_STEPS
        invariant
            i <= SWEEP_STEPS,
            steps@.len() == i,
            forall|k: int| 0 <= k < i ==> #[trigger] steps@[k] == sweep_step(k),
        decreases SWEEP_STEPS - i,
    {
        let output: EffectOutput = EffectOutput {
            rumble_magnitude: N0_40,
            rumble_period_ms: SWEEP_PERIOD_MS - i,
            ..EffectOutput::default()
        };
        steps.push(TestStep { output, hold_ms: 100 });
        i = i + 1;
    }
    assert(steps@ =~= steps_of(TestEffect::Sine));
    steps
}

fn single(output: EffectOutput, hold_ms: u64) -> (steps: Vec<TestStep>)
    ensures
        steps@ == seq![TestStep { output, hold_ms }],
{
    let mut steps: Vec<TestStep> = Vec::new();
    steps.push(TestStep { output, hold_ms });
    assert(steps@ =~= seq![TestStep { output, hold_ms }]);
    steps
}

/// What a manual test announces, and the effects it plays one after the other.
/// All effects are stopped afterwards: see [`ManualTest::next`].
pub fn run_manual_test(kind: TestEffect) -> (plan: ManualTest)
    ensures
        plan.banner@ == banner_of(kind),
        plan.steps@ == steps_of(kind),
{
    let none: EffectOutput = EffectOutput::default();
    match kind {
        TestEffect::Constant => ManualTest {
            banner: "3 seconds of 40% constant force to the right...",
            steps: single(EffectOutput { constant: N0_40, ..none }, 3_000),
        },
        TestEffect::Spring => ManualTest {
            banner: "5 seconds of 50% centering spring (turn the wheel and release)...",
            steps: single(EffectOutput { spring_strength: N0_50, ..none }, 5_000),
        },
        TestEffect::Damper => ManualTest {
            banner: "5 seconds of 60% damper (wheel should feel slow)...",
            steps: single(EffectOutput { damper: N0_60, ..none }, 5_000),
        },
        TestEffect::Rumble => ManualTest {
            banner: "3 seconds of rumble...",
            steps: single(
                EffectOutput { rumble_magnitude: N0_50, rumble_period_ms: 40, ..none },
                3_000,
            ),
        },
        TestEffect::Sine => ManualTest {
            banner: "Sweeping sine for 5 seconds...",
            steps: sweep(),
        },
    }
}

/// What a manual test does next.
#[derive(Debug, Clone, Copy, PartialEq, Eq, Structural)]
pub enum TestAction {
    /// Bring the wheel to these targets and hold them.
    Play(TestStep),
    /// Stop all effects.
    Release,
    /// Nothing is left to do.
    Finished,
}

/// What a test of some steps does once `done` actions are carried out.
pub open spec fn action_after(steps: Seq<TestStep>, done: nat) -> TestAction {
    if done < steps.len() {
        TestAction::Play(steps[done as int])
    } else if done == steps.len() {
        TestAction::Release
    } else {
        TestAction::Finished
    }
}

impl ManualTest {
    /// What to do once `done` actions are carried out.
    pub fn next(&self, done: usize) -> (action: TestAction)
        ensures
            action == action_after(self.steps@, done as nat),
    {
        if done < self.steps.len() {
            TestAction::Play(self.steps[done])
        } else if done == self.steps.len() {
            TestAction::Release
        } else {
            TestAction::Finished
        }
    }
}

/// The line that names the wheel under test.
pub open spec fn wheel_line(info: DeviceInfoView) -> Seq<char> {
    "Using "@ + info.name + " at "@ + info.path + " (vendor 0x"@ + hex(
        info.vendor_id as nat,
        4,
        true,
    ) + ", product 0x"@ + hex(info.product_id as nat, 4, true) + ")"@
}

/// Names the wheel under test.
pub fn describe_wheel(info: &DeviceInfo) -> (line: String)
    ensures
        line@ == wheel_line(info@),
{
    let vendor: String = hex_text(info.vendor_id as u64, 4, true);
    let product: String = hex_text(info.product_id as u64, 4, true);
    "Using ".to_owned().concat(info.name.as_str()).concat(" at ").concat(info.path.as_str()).concat(
        " (vendor 0x",
    ).concat(vendor.as_str()).concat(", product 0x").concat(product.as_str()).concat(")")
}

// ---------------------------------------------------------------------------
// Laws
// ---------------------------------------------------------------------------

/// How long some steps take together, in milliseconds.
pub open spec fn total_ms(steps: Seq<TestStep>) -> nat
    decreases steps.len(),
{
    if steps.len() == 0 {
        0
    } else {
        total_ms(steps.drop_last()) + steps.last().hold_ms as nat
    }
}

/// The time that a manual test is announced to take.
pub open spec fn announced_ms(kind: TestEffect) -> nat {
    match kind {
        TestEffect::Constant => 3_000,
        TestEffect::Spring => 5_000,
        TestEffect::Damper => 5_000,
        TestEffect::Rumble => 3_000,
        TestEffect::Sine => 5_000,
    }
}

proof fn lemma_even_steps(steps: Seq<TestStep>, each: nat)
    requires
        forall|i: int| 0 <= i < steps.len() ==> (#[trigger] steps[i]).hold_ms == each,
    ensures
        total_ms(steps) == steps.len() * each,
    decreases steps.len(),
{
    if steps.len() > 0 {
        lemma_even_steps(steps.drop_last(), each);
        assert(steps.len() * each == (steps.len() - 1) * each + each) by (nonlinear_arith);
    } else {
        assert(0 * each == 0) by (nonlinear_arith);
    }
}

/// Every manual test takes as long as it announces.
pub proof fn law_tests_take_the_announced_time(kind: TestEffect)
    ensures
        total_ms(steps_of(kind)) == announced_ms(kind),
{
    match kind {
        TestEffect::Sine => {
            lemma_even_steps(steps_of(kind), 100);
        },
        _ => {
            lemma_even_steps(steps_of(kind), announced_ms(kind));
        },
    }
}

/// A manual test plays one kind of effect and leaves all others at rest.
pub proof fn law_tests_play_one_effect(kind: TestEffect, i: int)
    requires
        0 <= i < steps_of(kind).len(),
    ensures
        ({
            let out = steps_of(kind)[i].output;
            &&& out.constant != 0 <==> kind == TestEffect::Constant
            &&& out.spring_strength != 0 <==> kind == TestEffect::Spring
            &&& out.damper != 0 <==> kind == TestEffect::Damper
            &&& out.rumble_magnitude != 0 <==> (kind == TestEffect::Rumble || kind
                == TestEffect::Sine)
        }),
{
}

/// The sine sweep speeds the wave up from step to step.
pub proof fn law_the_sweep_speeds_up(i: int, j: int)
    requires
        0 <= i < j < steps_of(TestEffect::Sine).len(),
    ensures
        steps_of(TestEffect::Sine)[j].output.rumble_period_ms < steps_of(
            TestEffect::Sine,
        )[i].output.rumble_period_ms,
{
}

/// Every manual test plays its steps in order, then stops all effects, and
/// then is finished: the release comes once, and after the last step.
pub proof fn law_tests_end_with_the_release(kind: TestEffect, done: nat)
    ensures
        action_after(steps_of(kind), done) is Play <==> done < steps_of(kind).len(),
        action_after(steps_of(kind), done) == TestAction::Release <==> done == steps_of(kind).len(),
        action_after(steps_of(kind), done) == TestAction::Finished <==> done > steps_of(kind).len(),
        done < steps_of(kind).len() ==> action_after(steps_of(kind), done) == TestAction::Play(
            steps_of(kind)[done as int],
        ),
{
}

/// Targets of one strength for one kind of effect, all others being zero.
pub open spec fn plays_only(kind: TestEffect, out: EffectOutput, percent: int, period: int) -> bool {
    &&& if kind is Constant {
        is_number(out.constant, percent, 100)
    } else {
        out.constant == 0
    }
    &&& if kind is Spring {
        is_number(out.spring_strength, percent, 100)
    } else {
        out.spring_strength == 0
    }
    &&& if kind is Damper {
        is_number(out.damper, percent, 100)
    } else {
        out.damper == 0
    }
    &&& if kind is Rumble || kind is Sine {
        is_number(out.rumble_magnitude, percent, 100)
    } else {
        out.rumble_magnitude == 0
    }
    &&& out.rumble_period_ms == period
    &&& out.spring_center == 0
    &&& out.torque_estimate_nm == 0
}

/// Each test announces and plays its own effect: its strength, for its time.
/// The sweep takes fifty steps of a tenth of a second, from a period of 80
/// milliseconds down to 31.
pub proof fn law_tests_play_what_they_announce(kind: TestEffect, plan: ManualTest)
    requires
        call_ensures(run_manual_test, (kind,), plan),
    ensures
        kind is Sine ==> plan.steps@.len() == 50,
        !(kind is Sine) ==> plan.steps@.len() == 1,
        forall|i: int|
            0 <= i < plan.steps@.len() ==> {
                let step = #[trigger] plan.steps@[i];
                match kind {
                    TestEffect::Constant => plays_only(kind, step.output, 40, 0) && step.hold_ms
                        == 3_000,
                    TestEffect::Spring => plays_only(kind, step.output, 50, 0) && step.hold_ms
                        == 5_000,
                    TestEffect::Damper => plays_only(kind, step.output, 60, 0) && step.hold_ms
                        == 5_000,
                    TestEffect::Rumble => plays_only(kind, step.output, 50, 40) && step.hold_ms
                        == 3_000,
                    TestEffect::Sine => plays_only(kind, step.output, 40, 80 - i) && step.hold_ms
                        == 100,
                }
            },
        plan.banner@ == match kind {
            TestEffect::Constant => "3 seconds of 40% constant force to the right..."@,
            TestEffect::Spring =>
                "5 seconds of 50% centering spring (turn the wheel and release)..."@,
            TestEffect::Damper => "5 seconds of 60% damper (wheel should feel slow)..."@,
            TestEffect::Rumble => "3 seconds of rumble..."@,
            TestEffect::Sine => "Sweeping sine for 5 seconds..."@,
        },
{
    law_patterns_are_those_of_the_numbers();
}

/// A test plays its steps in order, one each time, then releases the wheel
/// once, and then is finished for good.
pub proof fn law_steps_come_in_order(test: ManualTest, done: usize, action: TestAction)
    requires
        call_ensures(ManualTest::next, (&test, done), action),
    ensures
        done < test.steps@.len() ==> action == TestAction::Play(test.steps@[done as int]),
        done == test.steps@.len() ==> action is Release,
        done > test.steps@.len() ==> action is Finished,
{
}

/// The wheel under test is named with its path and its two numbers.
pub proof fn law_the_wheel_is_named(info: DeviceInfo, line: String)
    requires
        call_ensures(describe_wheel, (&info,), line),
    ensures
        line@ == "Using "@ + info.name@ + " at "@ + info.path@ + " (vendor 0x"@ + hex(
            info.vendor_id as nat,
            4,
            true,
        ) + ", product 0x"@ + hex(info.product_id as nat, 4, true) + ")"@,
{
}

} // verus!

use fs25_ffb::clap_lite::TestEffect;
use fs25_ffb::effects::EffectOutput;
use fs25_ffb::manual::{describe_wheel, run_manual_test, TestAction, TestStep};
use fs25_ffb::shared::DeviceInfo;

#[test]
fn single_effects_are_held() {
    let none = EffectOutput::default();
    let plan = run_manual_test(TestEffect::Constant);
    assert_eq!(plan.banner, "3 seconds of 40% constant force to the right...");
    assert_eq!(
        plan.steps,
        vec![TestStep { output: EffectOutput { constant: 0.4f32.to_bits(), ..none }, hold_ms: 3000 }]
    );
    let plan = run_manual_test(TestEffect::Spring);
    assert_eq!(plan.banner, "5 seconds of 50% centering spring (turn the wheel and release)...");
    assert_eq!(
        plan.steps,
        vec![TestStep {
            output: EffectOutput { spring_strength: 0.5f32.to_bits(), ..none },
            hold_ms: 5000
        }]
    );
    let plan = run_manual_test(TestEffect::Damper);
    assert_eq!(plan.banner, "5 seconds of 60% damper (wheel should feel slow)...");
    assert_eq!(
        plan.steps,
        vec![TestStep { output: EffectOutput { damper: 0.6f32.to_bits(), ..none }, hold_ms: 5000 }]
    );
    let plan = run_manual_test(TestEffect::Rumble);
    assert_eq!(plan.banner, "3 seconds of rumble...");
    assert_eq!(
        plan.steps,
        vec![TestStep {
            output: EffectOutput {
                rumble_magnitude: 0.5f32.to_bits(),
                rumble_period_ms: 40,
                ..none
            },
            hold_ms: 3000
        }]
    );
}

#[test]
fn the_sine_sweep_speeds_up_for_five_seconds() {
    let plan = run_manual_test(TestEffect::Sine);
    assert_eq!(plan.banner, "Sweeping sine for 5 seconds...");
    assert_eq!(plan.steps.len(), 50);
    assert_eq!(plan.steps.iter().map(|s| s.hold_ms).sum::<u64>(), 5000);
    for i in 0..50 {
        assert_eq!(plan.steps[i].output.rumble_period_ms as usize, 80 - i);
        assert_eq!(f32::from_bits(plan.steps[i].output.rumble_magnitude), 0.4);
    }
}

#[test]
fn every_test_ends_with_the_release() {
    for kind in [
        TestEffect::Constant,
        TestEffect::Spring,
        TestEffect::Damper,
        TestEffect::Rumble,
        TestEffect::Sine,
    ] {
        let plan = run_manual_test(kind);
        let n = plan.steps.len();
        for i in 0..n {
            assert_eq!(plan.next(i), TestAction::Play(plan.steps[i]));
        }
        assert_eq!(plan.next(n), TestAction::Release);
        assert_eq!(plan.next(n + 1), TestAction::Finished);
    }
}

#[test]
fn the_wheel_under_test_is_named() {
    let mut d = DeviceInfo::default();
    d.name = "MOZA R5 Base".to_string();
    d.path = "/dev/input/event3".to_string();
    d.vendor_id = 0x346e;
    d.product_id = 2;
    assert_eq!(
        describe_wheel(&d),
        "Using MOZA R5 Base at /dev/input/event3 (vendor 0x346E, product 0x0002)"
    );
}

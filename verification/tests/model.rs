use taskshield::AbortDescription;
use taskshield::Computation;
use taskshield::Outcome;
use taskshield::Shield;

#[test]
fn value_passthrough() {
    let f = Computation::Returns(7u64).shield();
    let v: u64 = f.resolve();
    assert_eq!(v, 7);
}

#[test]
fn equivalence_on_normal_return() {
    let a: u64 = Computation::Returns(5u64).shield().resolve();
    let b = Computation::Returns(5u64).try_shield().resolve();
    assert_eq!(b, Ok(a));
}

#[test]
fn crash_resolves_to_aborted() {
    let r = Computation::<u64>::Crashes.try_shield().resolve();
    assert_eq!(r, Err(AbortDescription::Panicked));
}

#[test]
fn outcome_readings() {
    let o = Outcome::Completed(3u64);
    assert!(o.is_completed());
    assert_eq!(o.into_result(), Ok(3));
    let a = Outcome::<u64>::Aborted(AbortDescription::Cancelled);
    assert!(!a.is_completed());
    assert_eq!(a.into_result(), Err(AbortDescription::Cancelled));
}

#[test]
fn completed_outcome_yields_its_value() {
    let o = Outcome::Completed(41u64);
    if o.is_completed() {
        let v: u64 = o.into_value();
        assert_eq!(v, 41);
    } else {
        panic!("a completed outcome was not reported as completed");
    }
}

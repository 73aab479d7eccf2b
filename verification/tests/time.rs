use taskset::time::{Duration, TimeInstant};

#[test]
fn instant_plus_span_adds_ticks() {
    let start = TimeInstant::from_ticks(151);
    assert_eq!(start.checked_add(Duration::millis(1000)), Some(TimeInstant::from_ticks(1151)));
    assert_eq!(start.checked_add(Duration::millis(0)), Some(start));
}

#[test]
fn instant_plus_span_does_not_wrap() {
    let late = TimeInstant::from_ticks(u32::MAX - 10);
    assert_eq!(late.checked_add(Duration::millis(10)), Some(TimeInstant::from_ticks(u32::MAX)));
    assert_eq!(late.checked_add(Duration::millis(11)), None);
    assert_eq!(TimeInstant::from_ticks(u32::MAX).checked_add(Duration::millis(u32::MAX)), None);
}

#[test]
fn span_between_instants() {
    let early = TimeInstant::from_ticks(1000);
    let late = TimeInstant::from_ticks(4200);
    assert_eq!(late.checked_duration_since(early), Some(Duration::millis(3200)));
    assert_eq!(late.checked_duration_since(late), Some(Duration::millis(0)));
    assert_eq!(early.checked_duration_since(late), None);
    assert_eq!(
        TimeInstant::from_ticks(u32::MAX).checked_duration_since(TimeInstant::from_ticks(0)),
        Some(Duration::millis(u32::MAX))
    );
}

#[test]
fn waiting_for_a_past_instant_resumes_at_once() {
    let now = TimeInstant::from_ticks(500);
    assert_eq!(TimeInstant::from_ticks(300).resumed_at(now), now);
    assert_eq!(TimeInstant::from_ticks(500).resumed_at(now), now);
    assert_eq!(TimeInstant::from_ticks(800).resumed_at(now), TimeInstant::from_ticks(800));
    assert!(now.has_reached(TimeInstant::from_ticks(500)));
    assert!(!now.has_reached(TimeInstant::from_ticks(501)));
    assert_eq!(Duration::millis(3000).to_millis(), 3000);
    assert_eq!(TimeInstant::from_ticks(42).ticks(), 42);
}

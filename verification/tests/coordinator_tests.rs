use litra_autotoggle::coordinator::Debouncer;

#[test]
fn test_burst_applies_only_last_edge() {
    // active, inactive, active within the settle delay: every edge cancels
    // the previous pending action, so only the last token fires, with
    // power on.
    let mut d = Debouncer::new();
    let t0 = d.on_edge(true);
    let t1 = d.on_edge(false);
    let t2 = d.on_edge(true);
    assert_eq!(d.on_timer(t0), None);
    assert_eq!(d.on_timer(t1), None);
    assert_eq!(d.on_timer(t2), Some(true));
}

#[test]
fn test_same_intent_twice_applies_twice() {
    let mut d = Debouncer::new();
    let t0 = d.on_edge(true);
    assert_eq!(d.on_timer(t0), Some(true));
    let intent_after_first = d.intent;
    let pending_after_first = d.pending;
    let t1 = d.on_edge(true);
    assert_eq!(d.on_timer(t1), Some(true));
    assert_eq!(d.intent, intent_after_first);
    assert_eq!(d.pending, pending_after_first);
}

#[test]
fn test_only_last_of_rescheduled_actions_fires() {
    let mut d = Debouncer::new();
    let mut tokens = Vec::new();
    for i in 0..10u64 {
        tokens.push(d.on_edge(i % 2 == 0));
    }
    let mut applied = Vec::new();
    for t in tokens {
        if let Some(b) = d.on_timer(t) {
            applied.push(b);
        }
    }
    // Ten rescheduled actions, one apply, and it carries the last edge,
    // which turned the camera inactive.
    assert_eq!(applied, vec![false]);
}

#[test]
fn test_fired_action_leaves_no_residue() {
    let mut d = Debouncer::new();
    let t0 = d.on_edge(false);
    assert_eq!(d.on_timer(t0), Some(false));
    // The intent was taken: replaying the same token does nothing.
    assert_eq!(d.on_timer(t0), None);
    assert_eq!(d.intent, None);
    assert_eq!(d.pending, None);
}

#[test]
fn test_timer_with_foreign_token_is_noop() {
    let mut d = Debouncer::new();
    let t0 = d.on_edge(true);
    assert_eq!(d.on_timer(t0 + 7), None);
    // The pending action is untouched and still fires.
    assert_eq!(d.on_timer(t0), Some(true));
}

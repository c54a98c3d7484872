use gpui_ui_kit::animation::{Animation, Easing};
use std::time::Duration;

#[test]
fn test_animation_is_complete() {
    let anim = Animation::new().duration_ms(1000).delay_ms(500);

    assert!(!anim.is_complete(Duration::from_millis(0)));
    assert!(!anim.is_complete(Duration::from_millis(1000)));
    assert!(anim.is_complete(Duration::from_millis(1500)));
    assert!(anim.is_complete(Duration::from_millis(2000)));
}

#[test]
fn default_animation_settings() {
    let a = Animation::new();
    assert_eq!(a.duration, Duration::from_millis(200));
    assert_eq!(a.easing, Easing::EaseOutQuad);
    assert_eq!(a.delay, Duration::ZERO);
    assert_eq!(a.repeat, 0);
    assert!(!a.alternate);
}

#[test]
fn presets() {
    assert_eq!(Animation::quick().duration, Duration::from_millis(150));
    assert_eq!(Animation::quick().easing, Easing::EaseOutQuad);
    assert_eq!(Animation::standard().duration, Duration::from_millis(250));
    assert_eq!(Animation::standard().easing, Easing::EaseOutCubic);
    assert_eq!(Animation::slow().duration, Duration::from_millis(400));
    assert_eq!(Animation::slow().easing, Easing::EaseInOutCubic);
    assert_eq!(Animation::emphasis().duration, Duration::from_millis(300));
    assert_eq!(Animation::emphasis().easing, Easing::EaseOutBack);
    assert_eq!(Animation::bouncy().duration, Duration::from_millis(500));
    assert_eq!(Animation::bouncy().easing, Easing::EaseOutBounce);
}

#[test]
fn total_duration_adds_delay() {
    let a = Animation::new()
        .duration(Duration::from_millis(300))
        .delay(Duration::from_millis(100))
        .repeat(2)
        .alternate(true)
        .easing(Easing::Linear);
    assert_eq!(a.total_duration(), Duration::from_millis(400));
    assert_eq!(a.repeat, 2);
    assert!(a.alternate);
    assert_eq!(a.easing, Easing::Linear);
}

#[test]
fn zero_length_animation_is_complete_at_once() {
    let a = Animation::new().duration_ms(0);
    assert!(a.is_complete(Duration::ZERO));
}

#[test]
fn completion_is_monotone() {
    let a = Animation::new().duration_ms(10).delay_ms(5);
    let mut done = false;
    for ms in 0..40 {
        let now = a.is_complete(Duration::from_millis(ms));
        assert!(!done || now);
        done = now;
    }
    assert!(done);
}

use log_diagnostics::severity::Severity;
use std::cmp::Ordering;

#[test]
fn severity_is_ordered() {
    assert!(Severity::Info < Severity::Medium);
    assert!(Severity::Medium < Severity::High);
    assert!(Severity::Info < Severity::High);
    assert!(!(Severity::High < Severity::High));
    assert!(Severity::High > Severity::Info);
    assert_eq!(Severity::Medium.partial_cmp(&Severity::Medium), Some(Ordering::Equal));
    assert_eq!(Severity::Medium.partial_cmp(&Severity::Info), Some(Ordering::Greater));
    assert_eq!(Severity::Medium.partial_cmp(&Severity::High), Some(Ordering::Less));
}

#[test]
fn severity_orders_agree() {
    let all = [Severity::Info, Severity::Medium, Severity::High];
    for a in all {
        for b in all {
            assert_eq!(a.partial_cmp(&b), Some(a.cmp(&b)));
            assert_eq!(a < b, a.cmp(&b) == Ordering::Less);
            assert_eq!(a >= b, a.cmp(&b) != Ordering::Less);
            assert_eq!(a == b, a.cmp(&b) == Ordering::Equal);
        }
    }
    assert_eq!(all.iter().max(), Some(&Severity::High));
    assert_eq!(all.iter().min(), Some(&Severity::Info));
}

#[test]
fn severity_colors() {
    assert_eq!(Severity::Info.get_color(), 0x219ebc);
    assert_eq!(Severity::Medium.get_color(), 0xf77f00);
    assert_eq!(Severity::High.get_color(), 0xd62828);
}

#[test]
fn severity_max_with() {
    assert_eq!(Severity::Info.max_with(Severity::Info), Severity::Info);
    assert_eq!(Severity::Info.max_with(Severity::Medium), Severity::Medium);
    assert_eq!(Severity::Medium.max_with(Severity::Info), Severity::Medium);
    assert_eq!(Severity::High.max_with(Severity::Medium), Severity::High);
    assert_eq!(Severity::Medium.max_with(Severity::High), Severity::High);
    assert_eq!(Severity::Info.max_with(Severity::High), Severity::High);
}

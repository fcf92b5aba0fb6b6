use view_controller::markdown::{MarkdownViewStatus, MarkdownViewStatusEnum};
use view_controller::status::{evaluate_status, needs_status_write};

#[test]
fn no_observed_replicas_is_not_ready() {
    assert_eq!(evaluate_status(None, 3), MarkdownViewStatusEnum::NotReady);
}

#[test]
fn zero_observed_replicas_is_not_ready() {
    assert_eq!(evaluate_status(Some(0), 3), MarkdownViewStatusEnum::NotReady);
}

#[test]
fn zero_observed_replicas_is_not_ready_even_when_zero_are_desired() {
    assert_eq!(evaluate_status(Some(0), 0), MarkdownViewStatusEnum::NotReady);
}

#[test]
fn matching_replicas_are_available() {
    assert_eq!(evaluate_status(Some(3), 3), MarkdownViewStatusEnum::Available);
}

#[test]
fn fewer_replicas_than_desired_are_healthy() {
    assert_eq!(evaluate_status(Some(2), 3), MarkdownViewStatusEnum::Healthy);
}

#[test]
fn more_replicas_than_desired_are_healthy() {
    assert_eq!(evaluate_status(Some(5), 3), MarkdownViewStatusEnum::Healthy);
}

#[test]
fn any_replicas_are_healthy_when_zero_are_desired() {
    assert_eq!(evaluate_status(Some(1), 0), MarkdownViewStatusEnum::Healthy);
}

#[test]
fn a_negative_count_is_never_the_desired_one() {
    assert_eq!(evaluate_status(Some(-1), 3), MarkdownViewStatusEnum::Healthy);
    assert_eq!(evaluate_status(Some(-1), 4294967295), MarkdownViewStatusEnum::Healthy);
    assert_eq!(evaluate_status(Some(-2147483648), 2147483648), MarkdownViewStatusEnum::Healthy);
}

#[test]
fn the_largest_count_is_compared_as_it_is() {
    assert_eq!(evaluate_status(Some(2147483647), 2147483647), MarkdownViewStatusEnum::Available);
    assert_eq!(evaluate_status(Some(2147483647), 4294967295), MarkdownViewStatusEnum::Healthy);
}

#[test]
fn an_unchanged_status_needs_no_write() {
    assert!(!needs_status_write(
        Some(MarkdownViewStatusEnum::Available),
        MarkdownViewStatusEnum::Available
    ));
    assert!(!needs_status_write(
        Some(MarkdownViewStatusEnum::NotReady),
        MarkdownViewStatusEnum::NotReady
    ));
}

#[test]
fn a_changed_or_missing_status_needs_a_write() {
    assert!(needs_status_write(
        Some(MarkdownViewStatusEnum::Healthy),
        MarkdownViewStatusEnum::Available
    ));
    assert!(needs_status_write(None, MarkdownViewStatusEnum::NotReady));
}

#[test]
fn the_default_status_is_not_ready() {
    assert_eq!(MarkdownViewStatusEnum::default(), MarkdownViewStatusEnum::NotReady);
    assert!(!MarkdownViewStatus::default().is_ok);
}

#[test]
fn a_status_summary_is_cloned_as_it_is() {
    let ok = MarkdownViewStatus { is_ok: true };
    assert_eq!(ok.clone(), ok);
}

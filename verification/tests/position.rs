use deimos::component::position::PositionComponent;

#[test]
fn new_position_is_at_rest() {
    let p = PositionComponent::new(12, -7);
    assert_eq!(p.x(), 12);
    assert_eq!(p.y(), -7);
    assert_eq!(p.previous_x(), 12);
    assert_eq!(p.previous_y(), -7);
}

#[test]
fn update_moves_current_into_previous() {
    let mut p = PositionComponent::new(1, 2);
    p.update_x(10);
    assert_eq!((p.previous_x(), p.x()), (1, 10));
    assert_eq!((p.previous_y(), p.y()), (2, 2));
    p.update_y(20);
    assert_eq!((p.previous_y(), p.y()), (2, 20));
    assert_eq!((p.previous_x(), p.x()), (1, 10));
}

#[test]
fn double_buffering_over_a_run_of_updates() {
    let values = [5, -3, 40, 40, i32::MAX, i32::MIN, 0];
    let mut p = PositionComponent::new(99, 77);
    for k in 0..values.len() {
        p.update_x(values[k]);
        assert_eq!(p.x(), values[k]);
        if k >= 1 {
            assert_eq!(p.previous_x(), values[k - 1]);
        } else {
            assert_eq!(p.previous_x(), 99);
        }
        assert_eq!(p.y(), 77);
        assert_eq!(p.previous_y(), 77);
    }
    let mut q = PositionComponent::new(99, 77);
    for k in 0..values.len() {
        q.update_y(values[k]);
        assert_eq!(q.y(), values[k]);
        if k >= 1 {
            assert_eq!(q.previous_y(), values[k - 1]);
        } else {
            assert_eq!(q.previous_y(), 77);
        }
        assert_eq!(q.x(), 99);
    }
}

#[test]
fn reset_writes_both_slots() {
    let mut p = PositionComponent::new(1, 2);
    p.update_x(10);
    p.reset_x(50);
    assert_eq!((p.previous_x(), p.x()), (50, 50));
    assert_eq!((p.previous_y(), p.y()), (2, 2));
    p.update_y(3);
    p.reset_y(-8);
    assert_eq!((p.previous_y(), p.y()), (-8, -8));
    assert_eq!((p.previous_x(), p.x()), (50, 50));
}

#[test]
fn positions_compare_by_their_coordinates() {
    let mut p = PositionComponent::new(1, 2);
    let q = PositionComponent::new(1, 2);
    assert_eq!(p, q);
    p.update_x(1);
    assert_eq!(p, q);
    p.update_x(2);
    assert_ne!(p, q);
}

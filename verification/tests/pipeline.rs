use aflak::pipeline::{Transformation, Type, TypeContent};

fn image() -> Vec<Vec<f64>> {
    vec![vec![0.5, 1.5], vec![2.5, 3.5]]
}

#[test]
fn get_type_names_each_kind() {
    let i: TypeContent<Vec<Vec<f64>>> = TypeContent::Integer(7);
    let m: TypeContent<Vec<Vec<f64>>> = TypeContent::Image2d(image());
    assert_eq!(i.get_type(), Type::Integer);
    assert_eq!(m.get_type(), Type::Image2d);
}

#[test]
fn feeding_follows_the_signature() {
    let t = Transformation {
        input: vec![Type::Image2d, Type::Integer],
        output: vec![Type::Image2d],
    };
    let mut caller = t.start::<Vec<Vec<f64>>>();
    assert_eq!(caller.next_expected_type(), Some(Type::Image2d));
    caller.feed(TypeContent::Image2d(image()));
    assert_eq!(caller.next_expected_type(), Some(Type::Integer));
    caller.feed(TypeContent::Integer(3));
    assert_eq!(caller.next_expected_type(), None);
    let mut result = caller.call();
    assert!(result.next_result().is_none());
    assert!(result.next_result().is_none());
}

#[test]
fn a_transformation_without_inputs_is_called_at_once() {
    let t = Transformation { input: vec![], output: vec![Type::Integer] };
    let mut caller = t.start::<Vec<Vec<f64>>>();
    assert_eq!(caller.next_expected_type(), None);
    let mut result = caller.call();
    assert!(result.next_result().is_none());
}

use std::cell::RefCell;

use compute_cache::{process_vector, process_vector_with_loop};

#[test]
fn doubling_one_two_three() {
    assert_eq!(process_vector(vec![1, 2, 3], |x| x * 2), vec![2, 4, 6]);
    assert_eq!(process_vector_with_loop(vec![1, 2, 3], |x| x * 2), vec![2, 4, 6]);
}

#[test]
fn zeroing_values_above_two() {
    let zero_above_two = |x: i32| if x > 2 { 0 } else { x };
    assert_eq!(process_vector(vec![1, 2, 3], zero_above_two), vec![1, 2, 0]);
    assert_eq!(process_vector_with_loop(vec![1, 2, 3], zero_above_two), vec![1, 2, 0]);
}

#[test]
fn empty_list_gives_empty_list() {
    assert_eq!(process_vector(Vec::new(), |x| x + 1), Vec::<i32>::new());
    assert_eq!(process_vector_with_loop(Vec::new(), |x| x + 1), Vec::<i32>::new());
}

#[test]
fn single_element_list() {
    assert_eq!(process_vector(vec![-4], |x| x - 1), vec![-5]);
    assert_eq!(process_vector_with_loop(vec![-4], |x| x - 1), vec![-5]);
}

#[test]
fn identity_returns_the_input() {
    let input = vec![i32::MIN, -1, 0, 1, i32::MAX];
    assert_eq!(process_vector(input.clone(), |x| x), input);
    assert_eq!(process_vector_with_loop(input.clone(), |x| x), input);
}

#[test]
fn output_keeps_length_and_order() {
    let input: Vec<i32> = (0..100).collect();
    let output = process_vector(input.clone(), |x| 1000 - x);
    assert_eq!(output.len(), input.len());
    for i in 0..input.len() {
        assert_eq!(output[i], 1000 - input[i]);
    }
    let looped = process_vector_with_loop(input.clone(), |x| 1000 - x);
    assert_eq!(looped.len(), input.len());
    for i in 0..input.len() {
        assert_eq!(looped[i], 1000 - input[i]);
    }
}

#[test]
fn both_helpers_agree_on_pure_transforms() {
    let inputs: Vec<Vec<i32>> = vec![
        vec![],
        vec![0],
        vec![3, 1, 2],
        vec![5, 5, 5, 5],
        vec![-7, 40, -12, 9, 0, 33],
        vec![i32::MAX, i32::MIN],
    ];
    for input in inputs {
        assert_eq!(
            process_vector(input.clone(), |x| x.wrapping_mul(3)),
            process_vector_with_loop(input.clone(), |x| x.wrapping_mul(3))
        );
        assert_eq!(
            process_vector(input.clone(), |x| x % 4),
            process_vector_with_loop(input.clone(), |x| x % 4)
        );
        assert_eq!(
            process_vector(input.clone(), |x| if x > 2 { 0 } else { x }),
            process_vector_with_loop(input.clone(), |x| if x > 2 { 0 } else { x })
        );
    }
}

#[test]
fn transform_may_read_what_it_captured() {
    let offset = 10;
    assert_eq!(process_vector(vec![1, 2, 3], |x| x + offset), vec![11, 12, 13]);
    assert_eq!(process_vector_with_loop(vec![1, 2, 3], |x| x + offset), vec![11, 12, 13]);
}

#[test]
fn transform_is_called_once_per_element_from_first_to_last() {
    let seen = RefCell::new(Vec::new());
    let output = process_vector(vec![4, 5, 6], |x| {
        seen.borrow_mut().push(x);
        -x
    });
    assert_eq!(output, vec![-4, -5, -6]);
    assert_eq!(*seen.borrow(), vec![4, 5, 6]);

    seen.borrow_mut().clear();
    let looped = process_vector_with_loop(vec![4, 5, 6], |x| {
        seen.borrow_mut().push(x);
        -x
    });
    assert_eq!(looped, vec![-4, -5, -6]);
    assert_eq!(*seen.borrow(), vec![4, 5, 6]);
}

#[test]
fn repeated_values_are_each_transformed() {
    assert_eq!(process_vector(vec![2, 2, 3, 3], |x| x * x), vec![4, 4, 9, 9]);
    assert_eq!(process_vector_with_loop(vec![2, 2, 3, 3], |x| x * x), vec![4, 4, 9, 9]);
}

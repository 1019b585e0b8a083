use pong::elementwise::{square, square_basic};

#[test]
fn square_adds_element_wise() {
    let a = vec![1, 2, 3];
    let b = vec![10, 20, 30];
    let mut c = vec![0, 0, 0];
    square(&a, &b, &mut c);
    assert_eq!(c, vec![11, 22, 33]);
}

#[test]
fn square_basic_adds_element_wise() {
    let a = vec![-5, 0, 7, 100];
    let b = vec![5, -1, 3, -200];
    let mut c = vec![9, 9, 9, 9];
    square_basic(&a, &b, &mut c);
    assert_eq!(c, vec![0, -1, 10, -100]);
}

#[test]
fn square_fills_only_the_destination_length() {
    let a = vec![1, 2, 3, 4];
    let b = vec![1, 1, 1, 1];
    let mut c = vec![0, 0];
    square(&a, &b, &mut c);
    assert_eq!(c, vec![2, 3]);
}

#[test]
fn square_on_empty_destination_does_nothing() {
    let a: Vec<i32> = vec![];
    let b: Vec<i32> = vec![];
    let mut c: Vec<i32> = vec![];
    square(&a, &b, &mut c);
    assert!(c.is_empty());
}

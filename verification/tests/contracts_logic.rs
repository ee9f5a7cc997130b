//! Behavior of the modeled benchmark contracts.

use extrinsic_bench::contracts::{Test, Inner, SampleEvent};

#[test]
fn default_works() {
    let test = Test::default();
    assert_eq!(test.get_num(), 0);
    assert_eq!(test.get_s(), String::new());
}

#[test]
fn it_works() {
    let num = 100;
    let init_s = String::from("Hi!");
    let new_s = String::from("Hello!");
    let mut test = Test::new(num, init_s.clone());
    assert_eq!(test.get_num(), 100);
    assert_eq!(test.get_s(), init_s);
    test.update_num(num + 1);
    test.update_s(new_s.clone());
    assert_eq!(test.get_num(), num + 1);
    assert_eq!(test.get_s(), new_s);
}

#[test]
fn lib_default_works() {
    let inner = Inner::default();
    assert_eq!(inner.get(), 0);
}

#[test]
fn lib_it_works() {
    let mut inner = Inner::new(100);
    assert_eq!(inner.get(), 100);
    inner.update(1000);
    assert_eq!(inner.get(), 1000);
}

#[test]
fn fibonacci_of_the_workload_input() {
    let test = Test::default();
    assert_eq!(test.fibonacci(0), 0);
    assert_eq!(test.fibonacci(1), 1);
    assert_eq!(test.fibonacci(2), 1);
    assert_eq!(test.fibonacci(15), 610);
}

#[test]
fn odd_product_of_the_workload_input() {
    let test = Test::default();
    assert_eq!(test.odd_product(0), 1);
    assert_eq!(test.odd_product(1), 1);
    assert_eq!(test.odd_product(3), 15);
    assert_eq!(test.odd_product(15), 6190283353629375);
}

#[test]
fn sample_event_is_emitted() {
    let test = Test::default();
    assert_eq!(test.emit_sample_event(), SampleEvent);
}

#[test]
fn triangle_number_of_the_workload_input() {
    let test = Test::default();
    assert_eq!(test.triangle_number(0), 0);
    assert_eq!(test.triangle_number(15), 120);
    assert_eq!(test.triangle_number(4294967295), 9223372034707292160);
}

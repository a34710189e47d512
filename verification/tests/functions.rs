use calculator::functions::{apply_to_array, get_max, sum_array, Rectangle};

#[test]
fn add_adds() {
    assert_eq!(calculator::functions::add(10, 20), 30);
    assert_eq!(calculator::functions::add(5, 7), 12);
    assert_eq!(calculator::functions::add(-3, 3), 0);
    assert_eq!(calculator::functions::add(i32::MAX, 0), i32::MAX);
    assert_eq!(calculator::functions::add(i32::MIN, i32::MAX), -1);
}

#[test]
fn get_max_picks_the_larger() {
    assert_eq!(get_max(5, 10), 10);
    assert_eq!(get_max(10, 5), 10);
    assert_eq!(get_max(7, 7), 7);
    assert_eq!(get_max(-1, -2), -1);
    assert_eq!(get_max(i32::MIN, i32::MAX), i32::MAX);
}

#[test]
fn sum_array_sums() {
    assert_eq!(sum_array([1, 2, 3, 4, 5]), 15);
    assert_eq!(sum_array([0, 0, 0, 0, 0]), 0);
    assert_eq!(sum_array([-1, -2, -3, -4, -5]), -15);
    assert_eq!(sum_array([i32::MAX, -1, -1, 1, 1]), i32::MAX);
    assert_eq!(sum_array([i32::MIN, i32::MAX, 1, 0, 0]), 0);
}

#[test]
fn apply_to_array_applies() {
    let numbers = [1, 2, 3, 4, 5];
    assert_eq!(apply_to_array(numbers, sum_array), 15);
    assert_eq!(apply_to_array(numbers, |arr: [i32; 5]| arr[4]), 5);
    let offset = 10;
    assert_eq!(apply_to_array(numbers, move |arr: [i32; 5]| arr[0] + offset), 11);
}

#[test]
fn rectangle_area_and_shape() {
    let rect = Rectangle { width: 30, height: 50 };
    assert_eq!(rect.area(), 1500);
    assert!(!rect.is_square());
    assert_eq!(Rectangle { width: 0, height: 9 }.area(), 0);
    assert_eq!(Rectangle { width: 65535, height: 65537 }.area(), u32::MAX);
}

#[test]
fn create_square_makes_a_square() {
    let square = Rectangle::create_square(25);
    assert_eq!(square, Rectangle { width: 25, height: 25 });
    assert_eq!(square.area(), 625);
    assert!(square.is_square());
    assert!(Rectangle::create_square(0).is_square());
}

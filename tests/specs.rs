use concision::specs::{BinaryNum, Pair, Product, VectorSpace};
use concision::{features, layers, layout};

#[test]
fn test() {
    let f = |x: usize, y: usize| x + y;
    let actual = f(4, 4);
    let expected: usize = 8;
    assert_eq!(actual, expected)
}

#[test]
fn test_product() {
    let args = vec![2, 4, 6];
    assert_eq!(args.product(), 48);
}

#[test]
fn product_of_empty_is_one() {
    let args: Vec<i32> = vec![];
    assert_eq!(args.product(), 1);
    assert_eq!(vec![-3, 5].product(), -15);
}

#[test]
fn pairs_of_shapes() {
    assert_eq!(features::Features::new(3, 2).pair(), (2, 3));
    assert_eq!(layout::Features::new(4, 7).pair(), (4, 7));
    assert_eq!(layers::LayerShape::new(5, 1).pair(), (5, 1));
}

#[test]
fn binary_numbers() {
    assert_eq!(<i64 as BinaryNum>::zero(), 0);
    assert_eq!(<i64 as BinaryNum>::one(), 1);
}

#[test]
fn vector_space_orders_by_coordinates() {
    let a = VectorSpace(vec![1, 2]);
    let b = VectorSpace(vec![1, 3]);
    assert!(a < b);
    assert_eq!(a.clone(), a);
}

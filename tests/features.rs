use concision::features::Features;
use concision::layers::{self, FeaturesExt, IntoFeatures, LayerShape};
use concision::layout;
use concision::shape::{attention_shape, dot_shape, element_count, same_shape, ShapeError};

#[test]
fn features_round_trip_through_dimension() {
    let f = Features::new(5, 3);
    let dim = f.into_dimension();
    assert_eq!(ndarray::Dimension::into_pattern(dim), (3, 5));
    assert_eq!(Features::from_dimension(dim), f);
}

#[test]
fn features_round_trip_through_pair_and_array() {
    let f = Features::new(5, 3);
    let p: (usize, usize) = f.into();
    assert_eq!(p, (3, 5));
    assert_eq!(Features::from(p), f);
    let a: [usize; 2] = f.into();
    assert_eq!(a, [3, 5]);
    assert_eq!(Features::from(a), f);
}

#[test]
fn features_of_a_neuron() {
    let f = Features::neuron(4);
    assert_eq!((f.inputs(), f.outputs()), (4, 1));
    assert_eq!(Features::from(4usize), f);
}

#[test]
fn features_from_shape_slices() {
    assert_eq!(Features::from_shape_slice(&[7]), Ok(Features::new(7, 1)));
    assert_eq!(Features::from_shape_slice(&[2, 3, 9]), Ok(Features::new(3, 2)));
    assert_eq!(Features::from_shape_slice(&[]), Err(ShapeError::IncompatibleShape));
}

#[test]
fn layout_features_from_dims() {
    assert_eq!(layout::features(&[6]), Ok(layout::Features::new(1, 6)));
    assert_eq!(layout::features(&[4, 8]), Ok(layout::Features::new(4, 8)));
    assert_eq!(layout::features(&[]), Err(ShapeError::IncompatibleShape));
    let f = layout::Features::from_dim(&[4, 8]);
    assert_eq!((f.features(), f.dmodel()), (4, 8));
    assert_eq!(f.into_pattern(), (4, 8));
    assert_eq!(layout::Features::neuron(5), layout::Features::new(1, 5));
    assert_eq!(layout::Features::from(5usize), layout::Features::new(1, 5));
    let a: [usize; 2] = f.into();
    assert_eq!(layout::Features::from(a), f);
}

#[test]
fn layer_shape_accessors_and_traits() {
    let s = LayerShape::new(3, 2);
    assert_eq!(s.in_by_out(), (3, 2));
    assert_eq!(s.out_by_in(), (2, 3));
    assert_eq!(LayerShape::neuron(3), LayerShape::new(3, 1));
    assert_eq!(<LayerShape as FeaturesExt>::single(6), LayerShape::new(6, 1));
    assert_eq!(<LayerShape as layers::Features>::out_by_in(&s), (2, 3));
    assert_eq!((4usize, 9usize).into_features(), LayerShape::new(4, 9));
    let a: [usize; 2] = s.into();
    assert_eq!(a, [2, 3]);
    assert_eq!(LayerShape::from(a), s);
}

#[test]
fn shapes_of_products() {
    assert_eq!(dot_shape((20, 5), (5, 3)), Ok((20, 3)));
    assert_eq!(dot_shape((20, 5), (3, 5)), Err(ShapeError::IncompatibleShape));
    assert_eq!(element_count((4, 6)), Ok(24));
    assert_eq!(element_count((usize::MAX, 2)), Err(ShapeError::Overflow));
}

#[test]
fn layout_and_layer_shapes_round_trip_through_dimension() {
    let f = layout::Features::new(3, 5);
    let d = f.into_dimension();
    assert_eq!(ndarray::Dimension::into_pattern(d), (3, 5));
    assert_eq!(layout::Features::from_dimension(d), f);
    let s = LayerShape::new(5, 3);
    let e = s.into_dimension();
    assert_eq!(ndarray::Dimension::into_pattern(e), (3, 5));
    assert_eq!(LayerShape::from_dimension(e), s);
    assert_eq!(layout::Features::from_dim(&[6]), layout::Features::new(1, 6));
}

#[test]
fn shapes_of_attention() {
    assert_eq!(same_shape((2, 3), (2, 3)), Ok((2, 3)));
    assert_eq!(same_shape((2, 3), (3, 2)), Err(ShapeError::IncompatibleShape));
    assert_eq!(attention_shape((4, 8), (4, 8), (4, 4)), Ok((4, 8)));
    assert_eq!(attention_shape((4, 8), (4, 8), (8, 8)), Err(ShapeError::IncompatibleShape));
    assert_eq!(attention_shape((4, 8), (4, 7), (4, 4)), Err(ShapeError::IncompatibleShape));
    assert_eq!(ShapeError::Overflow.describe(), "arithmetic overflow");
}

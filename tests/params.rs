use concision::activate::{heavyside, linear_activation, Activate, LinearActivation};
use concision::features::Features;
use concision::layers::LayerShape;
use concision::linear::Linear;
use concision::network::ShallowNetwork;
use concision::params::{ParamMode, Params};
use concision::shape::{PredictError, ShapeError};

#[test]
fn zeros_have_the_layer_shape() {
    let p = Params::<f64>::zeros(true, Features::new(3, 2));
    assert_eq!(p.dim(), (2, 3));
    assert_eq!(p.weights().len(), 6);
    assert!(p.weights().iter().all(|w| *w == 0.0));
    assert_eq!(p.bias().map(|b| b.len()), Some(2));
    assert!(p.is_biased());
    let q = Params::<f64>::zeros(false, Features::new(3, 2));
    assert!(q.bias().is_none());
    assert_eq!(q.mode(), ParamMode::Unbiased);
}

#[test]
fn predict_shape_follows_inputs() {
    let p = Params::<f64>::zeros(true, Features::new(5, 3));
    assert_eq!(p.predict_shape((20, 5)), Ok((20, 3)));
    assert_eq!(
        p.predict_shape((20, 4)),
        Err(PredictError::Shape(ShapeError::IncompatibleShape))
    );
}

#[test]
fn parts_are_checked() {
    let p = Params::from_parts(Features::new(2, 2), vec![1.0, 0.0, 0.0, 1.0], Some(vec![0.0, 0.0]))
        .unwrap();
    assert_eq!(p.weight(0, 0), 1.0);
    assert_eq!(p.weight(0, 1), 0.0);
    assert_eq!(p.weight(1, 1), 1.0);
    assert!(p.is_biased());
    let bad = Params::from_parts(Features::new(2, 2), vec![1.0, 0.0, 0.0], None);
    assert_eq!(bad.unwrap_err(), ShapeError::IncompatibleShape);
    let bad_bias = Params::from_parts(Features::new(2, 2), vec![0.0; 4], Some(vec![0.0]));
    assert_eq!(bad_bias.unwrap_err(), ShapeError::IncompatibleShape);
    let (f, w, b) = p.into_parts();
    assert_eq!(f, Features::new(2, 2));
    assert_eq!(w, vec![1.0, 0.0, 0.0, 1.0]);
    assert_eq!(b, Some(vec![0.0, 0.0]));
}

#[test]
fn nodes_are_rows() {
    let mut p = Params::<i64>::filled(true, Features::new(3, 2), 7);
    p.set_weight(1, 2, 9);
    assert_eq!(p.node(1), (vec![7, 7, 9], Some(7)));
    assert_eq!(p.set_node(0, &[1, 2, 3], Some(4)), Ok(()));
    assert_eq!(p.node(0), (vec![1, 2, 3], Some(4)));
    assert_eq!(p.node(1), (vec![7, 7, 9], Some(7)));
    assert_eq!(p.set_node(0, &[1, 2], None), Err(ShapeError::IncompatibleShape));
    assert_eq!(p.weights(), &vec![1, 2, 3, 7, 7, 9]);
}

#[test]
fn reshape_reallocates() {
    let mut p = Params::<i64>::filled(true, Features::new(3, 2), 7);
    assert_eq!(p.reshape(Features::new(2, 4), 0), Ok(()));
    assert_eq!(p.dim(), (4, 2));
    assert_eq!(p.weights(), &vec![0; 8]);
    assert_eq!(p.bias(), Some(&vec![0; 4]));
    let before = p.clone();
    assert_eq!(p.reshape(Features::new(usize::MAX, 2), 0), Err(ShapeError::Overflow));
    assert_eq!(p, before);
}

#[test]
fn linear_layers_validate_neighbours() {
    let a = Linear::<f64, LinearActivation>::new(LinearActivation, true, LayerShape::new(5, 3), "a");
    let b = Linear::<f64, LinearActivation>::from_features(3, 2);
    assert!(a.validate_layer(&b, false));
    assert!(!a.validate_layer(&b, true));
    assert!(b.validate_layer(&a, true));
    assert_eq!(a.validate_layer(&b, false), a.validate_layer(&b, false));
    assert_eq!(a.name(), "a");
    assert!(a.is_biased());
    assert!(!b.is_biased());
    assert_eq!(b.features(), LayerShape::new(3, 2));
    let net = ShallowNetwork::new(a.clone(), b.clone());
    assert!(net.validate_dims());
    assert!(!ShallowNetwork::new(b, a).validate_dims());
}

#[test]
fn linear_layers_reshape_and_rename() {
    let mut a = Linear::<f64, LinearActivation>::new(LinearActivation, false, LayerShape::new(5, 3), "a");
    assert_eq!(a.reshape(2, 4), Ok(()));
    assert_eq!(a.features(), LayerShape::new(2, 4));
    assert_eq!(a.params().weights().len(), 8);
    assert!(!a.is_biased());
    a.set_name("b");
    assert_eq!(a.name(), "b");
    let a = a.with_name("c");
    assert_eq!(a.name(), "c");
    a.params().weights().iter().for_each(|w| assert_eq!(*w, 0.0));
}

#[test]
fn activations() {
    assert_eq!(heavyside(&3), 1);
    assert_eq!(heavyside(&0), 0);
    assert_eq!(heavyside(&-2), 0);
    assert_eq!(linear_activation(&2.5), 2.5);
    assert_eq!(<LinearActivation as Activate<i32>>::activate(&LinearActivation, 4), 4);
}

#[test]
fn bias_entries_update_only_when_biased() {
    let mut a = Linear::<i64, LinearActivation>::new(LinearActivation, true, LayerShape::new(2, 3), "a");
    assert_eq!(a.update_bias_at(1, 5), Ok(()));
    assert_eq!(a.params().bias(), Some(&vec![0, 5, 0]));
    let mut p = Params::<i64>::zeros(false, Features::new(2, 3));
    assert_eq!(p.update_bias_at(1, 5), Err(ShapeError::IncompatibleLayout));
    assert!(p.bias().is_none());
}

#[test]
fn linear_nodes_replace_rows() {
    let mut a = Linear::<i64, LinearActivation>::new(LinearActivation, true, LayerShape::new(2, 2), "a");
    assert_eq!(a.set_node(1, &[3, 4], Some(5)), Ok(()));
    assert_eq!(a.params().node(1), (vec![3, 4], Some(5)));
    assert_eq!(a.params().node(0), (vec![0, 0], Some(0)));
    assert_eq!(a.set_node(0, &[1], None), Err(ShapeError::IncompatibleShape));
}

#[test]
fn params_equal_by_features_weights_and_bias() {
    let a = Params::<i64>::zeros(true, Features::new(3, 2));
    let b = Params::<i64>::filled(true, Features::new(3, 2), 0);
    assert!(a == b);
    let c = Params::<i64>::zeros(false, Features::new(3, 2));
    assert!(a != c);
    let d = Params::<i64>::zeros(true, Features::new(2, 3));
    assert!(a != d);
    let mut e = b.clone();
    e.set_weight(0, 0, 1);
    assert!(a != e);
}

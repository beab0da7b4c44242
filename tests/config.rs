use concision::config::S4Config;
use concision::error::{Error, ErrorKind};
use concision::errors::{self, Errors};
use concision::nn::QKV;

#[test]
fn s4_config_builders() {
    let c = S4Config::new(true, 4, 16);
    assert!(c.decode());
    assert_eq!((c.features(), c.samples()), (4, 16));
    let d = c.with_decode(false).with_features(8).with_samples(32);
    assert_eq!(d, S4Config::new(false, 8, 32));
    let mut e = d;
    e.set_decode(true);
    e.set_features(2);
    e.set_samples(3);
    assert_eq!(e, S4Config::new(true, 2, 3));
}

#[test]
fn errors_keep_kind_and_message() {
    let e = Error::new(ErrorKind::Shape, "bad shape");
    assert_eq!(*e.kind(), ErrorKind::Shape);
    assert_eq!(e.message(), "bad shape");
    assert_eq!(e.id().len(), 32);
    assert!(e.id().chars().all(|c| c.is_ascii_digit() || ('a'..='f').contains(&c)));
    assert_eq!(e.describe(), "shape: bad shape");
    let f = e.clone().with_message("other");
    assert_eq!(f.id(), e.id());
    assert_eq!(f.message(), "other");
    let g = Error::from_kind(ErrorKind::LinAlg);
    assert_eq!(g.message(), "");
    assert_eq!(g.kind().as_str(), "linalg");
}

#[test]
fn general_errors_are_stamped() {
    let mut e = errors::Error::new(Errors::IO, String::from("disk"));
    assert_eq!(*e.kind(), Errors::IO);
    assert_eq!(e.message(), "disk");
    assert!(e.ts() > 0);
    e.set_kind(Errors::Syntax);
    e.set_message(String::from("parse"));
    assert_eq!(e.kind().as_str(), "syntax");
    assert_eq!(e.describe(), "Error: parse");
    let f = e.clone().with_kind(Errors::Unknown).with_message(String::from("x"));
    assert_eq!(f.ts(), e.ts());
    assert_eq!(Errors::default(), Errors::Error(String::new()));
    assert_eq!(Errors::default().as_str(), "error");
}

#[test]
fn qkv_lists_three_projections() {
    assert_eq!(QKV::all(), [QKV::Key, QKV::Query, QKV::Value]);
}

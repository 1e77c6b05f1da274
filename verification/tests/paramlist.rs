use irctext::{FinalParam, MedialParam, Parameter};
use irctext::{MiddleParam, ParameterList, TrailingParam, TryFromParameterListError};

#[test]
fn trailing_into_one_or_two() {
    let params =
        ParameterList::builder().with_trailing("#testnet".parse::<TrailingParam>().unwrap());
    let (p1, p2): (MiddleParam, Option<TrailingParam>) =
        params.try_into_middle_opt_trailing().unwrap();
    assert_eq!(p1.as_str(), "#testnet");
    assert!(p2.is_none());
}

#[test]
fn parse_and_render_roundtrip() {
    let p = ParameterList::parse_str("a b :c d").unwrap();
    assert_eq!(p.len(), 3);
    assert_eq!(p.get(2).unwrap().as_str(), "c d");
    assert!(p.get(2).unwrap().is_trailing());
    assert_eq!(p.to_string(), "a b :c d");
    let q = ParameterList::parse_str(&p.to_string()).unwrap();
    assert_eq!(q, p);
}

#[test]
fn trailing_not_middle() {
    let params =
        ParameterList::builder().with_trailing("two words".parse::<TrailingParam>().unwrap());
    assert_eq!(
        params.try_into_middle_opt_trailing(),
        Err(TryFromParameterListError::TrailingNotMiddle)
    );
}

#[test]
fn into_iter_both_ends() {
    let p = ParameterList::parse_str("a b :c").unwrap();
    let mut it = p.clone().into_iter();
    assert_eq!(it.len(), 3);
    assert_eq!(it.next().unwrap().as_str(), "a");
    assert_eq!(it.next_back().unwrap().as_str(), "c");
    let rest = it.into_parameter_list();
    assert_eq!(rest.to_string(), "b");
    let whole = p.clone().into_iter().into_parameter_list();
    assert_eq!(whole, p);
}

#[test]
fn builder_middles() {
    let p = ParameterList::builder()
        .with_middle("x".parse::<MiddleParam>().unwrap())
        .with_middle("y".parse::<MiddleParam>().unwrap())
        .finish();
    assert_eq!(p.to_string(), "x y");
    assert!(p.last().unwrap().is_middle());
}

#[test]
fn parameter_conversions() {
    let m = MiddleParam::parse_str("abc").unwrap();
    let t = TrailingParam::from(m);
    assert_eq!(t.as_str(), "abc");
    let p = Parameter::from(t);
    assert!(p.is_trailing());
    assert_eq!(String::from(p), "abc");
    let f = FinalParam::from(MedialParam::parse_str("x:y").unwrap());
    assert_eq!(f.as_str(), "x:y");
}

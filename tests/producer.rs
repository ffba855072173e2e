use sequence_manipulators::producer::Producer;

#[test]
fn option_produces_its_value_once() {
    let mut source: Option<u32> = Some(5);
    assert_eq!(source.produce(), Ok(5));
    assert_eq!(source, None);
    assert_eq!(source.produce(), Err(()));
    assert_eq!(source, None);
}

#[test]
fn option_slurp_changes_nothing() {
    let mut full: Option<u32> = Some(5);
    assert_eq!(full.slurp(), Ok(()));
    assert_eq!(full, Some(5));
    let mut empty: Option<u32> = None;
    assert_eq!(empty.slurp(), Ok(()));
    assert_eq!(empty, None);
}

#[test]
fn option_stop_changes_nothing() {
    let mut full: Option<u32> = Some(5);
    assert_eq!(full.stop(()), Ok(()));
    assert_eq!(full, Some(5));
    let mut empty: Option<u32> = None;
    assert_eq!(empty.stop(()), Ok(()));
    assert_eq!(empty, None);
}

#[test]
fn failed_produce_leaves_source_unchanged() {
    let mut empty: Option<String> = None;
    let before = empty.clone();
    assert!(empty.produce().is_err());
    assert_eq!(empty, before);
}

#[test]
fn slurp_produce_matches_slurp_then_produce() {
    let mut direct: Option<u32> = Some(7);
    let mut stepwise: Option<u32> = Some(7);
    let one = direct.slurp_produce();
    assert_eq!(stepwise.slurp(), Ok(()));
    let two = stepwise.produce();
    assert_eq!(one, Ok(7));
    assert_eq!(one, two);
    assert_eq!(direct, stepwise);
    assert_eq!(direct.slurp_produce(), Err(()));
    assert_eq!(stepwise.slurp(), Ok(()));
    assert_eq!(stepwise.produce(), Err(()));
    assert_eq!(direct, stepwise);
}

#[test]
fn option_slurp_produce_is_produce() {
    let mut source: Option<u32> = Some(5);
    assert_eq!(source.slurp_produce(), Ok(5));
    assert_eq!(source, None);
    assert_eq!(source.slurp_produce(), Err(()));
    assert_eq!(source, None);
}

use cfg_adapter::apply_cfg;
use cfg_adapter::AccessFault;
use cfg_adapter::SharedState;

#[test]
fn immediate_adapter_hands_out_config_and_pair() {
    let mut shared: SharedState<String> = SharedState::new();
    let adapter = apply_cfg(&mut shared, String::from("ready service+transform"));

    let handed = adapter.new_service(&mut shared, 42u32);
    assert_eq!(
        handed,
        Ok((42u32, String::from("ready service+transform")))
    );
    // the driver calls the transform synchronously here, then returns the pair
    adapter.construction_finished(&mut shared, String::from("ready service+transform"));
    assert!(shared.is_occupied(0));
}

#[test]
fn overlapping_constructions_on_duplicates_fail_fast() {
    let mut shared: SharedState<String> = SharedState::new();
    let adapter = apply_cfg(&mut shared, String::from("pair"));
    let duplicate = adapter.clone();

    let first = adapter.new_service(&mut shared, 1u32);
    assert!(first.is_ok());
    // the duplicate shares the same underlying pair: a second construction
    // while the first is outstanding is a borrow conflict, not corruption
    let second = duplicate.new_service(&mut shared, 2u32);
    assert_eq!(second, Err(AccessFault));

    let (_, pair) = first.unwrap();
    adapter.construction_finished(&mut shared, pair);

    // once the first construction has finished, the duplicate succeeds
    let third = duplicate.new_service(&mut shared, 3u32);
    assert_eq!(third, Ok((3u32, String::from("pair"))));
}

#[test]
fn independent_adapters_do_not_share_state() {
    let mut shared: SharedState<String> = SharedState::new();
    let left = apply_cfg(&mut shared, String::from("left pair"));
    let right = apply_cfg(&mut shared, String::from("right pair"));
    assert_eq!(shared.len(), 2);

    let held = left.new_service(&mut shared, 1u32);
    assert_eq!(held, Ok((1u32, String::from("left pair"))));
    // the other adapter wraps its own pair and is unaffected
    let other = right.new_service(&mut shared, 2u32);
    assert_eq!(other, Ok((2u32, String::from("right pair"))));
}

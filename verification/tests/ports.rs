use blot::error::ProvisionError;
use blot::ports::{allocate_port, port_in_use};

#[test]
fn empty_store_gives_the_first_port() {
    assert_eq!(allocate_port(&vec![], 25565, 25568), Ok(25565));
}

#[test]
fn lowest_free_port_is_taken() {
    assert_eq!(allocate_port(&vec![25565, 25566], 25565, 25568), Ok(25567));
    assert_eq!(allocate_port(&vec![25566, 25567], 25565, 25568), Ok(25565));
    assert_eq!(allocate_port(&vec![25565, 25567], 25565, 25568), Ok(25566));
}

#[test]
fn full_range_has_no_port() {
    assert_eq!(
        allocate_port(&vec![25565, 25566, 25567], 25565, 25568),
        Err(ProvisionError::NoPortAvailable)
    );
}

#[test]
fn empty_range_has_no_port() {
    assert_eq!(allocate_port(&vec![], 25565, 25565), Err(ProvisionError::NoPortAvailable));
    assert_eq!(allocate_port(&vec![], 10, 5), Err(ProvisionError::NoPortAvailable));
}

#[test]
fn order_and_repetition_of_used_ports_do_not_matter() {
    let a = allocate_port(&vec![25565, 25566, 25568], 25565, 25570);
    let b = allocate_port(&vec![25568, 25566, 25565, 25566], 25565, 25570);
    assert_eq!(a, Ok(25567));
    assert_eq!(a, b);
}

#[test]
fn same_input_gives_same_port() {
    let used = vec![25565, 25567];
    assert_eq!(allocate_port(&used, 25565, 25570), allocate_port(&used, 25565, 25570));
}

#[test]
fn ports_outside_the_range_are_ignored() {
    assert_eq!(allocate_port(&vec![1, 2, 99999], 25565, 25568), Ok(25565));
}

#[test]
fn port_zero_can_be_allocated() {
    assert_eq!(allocate_port(&vec![], 0, 3), Ok(0));
    assert_eq!(allocate_port(&vec![0], 0, 3), Ok(1));
}

#[test]
fn negative_bounds_are_served() {
    assert_eq!(allocate_port(&vec![-2], -2, 1), Ok(-1));
}

#[test]
fn port_in_use_finds_members() {
    assert!(port_in_use(&vec![3, 5, 8], 5));
    assert!(!port_in_use(&vec![3, 5, 8], 4));
    assert!(!port_in_use(&vec![], 4));
}

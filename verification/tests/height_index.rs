use zebra_rpc_core::chain::{Height, MAX_HEIGHT};
use zebra_rpc_core::get_block_template_rpcs::get_height_from_int;
use zebra_rpc_core::rpc_error::{RpcError, INVALID_PARAMS_CODE};

fn invalid(message: &str) -> RpcError {
    RpcError { code: INVALID_PARAMS_CODE, message: message.to_string() }
}

#[test]
fn non_negative_index_is_the_height() {
    assert_eq!(get_height_from_int(0, Height(10)), Ok(Height(0)));
    assert_eq!(get_height_from_int(7, Height(10)), Ok(Height(7)));
    assert_eq!(get_height_from_int(10, Height(10)), Ok(Height(10)));
}

#[test]
fn index_above_tip_is_invalid() {
    assert_eq!(
        get_height_from_int(11, Height(10)),
        Err(invalid("Provided index is greater than the current tip"))
    );
    assert_eq!(
        get_height_from_int(i32::MAX, Height(0)),
        Err(invalid("Provided index is greater than the current tip"))
    );
}

#[test]
fn minus_one_is_the_tip() {
    assert_eq!(get_height_from_int(-1, Height(10)), Ok(Height(10)));
    assert_eq!(get_height_from_int(-1, Height(0)), Ok(Height(0)));
    assert_eq!(get_height_from_int(-1, Height(MAX_HEIGHT)), Ok(Height(MAX_HEIGHT)));
}

#[test]
fn negative_index_counts_back_from_the_tip() {
    assert_eq!(get_height_from_int(-3, Height(10)), Ok(Height(8)));
    assert_eq!(get_height_from_int(-11, Height(10)), Ok(Height(0)));
    for index in 0..=10 {
        assert_eq!(get_height_from_int(index, Height(10)), get_height_from_int(index - 11, Height(10)));
    }
}

#[test]
fn negative_index_below_genesis_is_invalid() {
    assert_eq!(
        get_height_from_int(-12, Height(10)),
        Err(invalid("Provided negative index ends up with a negative height"))
    );
    assert_eq!(
        get_height_from_int(i32::MIN, Height(MAX_HEIGHT - 1)),
        Err(invalid("Provided negative index ends up with a negative height"))
    );
}

#[test]
fn extreme_indices_at_the_maximum_tip() {
    assert_eq!(get_height_from_int(i32::MIN, Height(MAX_HEIGHT)), Ok(Height(0)));
    assert_eq!(get_height_from_int(i32::MIN + 1, Height(MAX_HEIGHT)), Ok(Height(1)));
    assert_eq!(get_height_from_int(i32::MAX, Height(MAX_HEIGHT)), Ok(Height(MAX_HEIGHT)));
}

#[test]
fn non_negative_index_with_a_tip_above_i32() {
    assert_eq!(get_height_from_int(5, Height(u32::MAX)), Ok(Height(5)));
    assert_eq!(get_height_from_int(i32::MAX, Height(u32::MAX)), Ok(Height(MAX_HEIGHT)));
    assert_eq!(get_height_from_int(0, Height(MAX_HEIGHT + 1)), Ok(Height(0)));
}

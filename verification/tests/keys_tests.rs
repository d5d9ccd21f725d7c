use tonk_game::keys::{
    building_index_key, decimal_string, game_key, player_index_key, player_key, result_key,
};

#[test]
fn decimal_of_zero_is_single_digit() {
    assert_eq!(decimal_string(0), "0");
}

#[test]
fn decimal_of_single_digits() {
    assert_eq!(decimal_string(7), "7");
    assert_eq!(decimal_string(9), "9");
}

#[test]
fn decimal_of_multi_digit_numbers() {
    assert_eq!(decimal_string(10), "10");
    assert_eq!(decimal_string(180), "180");
    assert_eq!(decimal_string(1234567), "1234567");
}

#[test]
fn decimal_of_largest_u32() {
    assert_eq!(decimal_string(u32::MAX), "4294967295");
}

#[test]
fn decimal_matches_std_formatting() {
    for n in [0u32, 1, 5, 10, 42, 99, 100, 101, 65535, 1_000_000, 987_654_321] {
        assert_eq!(decimal_string(n), n.to_string());
    }
}

#[test]
fn fixed_keys() {
    assert_eq!(game_key(), "game");
    assert_eq!(building_index_key(), "building:index");
}

#[test]
fn player_key_prefixes_the_id() {
    assert_eq!(player_key("0xabc"), "player:0xabc");
    assert_eq!(player_key(""), "player:");
}

#[test]
fn player_index_key_embeds_the_game_id() {
    assert_eq!(player_index_key("g1"), "game:g1:player_index");
}

#[test]
fn result_key_embeds_game_and_round() {
    assert_eq!(result_key("g1", "3"), "result:g1:3");
    assert_eq!(result_key("g1", "abc"), "result:g1:abc");
}

#[test]
fn distinct_rounds_give_distinct_result_keys() {
    let a = result_key("g", &decimal_string(1));
    let b = result_key("g", &decimal_string(10));
    assert_ne!(a, b);
}

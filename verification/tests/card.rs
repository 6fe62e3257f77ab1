use postflop_solver::game::card_weights;
use postflop_solver::card::{card_from_str, card_to_string, flop_from_str, hole_to_string, u8_to_decimal};
use postflop_solver::game::get_card_index_from_str;

#[test]
fn card_indices_of_names() {
    assert_eq!(card_from_str("2c"), Ok(0));
    assert_eq!(card_from_str("2d"), Ok(1));
    assert_eq!(card_from_str("2h"), Ok(2));
    assert_eq!(card_from_str("As"), Ok(51));
    assert_eq!(card_from_str("Js"), Ok(39));
    assert_eq!(card_from_str("Td"), Ok(33));
    assert_eq!(card_from_str("ks"), Ok(47));
}

#[test]
fn card_index_from_str_reports_errors() {
    assert_eq!(get_card_index_from_str("2d"), Ok(1));
    assert_eq!(get_card_index_from_str("As"), Ok(51));
    assert_eq!(
        get_card_index_from_str("A"),
        Err("Error parsing card string: Unexpected end".to_string())
    );
    assert_eq!(
        get_card_index_from_str("1s"),
        Err("Error parsing card string: Expected rank character: 1".to_string())
    );
    assert_eq!(
        get_card_index_from_str("Ax"),
        Err("Error parsing card string: Expected suit character: x".to_string())
    );
    assert_eq!(
        get_card_index_from_str("AsK"),
        Err("Error parsing card string: Expected exactly two characters".to_string())
    );
}

#[test]
fn card_names_round_trip() {
    for c in 0u8..52 {
        let name = card_to_string(c).unwrap();
        assert_eq!(name.chars().count(), 2);
        assert_eq!(card_from_str(&name), Ok(c));
    }
    assert_eq!(card_to_string(51), Ok("As".to_string()));
    assert_eq!(card_to_string(0), Ok("2c".to_string()));
    assert_eq!(card_to_string(33), Ok("Td".to_string()));
}

#[test]
fn invalid_card_values() {
    assert_eq!(card_to_string(52), Err("Invalid card: 52".to_string()));
    assert_eq!(card_to_string(255), Err("Invalid card: 255".to_string()));
    assert_eq!(card_to_string(100), Err("Invalid card: 100".to_string()));
}

#[test]
fn decimal_numerals() {
    assert_eq!(u8_to_decimal(0), "0");
    assert_eq!(u8_to_decimal(9), "9");
    assert_eq!(u8_to_decimal(10), "10");
    assert_eq!(u8_to_decimal(99), "99");
    assert_eq!(u8_to_decimal(100), "100");
    assert_eq!(u8_to_decimal(207), "207");
}

#[test]
fn hole_names_put_the_higher_card_first() {
    assert_eq!(hole_to_string((0, 51)), Ok("As2c".to_string()));
    assert_eq!(hole_to_string((51, 0)), Ok("As2c".to_string()));
    assert_eq!(hole_to_string((47, 51)), hole_to_string((51, 47)));
    assert_eq!(hole_to_string((3, 60)), Err("Invalid card: 60".to_string()));
}

#[test]
fn flops_of_names() {
    assert_eq!(flop_from_str("AsKsQs"), Ok([51, 47, 43]));
    assert_eq!(flop_from_str("2s3s4s"), Ok([3, 7, 11]));
    assert_eq!(flop_from_str("AsAsQs"), Err("Cards must be unique".to_string()));
    assert_eq!(flop_from_str("AsKs"), Err("Unexpected end".to_string()));
    assert_eq!(flop_from_str("AsKsQsJs"), Err("Expected exactly six characters".to_string()));
    assert_eq!(flop_from_str("AsKsQz"), Err("Expected suit character: z".to_string()));
}

#[test]
fn card_weights_pair_names_with_weights() {
    let hands = [(0u8, 51u8), (47, 43), (1, 2)];
    let weights = [0.5f32, 1.0];
    assert_eq!(
        card_weights(&hands, &weights),
        Ok(vec![("As2c".to_string(), 0.5f32), ("KsQs".to_string(), 1.0f32)])
    );
    assert_eq!(card_weights(&[(0u8, 60u8)], &[1.0f32]), Err("Invalid card: 60".to_string()));
    assert_eq!(card_weights::<f32>(&[], &[1.0]), Ok(Vec::new()));
}

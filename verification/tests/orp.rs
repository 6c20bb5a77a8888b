use rsvp_reader::orp::get_orp_index;

#[test]
fn orp_index_of_empty_and_single_character_words_is_zero() {
    assert_eq!(get_orp_index(0), 0);
    assert_eq!(get_orp_index(1), 0);
}

#[test]
fn orp_index_changes_at_the_bucket_boundaries() {
    assert_eq!(get_orp_index(1), 0);
    assert_eq!(get_orp_index(2), 1);
    assert_eq!(get_orp_index(5), 1);
    assert_eq!(get_orp_index(6), 2);
    assert_eq!(get_orp_index(9), 2);
    assert_eq!(get_orp_index(10), 3);
    assert_eq!(get_orp_index(13), 3);
    assert_eq!(get_orp_index(14), 4);
}

#[test]
fn orp_index_inside_the_buckets() {
    assert_eq!(get_orp_index(3), 1);
    assert_eq!(get_orp_index(4), 1);
    assert_eq!(get_orp_index(7), 2);
    assert_eq!(get_orp_index(8), 2);
    assert_eq!(get_orp_index(11), 3);
    assert_eq!(get_orp_index(12), 3);
}

#[test]
fn orp_index_stays_at_four_for_long_words() {
    assert_eq!(get_orp_index(15), 4);
    assert_eq!(get_orp_index(100), 4);
    assert_eq!(get_orp_index(usize::MAX), 4);
}

#[test]
fn orp_index_is_a_position_in_the_word() {
    for len in 1..500usize {
        assert!(get_orp_index(len) <= len - 1, "length {}", len);
    }
}

#[test]
fn orp_index_never_decreases_with_length() {
    for len in 0..500usize {
        let here = get_orp_index(len);
        let next = get_orp_index(len + 1);
        assert!(here <= next && next <= here + 1, "length {}", len);
    }
}

#[test]
fn orp_index_of_keyboard_is_two() {
    let word = "keyboard";
    assert_eq!(word.chars().count(), 8);
    assert_eq!(get_orp_index(word.chars().count()), 2);
}

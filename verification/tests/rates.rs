use refresh_rate_windows_rs::get_available_refresh_rates;

#[test]
fn rates_are_deduplicated_and_ascending() {
    let raw = vec![60u32, 75, 60, 0, 1, 144, 75, 59];
    assert_eq!(get_available_refresh_rates(&raw), vec![59u32, 60, 75, 144]);
}

#[test]
fn rates_exclude_sentinel_values() {
    let raw = vec![0u32, 1, 0, 1, 1];
    assert_eq!(get_available_refresh_rates(&raw), Vec::<u32>::new());
}

#[test]
fn rates_of_empty_mode_list_are_empty() {
    assert_eq!(get_available_refresh_rates(&Vec::new()), Vec::<u32>::new());
}

#[test]
fn rates_sort_descending_input() {
    let raw = vec![240u32, 144, 120, 60];
    assert_eq!(get_available_refresh_rates(&raw), vec![60u32, 120, 144, 240]);
}

#[test]
fn rate_two_is_kept() {
    let raw = vec![2u32, 1, 0];
    assert_eq!(get_available_refresh_rates(&raw), vec![2u32]);
}

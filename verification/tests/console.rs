use bootloader::console::{select_mode, set_max_mode, Prompt, TextMode};

fn mode(columns: usize, rows: usize) -> Option<TextMode> {
    Some(TextMode { columns, rows })
}

#[test]
fn largest_mode_is_chosen() {
    assert_eq!(set_max_mode(&[mode(80, 25), mode(80, 50), mode(100, 31), mode(128, 40)]), Some(1));
    assert_eq!(set_max_mode(&[mode(80, 25), mode(80, 50), mode(132, 50)]), Some(2));
}

#[test]
fn later_mode_of_equal_size_wins() {
    assert_eq!(set_max_mode(&[mode(80, 25), mode(80, 25)]), Some(1));
}

#[test]
fn mode_that_is_larger_in_one_dimension_only_does_not_win() {
    assert_eq!(set_max_mode(&[mode(80, 25), mode(132, 24), mode(79, 60)]), Some(0));
}

#[test]
fn failed_queries_are_passed_over() {
    assert_eq!(set_max_mode(&[None, mode(80, 25), None, mode(40, 25)]), Some(1));
    assert_eq!(set_max_mode(&[mode(0, 0), None]), Some(0));
}

#[test]
fn no_mode_is_chosen_when_every_query_fails() {
    assert_eq!(set_max_mode(&[]), None);
    assert_eq!(set_max_mode(&[None, None]), None);
}

#[test]
fn accepted_mode_is_chosen() {
    assert_eq!(select_mode(0, 3, true), Prompt::Chosen(0));
    assert_eq!(select_mode(2, 3, true), Prompt::Chosen(2));
}

#[test]
fn declined_mode_leads_to_the_next_and_around() {
    assert_eq!(select_mode(0, 3, false), Prompt::Ask(1));
    assert_eq!(select_mode(1, 3, false), Prompt::Ask(2));
    assert_eq!(select_mode(2, 3, false), Prompt::Ask(0));
    assert_eq!(select_mode(0, 1, false), Prompt::Ask(0));
    assert_eq!(select_mode(0, 0, false), Prompt::Ask(0));
    assert_eq!(select_mode(u32::MAX, u32::MAX, false), Prompt::Ask(0));
}

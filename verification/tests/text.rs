use deribit_models::text::{same_text, split_up_to};

fn strings(parts: &[&str]) -> Option<Vec<String>> {
    Some(parts.iter().map(|p| p.to_string()).collect())
}

#[test]
fn an_empty_text_is_one_empty_segment() {
    assert_eq!(split_up_to("", '.', 1), strings(&[""]));
}

#[test]
fn a_text_without_separator_is_one_segment() {
    assert_eq!(split_up_to("BTC-PERPETUAL", '.', 1), strings(&["BTC-PERPETUAL"]));
    assert_eq!(split_up_to("BTC-PERPETUAL", '.', 9), strings(&["BTC-PERPETUAL"]));
}

#[test]
fn separators_at_the_ends_and_in_a_row_give_empty_segments() {
    assert_eq!(split_up_to(".", '.', 2), strings(&["", ""]));
    assert_eq!(split_up_to("a.", '.', 2), strings(&["a", ""]));
    assert_eq!(split_up_to(".a", '.', 2), strings(&["", "a"]));
    assert_eq!(split_up_to("a..b", '.', 3), strings(&["a", "", "b"]));
    assert_eq!(split_up_to("...", '.', 4), strings(&["", "", "", ""]));
}

#[test]
fn segments_come_in_order() {
    assert_eq!(
        split_up_to("user.orders.future.BTC.raw", '.', 5),
        strings(&["user", "orders", "future", "BTC", "raw"])
    );
    assert_eq!(split_up_to("a-b-c", '-', 3), strings(&["a", "b", "c"]));
    assert_eq!(split_up_to("a-b.c", '-', 3), strings(&["a", "b.c"]));
}

#[test]
fn more_segments_than_the_limit_give_nothing() {
    assert_eq!(split_up_to("", '.', 0), None);
    assert_eq!(split_up_to("a", '.', 0), None);
    assert_eq!(split_up_to("a.b", '.', 1), None);
    assert_eq!(split_up_to("a.b.c", '.', 2), None);
    assert_eq!(split_up_to("a.b.c.d.e.f", '.', 5), None);
    assert_eq!(split_up_to(".....", '.', 5), None);
    assert_eq!(split_up_to(".....", '.', 6), strings(&["", "", "", "", "", ""]));
}

#[test]
fn splitting_counts_characters_not_bytes() {
    assert_eq!(split_up_to("ä.öü.€", '.', 3), strings(&["ä", "öü", "€"]));
    assert_eq!(split_up_to("a€b€€c", '€', 4), strings(&["a", "b", "", "c"]));
    assert_eq!(split_up_to("期货.Ξ", '.', 2), strings(&["期货", "Ξ"]));
}

#[test]
fn same_text_compares_every_character() {
    assert!(same_text("", ""));
    assert!(same_text("user", "user"));
    assert!(same_text("期货", "期货"));
    assert!(!same_text("user", "use"));
    assert!(!same_text("use", "user"));
    assert!(!same_text("user", "usex"));
    assert!(!same_text("user", "User"));
    assert!(!same_text("", "a"));
    assert!(!same_text("a", ""));
    assert!(!same_text("orders", "trades"));
}

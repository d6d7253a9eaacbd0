use wit_query::text::{enclose, indentation, join_strings};

#[test]
fn indentation_is_a_run_of_spaces() {
    assert_eq!(indentation(0), "");
    assert_eq!(indentation(1), " ");
    assert_eq!(indentation(4), "    ");
    assert_eq!(indentation(8), "        ");
}

#[test]
fn join_puts_the_separator_between_neighbours() {
    let none: Vec<String> = Vec::new();
    assert_eq!(join_strings(&none, ", "), "");
    assert_eq!(join_strings(&vec!["a".to_string()], ", "), "a");
    assert_eq!(
        join_strings(&vec!["a".to_string(), "b".to_string(), "c".to_string()], ", "),
        "a, b, c"
    );
    assert_eq!(
        join_strings(&vec!["".to_string(), "".to_string()], ",\n"),
        ",\n"
    );
}

#[test]
fn enclose_puts_the_text_between_both_ends() {
    assert_eq!(enclose("list<", "u8", ">"), "list<u8>");
    assert_eq!(enclose("", "", ""), "");
}

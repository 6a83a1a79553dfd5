use cargo_mutants::text::{chars_of, join_path};
use cargo_mutants::remove_excess_spaces;

#[test]
fn normalization_examples() {
    assert_eq!(remove_excess_spaces("& 'static str"), "&'static str");
    assert_eq!(remove_excess_spaces("Vec < u32 >"), "Vec<u32>");
}

#[test]
fn normalization_of_rendered_types() {
    assert_eq!(
        remove_excess_spaces("Result < u32 , & 'static str >"),
        "Result<u32, &'static str>"
    );
    assert_eq!(remove_excess_spaces("std :: io :: Result < () >"), "std::io::Result<()>");
    assert_eq!(remove_excess_spaces("HashMap < K , V >"), "HashMap<K, V>");
    assert_eq!(remove_excess_spaces("& mut T"), "&mut T");
    assert_eq!(remove_excess_spaces("(u8 , u8)"), "(u8, u8)");
}

#[test]
fn normalization_keeps_what_is_not_excess() {
    assert_eq!(remove_excess_spaces(""), "");
    assert_eq!(remove_excess_spaces(" "), " ");
    assert_eq!(remove_excess_spaces("a"), "a");
    assert_eq!(remove_excess_spaces("dyn Trait"), "dyn Trait");
    assert_eq!(remove_excess_spaces("a b c"), "a b c");
    // A space after a comma stays; one before it goes.
    assert_eq!(remove_excess_spaces("a , b"), "a, b");
    // A space before `&` stays; one after it goes.
    assert_eq!(remove_excess_spaces("a & b"), "a &b");
}

#[test]
fn normalization_never_drops_the_first_or_last_character() {
    assert_eq!(remove_excess_spaces(" <"), " <");
    assert_eq!(remove_excess_spaces("< "), "< ");
    assert_eq!(remove_excess_spaces(" : "), " : ");
    assert_eq!(remove_excess_spaces("  :"), " :");
    assert_eq!(remove_excess_spaces(":  "), ": ");
}

#[test]
fn normalization_looks_at_the_last_character_kept() {
    // Both spaces follow `<` once the first is gone.
    assert_eq!(remove_excess_spaces("<  x"), "<x");
    // The first space is kept, since a space follows it; the second goes.
    assert_eq!(remove_excess_spaces("a  <"), "a <");
    assert_eq!(remove_excess_spaces("a   >b"), "a  >b");
}

#[test]
fn normalization_handles_other_scripts() {
    assert_eq!(remove_excess_spaces("Größe < é >"), "Größe<é>");
}

#[test]
fn chars_of_lists_the_characters() {
    assert_eq!(chars_of(""), Vec::<char>::new());
    assert_eq!(chars_of("a<é"), vec!['a', '<', 'é']);
}

#[test]
fn join_path_separates_with_double_colons() {
    assert_eq!(join_path(&vec![]), "");
    assert_eq!(join_path(&vec!["a".to_string()]), "a");
    assert_eq!(join_path(&vec!["a".to_string(), "b".to_string()]), "a::b");
    assert_eq!(
        join_path(&vec!["m".to_string(), "<impl T for Foo>".to_string(), "bar".to_string()]),
        "m::<impl T for Foo>::bar"
    );
    assert_eq!(join_path(&vec!["".to_string(), "".to_string()]), "::");
}

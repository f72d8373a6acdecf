use levenshtein::distance;

#[test]
fn deletion() {
    assert_eq!(distance("fool", "foo"), 1);
}

#[test]
fn deletion_2() {
    assert_eq!(distance("lore", "lo"), 2);
}

#[test]
fn insertion() {
    assert_eq!(distance("ball", "balls"), 1);
}

#[test]
fn insertion_2() {
    assert_eq!(distance("fo", "food"), 2);
}

#[test]
fn change() {
    assert_eq!(distance("yawn", "yawl"), 1);
}

#[test]
fn change_2() {
    assert_eq!(distance("yawn", "brawn"), 2);
}

#[test]
fn deletion_insertion() {
    assert_eq!(distance("flaw", "lawn"), 2);
}

#[test]
fn kitten_sitting() {
    assert_eq!(distance("kitten", "sitting"), 3);
}

#[test]
fn both_empty() {
    assert_eq!(distance("", ""), 0);
}

#[test]
fn empty_left_is_length_of_right() {
    assert_eq!(distance("", "abc"), 3);
    assert_eq!(distance("", "sitting"), 7);
}

#[test]
fn empty_right_is_length_of_left() {
    assert_eq!(distance("abc", ""), 3);
    assert_eq!(distance("kitten", ""), 6);
}

#[test]
fn identity_on_equal_strings() {
    assert_eq!(distance("same", "same"), 0);
    assert_eq!(distance("a", "a"), 0);
}

#[test]
fn symmetry_of_arguments() {
    assert_eq!(distance("kitten", "sitting"), distance("sitting", "kitten"));
    assert_eq!(distance("flaw", "lawn"), distance("lawn", "flaw"));
}

#[test]
fn triangle_inequality_on_samples() {
    let x = "kitten";
    let y = "sitting";
    let z = "mitten";
    assert!(distance(x, z) <= distance(x, y) + distance(y, z));
    assert!(distance(y, x) <= distance(y, z) + distance(z, x));
    assert!(distance(z, y) <= distance(z, x) + distance(x, y));
}

#[test]
fn single_edit_in_the_middle() {
    // One insertion, one deletion, and one substitution away from "abcd".
    assert_eq!(distance("abcd", "abxcd"), 1);
    assert_eq!(distance("abcd", "abd"), 1);
    assert_eq!(distance("abcd", "abxd"), 1);
}

#[test]
fn counts_code_points_not_bytes() {
    // The accented character is one code point, two bytes in UTF-8.
    assert_eq!(distance("caf\u{e9}", "cafe"), 1);
    assert_eq!(distance("\u{3b1}\u{3b2}", "\u{3b1}"), 1);
}

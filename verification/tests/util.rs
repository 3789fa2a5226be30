use bytevm::util::copy;

#[test]
fn copy_shorter_source_keeps_the_tail() {
    let mut into = [1u8, 2, 3, 4, 5];
    copy(&mut into, &[9, 8]);
    assert_eq!(into, [9, 8, 3, 4, 5]);
}

#[test]
fn copy_longer_source_is_cut_short() {
    let mut into = [0u8; 3];
    copy(&mut into, &[1, 2, 3, 4, 5]);
    assert_eq!(into, [1, 2, 3]);
}

#[test]
fn copy_equal_lengths() {
    let mut into = vec![0u16; 4];
    copy(&mut into, &[10, 20, 30, 40]);
    assert_eq!(into, vec![10, 20, 30, 40]);
}

#[test]
fn copy_with_an_empty_side() {
    let mut into = [7u8, 7];
    copy(&mut into, &[]);
    assert_eq!(into, [7, 7]);
    let mut none: [u8; 0] = [];
    copy(&mut none, &[1, 2]);
    assert_eq!(none.len(), 0);
}

#[test]
fn copy_clones_owned_values() {
    let mut into = vec![String::from("a"), String::from("b"), String::from("c")];
    let from = vec![String::from("x"), String::from("y")];
    copy(&mut into, &from);
    assert_eq!(into, vec!["x", "y", "c"]);
    assert_eq!(from, vec!["x", "y"]);
}

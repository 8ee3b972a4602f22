use tinymio::Interests;

#[test]
fn readable_holds_the_readable_direction_alone() {
    let interests = Interests::readable();
    assert!(interests.is_readable());
    assert!(!interests.is_writable());
}

#[test]
fn writable_holds_the_writable_direction_alone() {
    let interests = Interests::writable();
    assert!(interests.is_writable());
    assert!(!interests.is_readable());
}

#[test]
fn union_holds_both_directions() {
    let both = Interests::readable() | Interests::writable();
    assert!(both.is_readable());
    assert!(both.is_writable());
}

#[test]
fn union_with_itself_adds_nothing() {
    let readable = Interests::readable() | Interests::readable();
    assert!(readable.is_readable());
    assert!(!readable.is_writable());
    let writable = Interests::writable() | Interests::writable();
    assert!(writable.is_writable());
    assert!(!writable.is_readable());
}

use mtp_filler::naming::{filler_path_for, new_filler_path};

#[test]
fn filler_path_embeds_the_token() {
    assert_eq!(filler_path_for("abc"), "./abc_filler.txt");
}

#[test]
fn fresh_filler_paths_do_not_collide() {
    let a = new_filler_path();
    let b = new_filler_path();
    assert_ne!(a, b);
    assert_eq!(a.len(), 2 + 36 + 11);
    assert!(a.starts_with("./"));
    assert!(a.ends_with("_filler.txt"));
}

#[test]
fn fresh_filler_path_holds_a_hyphenated_token() {
    let p = new_filler_path();
    let token = &p[2..38];
    for (i, c) in token.chars().enumerate() {
        if i == 8 || i == 13 || i == 18 || i == 23 {
            assert_eq!(c, '-');
        } else {
            assert!(c.is_ascii_hexdigit() && !c.is_ascii_uppercase());
        }
    }
    assert!(!p[2..].contains('/'));
}

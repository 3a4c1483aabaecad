use launchk::text::str_contains_ignoring_case;
use launchk::text::str_eq;
use launchk::text::str_less;

#[test]
fn equality_of_texts() {
    assert!(str_eq("", ""));
    assert!(str_eq("abc", "abc"));
    assert!(!str_eq("abc", "abd"));
    assert!(!str_eq("abc", "ab"));
    assert!(!str_eq("abc", "ABC"));
}

#[test]
fn order_of_texts_is_that_of_std() {
    let words = ["", "a", "A", "ab", "abc", "b", "com.apple", "com.apple.a", "é", "z", "Z"];
    for x in words {
        for y in words {
            assert_eq!(str_less(x, y), x < y, "{:?} {:?}", x, y);
        }
    }
}

#[test]
fn containment_is_that_of_lowercased_std() {
    let hays = ["", "com.apple.Spotlight", "SPOT", "spot", "lights", "Grüße", "GRÜSSE"];
    let needles = ["", "spot", "SPOT", "Light", "apple.s", "x", "ü", "Ü", "lights!", "grü"];
    for h in hays {
        for n in needles {
            assert_eq!(
                str_contains_ignoring_case(h, n),
                h.to_ascii_lowercase().contains(n.to_ascii_lowercase().as_str()),
                "{:?} {:?}",
                h,
                n
            );
        }
    }
}

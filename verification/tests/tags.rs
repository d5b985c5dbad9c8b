use gist::tags::sanitize_tags;

#[test]
fn sanitize_keeps_trimmed_segments_in_order() {
    assert_eq!(sanitize_tags(" rust , , web,,  cli  "), "rust, web, cli");
}

#[test]
fn sanitize_keeps_duplicates() {
    assert_eq!(sanitize_tags("a,b,a"), "a, b, a");
}

#[test]
fn sanitize_caps_at_ten() {
    assert_eq!(
        sanitize_tags("1,2,3,4,5,6,7,8,9,10,11,12"),
        "1, 2, 3, 4, 5, 6, 7, 8, 9, 10"
    );
}

#[test]
fn sanitize_of_nothing_is_empty() {
    assert_eq!(sanitize_tags(""), "");
    assert_eq!(sanitize_tags(" , ,\t,"), "");
}

#[test]
fn cleaning_twice_is_cleaning_once() {
    for raw in ["", " a ,b,, c d ,\te\n", ",,,", "1,2,3,4,5,6,7,8,9,10,11,12", "x", " , x , "] {
        let once = sanitize_tags(raw);
        assert_eq!(sanitize_tags(&once), once, "for {:?}", raw);
    }
}

use gist::models::{copy_gists, Gist};

fn gist(id: i64) -> Gist {
    Gist {
        id,
        content: format!("content {}", id),
        tags: "a, b".to_string(),
        created_at: "2024-01-01 00:00:00".to_string(),
    }
}

#[test]
fn a_copy_of_a_snippet_holds_the_same() {
    let g = gist(4);
    let c = g.clone();
    assert_eq!(c, g);
    assert_eq!(c.id, 4);
    assert_eq!(c.content, "content 4");
}

#[test]
fn a_copy_of_a_list_holds_the_same_in_order() {
    let v = vec![gist(3), gist(1), gist(2)];
    assert_eq!(copy_gists(&v), v);
    assert!(copy_gists(&Vec::new()).is_empty());
}

use netstrat::elements::Elements;

#[test]
fn a_new_selection_holds_what_it_was_given() {
    let e = Elements::new(vec![1, 2, 3], vec![10]);
    assert_eq!(e.nodes(), vec![1, 2, 3]);
    assert_eq!(e.edges(), vec![10]);
    assert!(!e.is_empty());
}

#[test]
fn an_empty_selection_is_empty() {
    let e = Elements::empty();
    assert!(e.is_empty());
    assert!(e.nodes().is_empty());
    assert!(e.edges().is_empty());
}

#[test]
fn adding_reports_whether_the_index_was_new() {
    let mut e = Elements::empty();
    assert!(e.add_node(7));
    assert!(!e.add_node(7));
    assert_eq!(e.nodes(), vec![7]);
    assert!(e.add_edge(3));
    assert!(e.add_edge(4));
    assert!(!e.add_edge(3));
    assert_eq!(e.edges(), vec![3, 4]);
}

#[test]
fn union_merges_without_duplicates() {
    let mut a = Elements::new(vec![1, 2], vec![10]);
    let b = Elements::new(vec![2, 3], vec![10, 11]);
    a.union(&b);
    let mut nodes = a.nodes();
    nodes.sort();
    assert_eq!(nodes, vec![1, 2, 3]);
    let mut edges = a.edges();
    edges.sort();
    assert_eq!(edges, vec![10, 11]);
}

#[test]
fn union_with_an_empty_selection_changes_nothing() {
    let mut a = Elements::new(vec![5], vec![6]);
    a.union(&Elements::empty());
    assert_eq!(a.nodes(), vec![5]);
    assert_eq!(a.edges(), vec![6]);
}

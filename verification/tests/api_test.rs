use cargo_crusader::api::{
    crate_url, crate_url_with_parms, download_url, get_rev_deps, get_reverse_dependencies,
    get_top_dependents, pages_needed, rank_dependents, wants_next_page, ReverseDependency,
};

fn dep(name: &str, downloads: u64) -> ReverseDependency {
    ReverseDependency { name: name.to_string(), downloads }
}

fn names(list: &[ReverseDependency]) -> Vec<String> {
    list.iter().map(|d| d.name.clone()).collect()
}

#[test]
fn test_reverse_dependency_structure() {
    let dep = ReverseDependency {
        name: "test-crate".to_string(),
        downloads: 1000,
    };
    assert_eq!(dep.name, "test-crate");
    assert_eq!(dep.downloads, 1000);
}

#[test]
fn test_pages_needed() {
    assert_eq!(pages_needed(None), 100);
    assert_eq!(pages_needed(Some(0)), 0);
    assert_eq!(pages_needed(Some(1)), 1);
    assert_eq!(pages_needed(Some(5)), 1);
    assert_eq!(pages_needed(Some(100)), 1);
    assert_eq!(pages_needed(Some(101)), 2);
    assert_eq!(pages_needed(Some(1000)), 10);
    assert_eq!(pages_needed(Some(usize::MAX)), usize::MAX / 100 + 1);
}

#[test]
fn test_wants_next_page() {
    assert!(wants_next_page(100, 100, None));
    assert!(!wants_next_page(99, 99, None));
    assert!(!wants_next_page(0, 0, None));
    assert!(wants_next_page(100, 100, Some(101)));
    assert!(!wants_next_page(100, 100, Some(100)));
    assert!(!wants_next_page(100, 200, Some(150)));
    assert!(!wants_next_page(50, 50, Some(500)));
}

#[test]
fn test_rank_is_descending_and_stable() {
    let all = vec![dep("a", 5), dep("b", 9), dep("c", 5), dep("d", 1), dep("e", 9), dep("f", 0)];
    let ranked = rank_dependents(&all);
    assert_eq!(names(&ranked), vec!["b", "e", "a", "c", "d", "f"]);
    for i in 1..ranked.len() {
        assert!(ranked[i - 1].downloads >= ranked[i].downloads);
    }
    assert!(rank_dependents(&vec![]).is_empty());
    let mut reference = all.clone();
    reference.sort_by_key(|d| std::cmp::Reverse(d.downloads));
    assert_eq!(names(&ranked), names(&reference));
}

#[test]
fn test_top_dependents() {
    let pages = vec![
        vec![dep("a", 5), dep("b", 9)],
        vec![],
        vec![dep("c", 7), dep("d", 100), dep("e", 7)],
    ];
    assert_eq!(names(&get_top_dependents(&pages, 3)), vec!["d", "b", "c"]);
    assert_eq!(names(&get_top_dependents(&pages, 0)), Vec::<String>::new());
    assert_eq!(names(&get_top_dependents(&pages, 9)), vec!["d", "b", "c", "e", "a"]);
    assert_eq!(names(&get_reverse_dependencies(&pages, None)), vec!["d", "b", "c", "e", "a"]);
    assert_eq!(names(&get_reverse_dependencies(&pages, Some(5))), vec!["d", "b", "c", "e", "a"]);
    assert!(get_reverse_dependencies(&vec![], Some(5)).is_empty());
}

#[test]
fn test_crate_urls() {
    assert_eq!(crate_url("rgb", None), "https://crates.io/api/v1/crates/rgb");
    assert_eq!(
        crate_url("rgb", Some("reverse_dependencies")),
        "https://crates.io/api/v1/crates/rgb/reverse_dependencies"
    );
    let pair = |k: &str, v: &str| (k.to_string(), v.to_string());
    assert_eq!(
        crate_url_with_parms("rgb", Some("reverse_dependencies"), &vec![]),
        "https://crates.io/api/v1/crates/rgb/reverse_dependencies"
    );
    assert_eq!(
        crate_url_with_parms("rgb", None, &vec![pair("page", "2")]),
        "https://crates.io/api/v1/crates/rgb?page=2"
    );
    assert_eq!(
        crate_url_with_parms("rgb", Some("x"), &vec![pair("page", "2"), pair("per_page", "100"), pair("a", "")]),
        "https://crates.io/api/v1/crates/rgb/x?page=2&per_page=100&a="
    );
    assert_eq!(
        download_url("load_image", "3.3.1"),
        "https://crates.io/api/v1/crates/load_image/3.3.1/download"
    );
}

#[test]
fn test_listed_names_keep_the_listing_order() {
    let listed = vec![dep("small", 1), dep("large", 900), dep("middle", 40)];
    assert_eq!(get_rev_deps(&listed, None), vec!["small", "large", "middle"]);
    assert_eq!(get_rev_deps(&listed, Some(2)), vec!["small", "large"]);
    assert_eq!(get_rev_deps(&listed, Some(3)), vec!["small", "large", "middle"]);
    assert_eq!(get_rev_deps(&listed, Some(9)), vec!["small", "large", "middle"]);
    assert!(get_rev_deps(&listed, Some(0)).is_empty());
    assert!(get_rev_deps(&Vec::new(), None).is_empty());
}

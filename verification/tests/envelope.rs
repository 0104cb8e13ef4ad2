use poc_handler::response::ApiResponse;

#[test]
fn build_pages_scenario() {
    let r = ApiResponse::build(vec!["a", "b", "c"], 25, 10);
    assert_eq!(r.total_pages, 3);
    assert_eq!(r.total_elements, 25);
    assert_eq!(r.content, vec!["a", "b", "c"]);
}

#[test]
fn build_exact_division() {
    let r: ApiResponse<u32> = ApiResponse::build(vec![1, 2], 20, 10);
    assert_eq!(r.total_pages, 2);
    assert_eq!(r.total_elements, 20);
}

#[test]
fn build_zero_elements_gives_zero_pages() {
    let r: ApiResponse<u32> = ApiResponse::build(Vec::new(), 0, 10);
    assert_eq!(r.total_pages, 0);
    assert_eq!(r.total_elements, 0);
}

#[test]
fn build_page_size_one() {
    let r: ApiResponse<u32> = ApiResponse::build(Vec::new(), 7, 1);
    assert_eq!(r.total_pages, 7);
}

#[test]
fn build_single_partial_page() {
    let r: ApiResponse<u32> = ApiResponse::build(vec![9], 1, 10);
    assert_eq!(r.total_pages, 1);
}

#[test]
fn mono_page_counts_content() {
    let r = ApiResponse::build_mono_page(vec![10u64, 20, 30, 40]);
    assert_eq!(r.total_elements, 4);
    assert_eq!(r.total_pages, 1);
    assert_eq!(r.content, vec![10, 20, 30, 40]);
}

#[test]
fn mono_page_empty_content() {
    let r: ApiResponse<String> = ApiResponse::build_mono_page(Vec::new());
    assert_eq!(r.total_elements, 0);
    assert_eq!(r.total_pages, 1);
    assert!(r.content.is_empty());
}

#[test]
fn no_content_is_all_zero() {
    let r: ApiResponse<String> = ApiResponse::no_content();
    assert!(r.content.is_empty());
    assert_eq!(r.total_pages, 0);
    assert_eq!(r.total_elements, 0);
}

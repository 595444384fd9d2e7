use course_catalog::api_service::{
    get_classes_paged, get_classes_serially, get_classes_threaded, get_responses_paged,
    plan_total_pages, ParallelAggregator, SerialAggregator,
};
use course_catalog::model::{APIResponse, Course};

fn course(id: &str) -> Course {
    Course {
        class_sections: Vec::new(),
        college: "L&S".to_string(),
        contact_hours: None,
        course_id: id.to_string(),
        delayed_sectioning: None,
        dept_code: "CMPSC".to_string(),
        description: "A course".to_string(),
        general_education: Vec::new(),
        grading_option: None,
        in_progress_course: None,
        instruction_type: "LEC".to_string(),
        obj_level_code: "U".to_string(),
        on_line_course: false,
        quarter: "20202".to_string(),
        subject_area: "CMPSC".to_string(),
        title: "Title".to_string(),
        units_fixed: None,
        units_variable_high: None,
        units_variable_low: None,
    }
}

fn courses(prefix: &str, n: usize) -> Vec<Course> {
    let mut v = Vec::new();
    let mut i = 0;
    while i < n {
        v.push(course(&format!("{} {}", prefix, i)));
        i += 1;
    }
    v
}

fn page(page_number: u32, total: u32, classes: Vec<Course>) -> APIResponse {
    APIResponse { page_size: 100, page_number, total, classes }
}

fn ids(classes: &[Course]) -> Vec<String> {
    classes.iter().map(|c| c.course_id.clone()).collect()
}

fn sorted_ids(classes: &[Course]) -> Vec<String> {
    let mut v = ids(classes);
    v.sort();
    v
}

#[test]
fn empty_catalog_serial_and_parallel() {
    let store = vec![page(1, 0, Vec::new())];
    let serial = get_classes_serially(store);
    assert_eq!(serial.len(), 0);
    let store = vec![page(1, 0, Vec::new())];
    let parallel = get_classes_threaded(store);
    assert_eq!(parallel.len(), 0);
}

#[test]
fn single_page_serial_order_parallel_permutation() {
    let seven = courses("CS", 7);
    let want = ids(&seven);
    let store = vec![page(1, 7, seven.clone()), page(2, 7, Vec::new())];
    let serial = get_classes_serially(store);
    assert_eq!(ids(&serial), want);
    let store = vec![page(1, 7, seven), page(2, 7, Vec::new())];
    let parallel = get_classes_threaded(store);
    assert_eq!(parallel.len(), 7);
    let mut want_sorted = want;
    want_sorted.sort();
    assert_eq!(sorted_ids(&parallel), want_sorted);
}

#[test]
fn two_full_pages_multiset_equality() {
    let first = courses("A", 100);
    let second = courses("B", 100);
    let store = vec![
        page(1, 200, first.clone()),
        page(2, 200, second.clone()),
        page(3, 200, Vec::new()),
    ];
    let serial = get_classes_serially(store);
    assert_eq!(serial.len(), 200);
    let store = vec![page(1, 200, first), page(2, 200, second), page(3, 200, Vec::new())];
    let parallel = get_classes_threaded(store);
    assert_eq!(parallel.len(), 200);
    assert_eq!(sorted_ids(&parallel), sorted_ids(&serial));
}

#[test]
fn total_growing_mid_run_parallel_stops_at_horizon() {
    // The probe says 100 records, so the plan is pages 1..=2 and a single
    // batch covers pages 1..=8; a page that appears at 9 after the probe
    // lies past the horizon and is never fetched.
    let mut store = vec![page(1, 100, courses("A", 100)), page(2, 180, courses("B", 50))];
    for n in 3..=8 {
        store.push(page(n, 180, Vec::new()));
    }
    store.push(page(9, 180, courses("C", 30)));
    let parallel = get_classes_threaded(store);
    assert_eq!(parallel.len(), 150);
}

#[test]
fn serial_keeps_going_past_stale_total() {
    let store = vec![
        page(1, 100, courses("A", 100)),
        page(2, 300, courses("B", 100)),
        page(3, 300, courses("C", 50)),
    ];
    let serial = get_classes_serially(store);
    assert_eq!(serial.len(), 250);
}

#[test]
fn serial_stops_at_first_empty_page() {
    let store = vec![
        page(1, 150, courses("A", 100)),
        page(2, 150, Vec::new()),
        page(3, 150, courses("C", 50)),
    ];
    let serial = get_classes_serially(store);
    assert_eq!(serial.len(), 100);
}

#[test]
fn plan_total_pages_formula() {
    assert_eq!(plan_total_pages(0, 100), 1);
    assert_eq!(plan_total_pages(1, 100), 2);
    assert_eq!(plan_total_pages(99, 100), 2);
    assert_eq!(plan_total_pages(100, 100), 2);
    assert_eq!(plan_total_pages(101, 100), 3);
    assert_eq!(plan_total_pages(200, 100), 3);
    assert_eq!(plan_total_pages(250, 100), 4);
    assert_eq!(plan_total_pages(800, 100), 9);
}

#[test]
fn fetch_page_is_idempotent() {
    let store_a = vec![page(1, 7, courses("CS", 7)), page(2, 7, Vec::new())];
    let store_b = vec![page(1, 7, courses("CS", 7)), page(2, 7, Vec::new())];
    let first = get_responses_paged(store_a, 1);
    let second = get_responses_paged(store_b, 1);
    assert_eq!(first, second);
}

#[test]
fn fetch_past_end_is_end_of_stream() {
    let store = vec![page(1, 7, courses("CS", 7))];
    let response = get_responses_paged(store, 5);
    assert_eq!(response.classes.len(), 0);
    assert_eq!(response.page_number, 5);
    assert_eq!(response.page_size, 100);
    let store = vec![page(1, 7, courses("CS", 7))];
    assert_eq!(get_classes_paged(store, 5).len(), 0);
}

#[test]
fn envelope_well_formedness() {
    let good = page(1, 0, Vec::new());
    assert!(good.is_well_formed(1, 100));
    assert!(!good.is_well_formed(2, 100));
    assert!(!good.is_well_formed(1, 50));
    let overfull = APIResponse { page_size: 1, page_number: 1, total: 2, classes: courses("X", 2) };
    assert!(!overfull.is_well_formed(1, 1));
    assert!(good.is_end_of_stream());
    let busy = page(1, 7, courses("CS", 7));
    assert!(!busy.is_end_of_stream());
}

#[test]
fn serial_aggregator_requests_no_page_after_empty() {
    let mut agg = SerialAggregator::new();
    assert_eq!(agg.next_request(), Some(1));
    agg.on_page(page(1, 0, Vec::new()));
    assert_eq!(agg.next_request(), None);
    assert_eq!(agg.into_classes().len(), 0);
}

#[test]
fn serial_aggregator_walks_pages_in_order() {
    let mut agg = SerialAggregator::new();
    assert_eq!(agg.next_request(), Some(1));
    agg.on_page(page(1, 7, courses("A", 3)));
    assert_eq!(agg.next_request(), Some(2));
    agg.on_page(page(2, 7, courses("B", 4)));
    assert_eq!(agg.next_request(), Some(3));
    agg.on_page(page(3, 7, Vec::new()));
    assert_eq!(agg.next_request(), None);
    let classes = agg.into_classes();
    assert_eq!(classes.len(), 7);
    assert_eq!(classes[0].course_id, "A 0");
    assert_eq!(classes[3].course_id, "B 0");
}

#[test]
fn parallel_aggregator_batches_are_bounded() {
    let agg = ParallelAggregator::start(1000);
    let batch = agg.next_batch().unwrap();
    assert_eq!(batch, vec![1, 2, 3, 4, 5, 6, 7, 8]);
}

#[test]
fn parallel_aggregator_absorbs_a_failed_worker() {
    // 150 records on pages 1 and 2; the worker on page 2 fails and sends an
    // empty result; the aggregate still comes back, short by that page.
    let mut agg = ParallelAggregator::start(150);
    let batch = agg.next_batch().unwrap();
    assert_eq!(batch.len(), 8);
    let mut results: Vec<Vec<Course>> = Vec::new();
    results.push(courses("A", 100));
    results.push(Vec::new()); // page 2: transport error, swallowed to empty
    for _ in 2..8 {
        results.push(Vec::new());
    }
    agg.on_batch(results);
    assert!(agg.next_batch().is_none());
    let classes = agg.finish();
    assert_eq!(classes.len(), 100);
}

#[test]
fn parallel_aggregator_merges_in_arrival_order() {
    let mut agg = ParallelAggregator::start(120);
    let batch = agg.next_batch().unwrap();
    assert_eq!(batch.len(), 8);
    let mut results: Vec<Vec<Course>> = Vec::new();
    results.push(courses("B", 20)); // page 2 arrived first
    results.push(courses("A", 100));
    for _ in 2..8 {
        results.push(Vec::new());
    }
    agg.on_batch(results);
    let classes = agg.finish();
    assert_eq!(classes.len(), 120);
    assert_eq!(classes[0].course_id, "B 0");
    assert_eq!(classes[20].course_id, "A 0");
}

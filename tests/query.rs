use core_rust_qti::ident::parse_id;
use core_rust_qti::query::{decimal_text, list_window, page_count, query_builder};

#[test]
fn decimal_text_writes_digits() {
    assert_eq!(decimal_text(0), "0");
    assert_eq!(decimal_text(7), "7");
    assert_eq!(decimal_text(10), "10");
    assert_eq!(decimal_text(4_294_967_295), "4294967295");
}

#[test]
fn query_builder_bare_select() {
    let q = query_builder(None, "public.role", &[], vec![], None, None);
    assert_eq!(q, "SELECT  * FROM public.role");
}

#[test]
fn query_builder_full() {
    let q = query_builder(
        Some("count(*)".to_string()),
        "public.role",
        &["a = $1".to_string(), "b = $2".to_string()],
        vec!["updated_date DESC".to_string(), "id".to_string()],
        Some(10),
        Some(20),
    );
    assert_eq!(
        q,
        "SELECT count(*) FROM public.role WHERE  a = $1 AND b = $2 ORDER BY updated_date DESC, id LIMIT 10 OFFSET 20"
    );
}

#[test]
fn page_count_rounds_up() {
    assert_eq!(page_count(23, 10, false), 3);
    assert_eq!(page_count(20, 10, false), 2);
    assert_eq!(page_count(0, 10, false), 0);
    assert_eq!(page_count(1, 10, false), 1);
    assert_eq!(page_count(u32::MAX, 1, false), u32::MAX);
}

#[test]
fn page_count_is_zero_for_all() {
    assert_eq!(page_count(23, 10, true), 0);
    assert_eq!(page_count(u32::MAX, 0, true), 0);
}

#[test]
fn list_window_defaults_and_offsets() {
    let w = list_window(None, None, None);
    assert_eq!((w.page, w.page_size, w.all), (1, 10, false));
    assert_eq!((w.limit, w.offset), (Some(10), Some(0)));
    let w = list_window(Some(3), Some(25), Some(false));
    assert_eq!((w.limit, w.offset), (Some(25), Some(50)));
    let w = list_window(Some(3), Some(25), Some(true));
    assert_eq!((w.limit, w.offset), (None, None));
}

#[test]
fn ids_read_back_from_their_text() {
    assert_eq!(parse_id("01923f4e-5a6b-7c8d-9eaf-b0c1d2e3f405"), Some(0x01923f4e_5a6b_7c8d_9eaf_b0c1d2e3f405));
    assert_eq!(parse_id("00000000-0000-0000-0000-000000000000"), Some(0));
    assert_eq!(parse_id("not-a-uuid"), None);
}

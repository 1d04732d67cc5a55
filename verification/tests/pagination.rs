use graphboard::repositories::{Pagination, RepositoryPagination};

fn page(items_per_page: Option<u64>, page: Option<u64>) -> RepositoryPagination {
    RepositoryPagination { items_per_page, page }
}

#[test]
fn limit_defaults_to_twenty() {
    assert_eq!(page(None, None).limit(), 20);
    assert_eq!(page(None, Some(7)).limit(), 20);
}

#[test]
fn limit_of_zero_items_is_one() {
    assert_eq!(page(Some(0), None).limit(), 1);
}

#[test]
fn limit_of_five_hundred_items_is_one_hundred() {
    assert_eq!(page(Some(500), None).limit(), 100);
}

#[test]
fn limit_keeps_what_is_in_range() {
    assert_eq!(page(Some(1), None).limit(), 1);
    assert_eq!(page(Some(37), None).limit(), 37);
    assert_eq!(page(Some(100), None).limit(), 100);
    assert_eq!(page(Some(101), None).limit(), 100);
    assert_eq!(page(Some(u64::MAX), None).limit(), 100);
}

#[test]
fn offset_of_page_zero_is_zero() {
    assert_eq!(page(None, Some(0)).offset(), 0);
    assert_eq!(page(Some(50), Some(0)).offset(), 0);
}

#[test]
fn offset_of_first_page_is_zero() {
    assert_eq!(page(None, None).offset(), 0);
    assert_eq!(page(Some(50), Some(1)).offset(), 0);
}

#[test]
fn offset_counts_the_pages_before() {
    assert_eq!(page(None, Some(2)).offset(), 20);
    assert_eq!(page(Some(25), Some(3)).offset(), 50);
    assert_eq!(page(Some(500), Some(4)).offset(), 300);
    assert_eq!(page(Some(0), Some(10)).offset(), 9);
}

#[test]
fn offset_fits_tells_when_the_product_is_too_large() {
    assert!(page(None, None).offset_fits());
    assert!(page(Some(100), Some(1_000_000)).offset_fits());
    assert!(page(Some(1), Some(u64::MAX)).offset_fits());
    assert_eq!(page(Some(1), Some(u64::MAX)).offset(), u64::MAX - 1);
    assert!(!page(Some(100), Some(u64::MAX)).offset_fits());
    assert!(!page(Some(2), Some(u64::MAX)).offset_fits());
    assert!(page(Some(2), Some(u64::MAX / 2 + 1)).offset_fits());
    assert!(!page(Some(2), Some(u64::MAX / 2 + 2)).offset_fits());
}

#[test]
fn absent_pagination_is_the_first_twenty() {
    let none: Option<RepositoryPagination> = None;
    assert_eq!(none.limit(), 20);
    assert_eq!(none.offset(), 0);
    assert!(none.offset_fits());
}

#[test]
fn given_pagination_is_used() {
    let some = Some(page(Some(10), Some(5)));
    assert_eq!(some.limit(), 10);
    assert_eq!(some.offset(), 40);
    assert!(some.offset_fits());
}

#[test]
fn default_pagination_names_nothing() {
    let default = RepositoryPagination::default();
    assert_eq!(default, page(None, None));
    assert_eq!(default.limit(), 20);
    assert_eq!(default.offset(), 0);
}

#[test]
fn limit_and_offset_stay_in_range() {
    let numbers = [0u64, 1, 2, 19, 20, 21, 99, 100, 101, 500, 1 << 40];
    for items in numbers {
        for number in numbers {
            let p = page(Some(items), Some(number));
            let limit = p.limit();
            assert!(1 <= limit && limit <= 100);
            assert!(p.offset_fits());
            let pages_before = if number == 0 { 0 } else { number - 1 };
            assert_eq!(p.offset(), pages_before * limit);
        }
    }
}

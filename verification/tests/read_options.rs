use databend_meta::read_options::ReadOptions;

fn switches(o: &ReadOptions) -> (bool, bool, bool, bool) {
    (o.prune_row_groups(), o.prune_pages(), o.do_prewhere(), o.push_down_bitmap())
}

#[test]
fn new_has_everything_off() {
    assert_eq!(switches(&ReadOptions::new()), (false, false, false, false));
    assert_eq!(switches(&ReadOptions::default()), (false, false, false, false));
}

#[test]
fn builders_set_their_switch() {
    assert_eq!(switches(&ReadOptions::new().with_prune_row_groups()), (true, false, false, false));
    assert_eq!(switches(&ReadOptions::new().with_prune_pages()), (false, true, false, false));
    assert_eq!(switches(&ReadOptions::new().with_do_prewhere()), (false, false, true, false));
    assert_eq!(switches(&ReadOptions::new().with_push_down_bitmap()), (false, false, false, true));
}

#[test]
fn pages_and_bitmap_are_exclusive_last_wins() {
    let o = ReadOptions::new().with_prune_pages().with_push_down_bitmap();
    assert!(o.push_down_bitmap());
    assert!(!o.prune_pages());
    let o = ReadOptions::new().with_push_down_bitmap().with_prune_pages();
    assert!(o.prune_pages());
    assert!(!o.push_down_bitmap());
}

#[test]
fn all_switches_together() {
    let o = ReadOptions::new()
        .with_prune_row_groups()
        .with_do_prewhere()
        .with_prune_pages()
        .with_push_down_bitmap();
    assert_eq!(switches(&o), (true, false, true, true));
}

#[test]
fn builders_are_idempotent_and_commute() {
    let a = ReadOptions::new().with_prune_row_groups().with_prune_row_groups().with_do_prewhere();
    let b = ReadOptions::new().with_do_prewhere().with_prune_row_groups();
    assert_eq!(switches(&a), switches(&b));
}

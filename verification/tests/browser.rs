use nur::browser::{BrowseStep, MountSearch};
use nur::domain::BrowseError;
use nur::udisks::Udisks2DeviceBrowser;

fn names(v: &[&str]) -> Vec<String> {
    v.iter().map(|s| s.to_string()).collect()
}

#[test]
fn partitions_are_filtered_and_sorted() {
    let entries = names(&["sdb2", "size", "sdb", "sdb10", "sdb1", "holders", "sdbx"]);
    assert_eq!(
        Udisks2DeviceBrowser::partitions("sdb", &entries),
        names(&["sdb1", "sdb10", "sdb2", "sdbx"])
    );
    assert!(Udisks2DeviceBrowser::partitions("sdc", &entries).is_empty());
}

#[test]
fn mount_search_reports_last_failure_or_no_filesystem() {
    let empty = MountSearch::new(Vec::new());
    assert!(empty.next_partition().is_none());
    assert_eq!(empty.failure(), BrowseError::NoFilesystem);

    let mut search = MountSearch::new(names(&["sdb1", "sdb2"]));
    assert_eq!(search.next_partition().map(|s| s.as_str()), Some("sdb1"));
    search.record_failure(BrowseError::Mount("a".to_owned()));
    assert_eq!(search.next_partition().map(|s| s.as_str()), Some("sdb2"));
    search.record_failure(BrowseError::Mount("b".to_owned()));
    assert!(search.next_partition().is_none());
    assert_eq!(search.failure(), BrowseError::Mount("b".to_owned()));
}

#[test]
fn mounted_partition_is_opened_where_it_is() {
    let search = MountSearch::new(names(&["sdb1"]));
    assert_eq!(
        Udisks2DeviceBrowser::run(Some("/media/u/PEN".to_string()), &search),
        BrowseStep::Launch("/media/u/PEN".to_string())
    );
}

#[test]
fn search_mounts_partitions_in_order_until_one_mounts() {
    let mut search = MountSearch::new(names(&["sdb1", "sdb2", "sdb3"]));
    assert_eq!(Udisks2DeviceBrowser::run(None, &search), BrowseStep::Mount("sdb1".to_string()));
    let step = search.after_mount(Err(BrowseError::Mount("no fs".to_string())));
    assert_eq!(step, BrowseStep::Mount("sdb2".to_string()));
    let step = search.after_mount(Ok("/media/u/DATA".to_string()));
    assert_eq!(step, BrowseStep::Launch("/media/u/DATA".to_string()));
}

#[test]
fn search_fails_with_last_error_or_no_filesystem() {
    let empty = MountSearch::new(Vec::new());
    assert_eq!(Udisks2DeviceBrowser::run(None, &empty), BrowseStep::Fail(BrowseError::NoFilesystem));
    let mut search = MountSearch::new(names(&["sdb1"]));
    let step = search.after_mount(Err(BrowseError::Mount("ocupado".to_string())));
    assert_eq!(step, BrowseStep::Fail(BrowseError::Mount("ocupado".to_string())));
}

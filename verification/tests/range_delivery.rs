use my_music::range::{
    deliver, first_satisfiable, format_content_range_header, plan_delivery, RangeBound,
    DELIVERY_MAX_AGE_SECS,
};

#[test]
fn no_range_header_gives_whole_object() {
    let plan = deliver("audio/flac", None, 1000);
    assert_eq!(plan.status, 200);
    assert_eq!(plan.first_byte, 0);
    assert_eq!(plan.length, 1000);
    assert_eq!(plan.content_range, None);
    assert_eq!(plan.content_type, "audio/flac");
    assert_eq!(plan.accept_ranges, "bytes");
}

#[test]
fn delivered_bytes_may_be_kept_for_seven_days() {
    assert_eq!(DELIVERY_MAX_AGE_SECS, 604_800);
    let plan = deliver("audio/flac", None, 1000);
    assert_eq!(plan.cache_control, "private, immutable, max-age=604800");
    let partial = deliver("audio/flac", Some(b"bytes=1-2"), 1000);
    assert_eq!(partial.cache_control, "private, immutable, max-age=604800");
}

#[test]
fn closed_range_gives_partial_content() {
    let plan = deliver("audio/mpeg", Some(b"bytes=2-5"), 10);
    assert_eq!(plan.status, 206);
    assert_eq!(plan.first_byte, 2);
    assert_eq!(plan.length, 4);
    assert_eq!(plan.content_range, Some("bytes 2-5/10".to_string()));
    assert_eq!(plan.content_type, "audio/mpeg");
    assert_eq!(plan.accept_ranges, "bytes");
}

#[test]
fn single_byte_ranges() {
    let first = deliver("audio/flac", Some(b"bytes=0-0"), 10);
    assert_eq!((first.status, first.first_byte, first.length), (206, 0, 1));
    assert_eq!(first.content_range, Some("bytes 0-0/10".to_string()));
    let last = deliver("audio/flac", Some(b"bytes=9-9"), 10);
    assert_eq!((last.status, last.first_byte, last.length), (206, 9, 1));
    assert_eq!(last.content_range, Some("bytes 9-9/10".to_string()));
}

#[test]
fn open_ended_range_reaches_last_byte() {
    let plan = deliver("audio/flac", Some(b"bytes=500-"), 1000);
    assert_eq!(plan.status, 206);
    assert_eq!(plan.first_byte, 500);
    assert_eq!(plan.length, 500);
    assert_eq!(plan.content_range, Some("bytes 500-999/1000".to_string()));
}

#[test]
fn suffix_range_takes_last_bytes() {
    let plan = deliver("audio/flac", Some(b"bytes=-100"), 1000);
    assert_eq!(plan.status, 206);
    assert_eq!(plan.first_byte, 900);
    assert_eq!(plan.length, 100);
    assert_eq!(plan.content_range, Some("bytes 900-999/1000".to_string()));
}

#[test]
fn range_of_whole_object_gives_200() {
    for header in [&b"bytes=0-999"[..], &b"bytes=0-"[..], &b"bytes=-1000"[..]] {
        let plan = deliver("audio/flac", Some(header), 1000);
        assert_eq!(plan.status, 200);
        assert_eq!(plan.first_byte, 0);
        assert_eq!(plan.length, 1000);
        assert_eq!(plan.content_range, None);
    }
    let excluded = plan_delivery(
        "audio/flac",
        Some((RangeBound::Included(0), RangeBound::Excluded(1000))),
        1000,
    );
    assert_eq!(excluded.status, 200);
    assert_eq!(excluded.content_range, None);
    assert_eq!(excluded.length, 1000);
}

#[test]
fn only_first_range_of_several_is_served() {
    let plan = deliver("audio/flac", Some(b"bytes=0-1,30-40"), 1000);
    assert_eq!(plan.status, 206);
    assert_eq!(plan.first_byte, 0);
    assert_eq!(plan.length, 2);
    assert_eq!(plan.content_range, Some("bytes 0-1/1000".to_string()));
}

#[test]
fn unsatisfiable_suffix_is_skipped_for_next_range() {
    let plan = deliver("audio/flac", Some(b"bytes=-2000, 5-6"), 1000);
    assert_eq!(plan.status, 206);
    assert_eq!(plan.content_range, Some("bytes 5-6/1000".to_string()));
}

#[test]
fn range_outside_object_gives_whole_object() {
    for header in [
        &b"bytes=5-2"[..],
        &b"bytes=1000-"[..],
        &b"bytes=1000-1001"[..],
        &b"bytes=0-1000"[..],
        &b"bytes=10-5000"[..],
        &b"bytes=-2000"[..],
        &b"bytes=-0"[..],
        &b"bytes=-"[..],
    ] {
        let plan = deliver("audio/flac", Some(header), 1000);
        assert_eq!(plan.status, 200, "{:?}", header);
        assert_eq!(plan.first_byte, 0);
        assert_eq!(plan.length, 1000);
        assert_eq!(plan.content_range, None);
    }
}

#[test]
fn header_that_is_no_byte_range_is_ignored() {
    for header in [&b"items=0-5"[..], &b"bytes 0-5"[..], &b""[..], &b"bytes=a-b"[..], &b"bytes=\xff"[..], &b"bytes=1-2\n"[..]] {
        let plan = deliver("audio/flac", Some(header), 1000);
        assert_eq!(plan.status, 200, "{:?}", header);
        assert_eq!(plan.length, 1000);
        assert_eq!(plan.content_range, None);
    }
}

#[test]
fn empty_object_is_delivered_whole() {
    let plan = deliver("audio/flac", Some(b"bytes=0-"), 0);
    assert_eq!(plan.status, 200);
    assert_eq!(plan.length, 0);
    assert_eq!(plan.content_range, None);
    let none = deliver("audio/flac", None, 0);
    assert_eq!((none.status, none.first_byte, none.length), (200, 0, 0));
}

#[test]
fn content_range_header_text() {
    assert_eq!(
        format_content_range_header((RangeBound::Included(0), RangeBound::Included(9)), 20),
        "bytes 0-9/20"
    );
    assert_eq!(
        format_content_range_header((RangeBound::Included(0), RangeBound::Excluded(10)), 20),
        "bytes 0-9/20"
    );
    assert_eq!(
        format_content_range_header((RangeBound::Included(3), RangeBound::Unbounded), 8),
        "bytes 3-7/8"
    );
    assert_eq!(
        format_content_range_header(
            (RangeBound::Included(0), RangeBound::Included(u64::MAX)),
            u64::MAX
        ),
        "bytes 0-18446744073709551615/18446744073709551615"
    );
}

#[test]
fn planned_ranges_with_every_kind_of_bound() {
    let plan = plan_delivery("a/b", Some((RangeBound::Included(3), RangeBound::Unbounded)), 8);
    assert_eq!(plan.content_range, Some("bytes 3-7/8".to_string()));
    assert_eq!((plan.status, plan.first_byte, plan.length), (206, 3, 5));
    let plan = plan_delivery("a/b", Some((RangeBound::Excluded(3), RangeBound::Excluded(6))), 8);
    assert_eq!(plan.content_range, Some("bytes 4-5/8".to_string()));
    assert_eq!((plan.status, plan.first_byte, plan.length), (206, 4, 2));
    let plan = plan_delivery("a/b", Some((RangeBound::Unbounded, RangeBound::Included(2))), 8);
    assert_eq!(plan.content_range, Some("bytes 0-2/8".to_string()));
    assert_eq!((plan.status, plan.first_byte, plan.length), (206, 0, 3));
    let plan = plan_delivery("a/b", Some((RangeBound::Unbounded, RangeBound::Unbounded)), 8);
    assert_eq!((plan.status, plan.first_byte, plan.length), (200, 0, 8));
    let plan = plan_delivery("a/b", Some((RangeBound::Excluded(u64::MAX), RangeBound::Unbounded)), 8);
    assert_eq!((plan.status, plan.first_byte, plan.length), (200, 0, 8));
    let plan = plan_delivery("a/b", Some((RangeBound::Included(0), RangeBound::Excluded(0))), 8);
    assert_eq!((plan.status, plan.first_byte, plan.length), (200, 0, 8));
    let plan = plan_delivery("a/b", None, 8);
    assert_eq!((plan.status, plan.first_byte, plan.length), (200, 0, 8));
}

#[test]
fn first_satisfiable_range_is_served_after_unsatisfiable_ones() {
    let plan = deliver("audio/flac", Some(b"bytes=2000-3000,5-6"), 1000);
    assert_eq!(plan.status, 206);
    assert_eq!(plan.first_byte, 5);
    assert_eq!(plan.length, 2);
    assert_eq!(plan.content_range, Some("bytes 5-6/1000".to_string()));

    let plan = deliver("audio/flac", Some(b"bytes=5-2, 0-5000, 1000-, 7-7, 8-9"), 1000);
    assert_eq!((plan.status, plan.first_byte, plan.length), (206, 7, 1));
    assert_eq!(plan.content_range, Some("bytes 7-7/1000".to_string()));
}

#[test]
fn whole_object_as_first_satisfiable_range_gives_200() {
    let plan = deliver("audio/flac", Some(b"bytes=5000-,0-999,5-6"), 1000);
    assert_eq!((plan.status, plan.first_byte, plan.length), (200, 0, 1000));
    assert_eq!(plan.content_range, None);
}

#[test]
fn no_satisfiable_range_among_several_gives_whole_object() {
    let plan = deliver("audio/flac", Some(b"bytes=5-2,1000-1001,-2000"), 1000);
    assert_eq!((plan.status, plan.first_byte, plan.length), (200, 0, 1000));
    assert_eq!(plan.content_range, None);
}

#[test]
fn first_satisfiable_of_parsed_ranges() {
    let ranges = vec![
        (RangeBound::Included(9), RangeBound::Included(3)),
        (RangeBound::Included(10), RangeBound::Unbounded),
        (RangeBound::Included(4), RangeBound::Excluded(6)),
        (RangeBound::Included(0), RangeBound::Included(1)),
    ];
    assert_eq!(
        first_satisfiable(&ranges, 10),
        Some((RangeBound::Included(4), RangeBound::Excluded(6)))
    );
    assert_eq!(first_satisfiable(&ranges, 4), Some((RangeBound::Included(0), RangeBound::Included(1))));
    assert_eq!(first_satisfiable(&ranges, 0), None);
    assert_eq!(first_satisfiable(&Vec::new(), 10), None);
}

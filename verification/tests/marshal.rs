use f3d::codec::CountedSource;
use f3d::codec::OwnedCountedList;
use f3d::codec::OwnedRecord;
use f3d::codec::SentinelList;
use f3d::codec::decode_all;
use f3d::codec::prefix_texts;
use f3d::codec::read_counted;
use f3d::text::MarshalError;
use f3d::text::OwnedForeignText;
use f3d::text::fixed_buffer;
use f3d::text::from_foreign;
use f3d::text::opt_text;
use f3d::text::to_foreign;

#[test]
fn text_round_trip_plain() {
    let text = b"hello world".to_vec();
    let foreign = to_foreign(&text).unwrap();
    let back = from_foreign(foreign.as_buffer().as_slice());
    assert_eq!(back, text);
}

#[test]
fn text_round_trip_empty() {
    let text: Vec<u8> = Vec::new();
    let foreign = to_foreign(&text).unwrap();
    assert_eq!(foreign.as_buffer().as_slice(), &[0u8]);
    let back = from_foreign(foreign.as_buffer().as_slice());
    assert_eq!(back, text);
}

#[test]
fn text_with_terminator_rejected() {
    let text = b"he\0llo".to_vec();
    assert!(matches!(to_foreign(&text), Err(MarshalError::EmbeddedTerminator)));
}

#[test]
fn text_terminator_at_end_rejected() {
    assert!(matches!(to_foreign(b"abc\0"), Err(MarshalError::EmbeddedTerminator)));
}

#[test]
fn from_foreign_stops_at_first_terminator() {
    assert_eq!(from_foreign(b"abc\0def\0"), b"abc".to_vec());
    assert_eq!(from_foreign(b"\0abc"), Vec::<u8>::new());
}

#[test]
fn owned_text_copies_then_releases() {
    let owned = OwnedForeignText::adopt(b"engine says hi\0padding".to_vec());
    let content = owned.take();
    assert_eq!(content, b"engine says hi".to_vec());
}

#[test]
fn fixed_buffer_lays_out_content_and_padding() {
    let buf = fixed_buffer(b"key", 8);
    assert_eq!(buf, vec![b'k', b'e', b'y', 0, 0, 0, 0, 0]);
    assert_eq!(from_foreign(&buf), b"key".to_vec());
}

#[test]
fn counted_zero_length_makes_no_fill_call() {
    let mut src: CountedSource<i32> = CountedSource::new(Vec::new());
    let out = read_counted(&mut src);
    assert!(out.is_empty());
    assert_eq!(src.queries_made(), 1);
    assert_eq!(src.fills_made(), 0);
}

#[test]
fn counted_nonzero_queries_then_fills_once() {
    let mut src: CountedSource<i32> = CountedSource::new(vec![4, -5, 6]);
    let out = read_counted(&mut src);
    assert_eq!(out, vec![4, -5, 6]);
    assert_eq!(src.queries_made(), 1);
    assert_eq!(src.fills_made(), 1);
}

#[test]
fn counted_double_bits_round_trip() {
    let values = vec![(0.0f64).to_bits(), (-2.5f64).to_bits(), f64::MAX.to_bits()];
    let mut src: CountedSource<u64> = CountedSource::new(values.clone());
    let out = read_counted(&mut src);
    let floats: Vec<f64> = out.iter().map(|b| f64::from_bits(*b)).collect();
    assert_eq!(floats, vec![0.0, -2.5, f64::MAX]);
}

#[test]
fn sentinel_decodes_prefix_and_releases_once() {
    let slots = vec![Some(10u64), Some(20), Some(30), None];
    let mut list = SentinelList::new(slots);
    assert!(!list.was_released());
    let out = list.take();
    assert_eq!(out, vec![10, 20, 30]);
    assert!(list.was_released());
}

#[test]
fn sentinel_stops_at_first_sentinel() {
    let slots = vec![Some(1u64), None, Some(2), None];
    let mut list = SentinelList::new(slots);
    assert_eq!(list.take(), vec![1]);
    assert!(list.was_released());
}

#[test]
fn sentinel_null_pointer_decodes_empty_without_release() {
    let mut list: SentinelList<u64> = SentinelList::null();
    let out = list.take();
    assert!(out.is_empty());
    assert!(!list.was_released());
}

#[test]
fn sentinel_immediate_sentinel_is_empty_but_released() {
    let mut list: SentinelList<u64> = SentinelList::new(vec![None]);
    assert!(list.take().is_empty());
    assert!(list.was_released());
}

#[test]
fn owned_counted_list_reports_count_and_releases() {
    let mut list = OwnedCountedList::new(vec![b"a\0".to_vec(), b"b\0".to_vec()]);
    assert_eq!(list.count(), 2);
    let raw = list.take();
    assert!(list.was_released());
    let decoded = decode_all(&raw);
    assert_eq!(decoded, vec![b"a".to_vec(), b"b".to_vec()]);
}

#[test]
fn owned_counted_list_null_is_empty_without_release() {
    let mut list: OwnedCountedList<Vec<u8>> = OwnedCountedList::null();
    assert_eq!(list.count(), 0);
    assert!(list.take().is_empty());
    assert!(!list.was_released());
}

#[test]
fn owned_record_takes_value_and_releases() {
    let mut rec = OwnedRecord::new(42u64);
    assert!(!rec.was_released());
    assert_eq!(rec.take(), Some(42));
    assert!(rec.was_released());
}

#[test]
fn owned_record_null_yields_nothing_without_release() {
    let mut rec: OwnedRecord<u64> = OwnedRecord::null();
    assert_eq!(rec.take(), None);
    assert!(!rec.was_released());
}

#[test]
fn decode_all_decodes_each_string() {
    let raw = vec![b"one\0".to_vec(), b"two\0xx".to_vec(), b"\0".to_vec()];
    let out = decode_all(&raw);
    assert_eq!(out, vec![b"one".to_vec(), b"two".to_vec(), Vec::new()]);
}

#[test]
fn prefix_texts_scans_until_sentinel() {
    let slots = vec![Some(b"abc\0".to_vec()), Some(b"de\0".to_vec()), None, Some(b"xx\0".to_vec())];
    let out = prefix_texts(&slots);
    assert_eq!(out, vec![b"abc".to_vec(), b"de".to_vec()]);
}

#[test]
fn opt_text_reads_null_as_empty() {
    assert_eq!(opt_text(&None), Vec::<u8>::new());
    assert_eq!(opt_text(&Some(b"v\0".to_vec())), b"v".to_vec());
}

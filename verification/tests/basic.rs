//! Small shared behaviors: number formatting, splitting, suffix checks and
//! the schema itself.

use music_tag_core::model::{ConstValue, MyTag};
use music_tag_core::suffix::{available_suffix, is_available_suffix};

#[test]
fn test_int_to_string() {
    let a: u32 = 15;
    assert_eq!(&a.to_string(), "15");
}

#[test]
fn test_split_slash() {
    assert_split("/", '/', vec!["", ""]);
    assert_split("1/", '/', vec!["1", ""]);
    assert_split("1/-", '/', vec!["1", "-"]);
    assert_split("1/10", '/', vec!["1", "10"]);
    assert_split("/10", '/', vec!["", "10"]);
    assert_split("-/-", '/', vec!["-", "-"]);
}

fn assert_split(source: &str, pattern: char, x1: Vec<&str>) {
    let result1: Vec<&str> = source.split(pattern).collect();
    assert_eq!(result1, x1);
}

#[test]
fn test_available_suffix() {
    // lowercase
    assert_eq!(true, available_suffix("abc.aac"));
    assert_eq!(true, available_suffix("abc.mp3"));
    assert_eq!(true, available_suffix("abc.ogg"));
    assert_eq!(true, available_suffix("abc.flac"));
    assert_eq!(true, available_suffix("abc.mpc"));
    assert_eq!(true, available_suffix("abc.wv"));
    assert_eq!(true, available_suffix("abc.spx"));
    assert_eq!(true, available_suffix("abc.tta"));
    assert_eq!(true, available_suffix("abc.mp4"));
    assert_eq!(true, available_suffix("abc.m4a"));
    assert_eq!(true, available_suffix("abc.asf"));
    assert_eq!(true, available_suffix("abc.aif"));
    assert_eq!(true, available_suffix("abc.aiff"));
    assert_eq!(true, available_suffix("abc.wav"));
    assert_eq!(true, available_suffix("abc.ape"));
    assert_eq!(true, available_suffix("abc.mod"));
    assert_eq!(true, available_suffix("abc.s3m"));
    assert_eq!(true, available_suffix("abc.xm"));
    assert_eq!(true, available_suffix("abc.opus"));
    assert_eq!(true, available_suffix("abc.dsf"));
    assert_eq!(true, available_suffix("abc.dff"));
    // uppercase
    assert_eq!(true, available_suffix("ABC.DFF"));

    // not exists
    assert_eq!(false, available_suffix("others.data"));
    assert_eq!(false, available_suffix("others"));
}

#[test]
fn test_is_available_suffix_dispatch() {
    // the audiotags backend accepts fewer container suffixes
    let audio = Some("audiotags".to_owned());
    assert!(is_available_suffix("x.mp3", &audio));
    assert!(!is_available_suffix("x.ogg", &audio));
    assert!(is_available_suffix("x.ogg", &None));
    assert!(is_available_suffix("x.ogg", &Some("taglib".to_owned())));
}

#[test]
fn test_tag_names_round_trip() {
    let tags = music_tag_core::model::all_tags();
    assert_eq!(tags.len(), 15);
    for t in &tags {
        let name = t.to_string();
        assert_eq!(MyTag::from_str(&name), Some(*t));
    }
    assert_eq!(MyTag::from_str("track-number"), Some(MyTag::TrackNumber));
    assert_eq!(MyTag::from_str("Track-Number"), None);
    assert_eq!(MyTag::from_str("bogus"), None);
}

#[test]
fn test_tag_classes() {
    assert!(MyTag::Title.is_text());
    assert!(!MyTag::Title.is_numeric());
    assert!(MyTag::TrackNumber.is_numeric());
    assert!(MyTag::Date.is_date());
    assert!(!MyTag::Date.is_text());
}

#[test]
fn test_const_value_text_form() {
    let c = ConstValue::Text { value: "plain".to_owned() };
    assert_eq!(c.get_text_value(), "plain");
    let c = ConstValue::Num { value: 7, padding: 3 };
    assert_eq!(c.get_text_value(), "007");
    let c = ConstValue::Date { value: "2020-05-01".to_owned(), format: "%Y-%m-%d".to_owned() };
    assert_eq!(c.get_text_value(), "2020-05-01");
}

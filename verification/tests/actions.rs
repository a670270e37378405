//! The editing operations: constant text edits, constant values, sequences
//! and templates, applied to in-memory records.

use music_tag_core::actions::clear::ClearAction;
use music_tag_core::actions::conv_en::ConvEnAction;
use music_tag_core::actions::mod_num::ModNumAction;
use music_tag_core::actions::mod_text_const::{
    get_new_value_add, get_new_value_replace, none_or_some_eq, ModTextConstAction,
};
use music_tag_core::actions::set_const::{should_write_numeric, should_write_text, SetConstAction};
use music_tag_core::actions::set_name::{get_regex_string, get_tokens};
use music_tag_core::actions::set_name::Token::{Chars, Tags};
use music_tag_core::actions::set_seq::get_next_value;
use music_tag_core::model::{
    AddDirection, CalcMethod, ConstValue, ConvEnProfile, ModifyMode, MyTag, QueryResultPosition,
    SetWhen, TextConst,
};
use music_tag_core::record::TagRecord;

#[test]
fn test_get_new_value_replace() {
    let from = "01";
    let to = "";
    let res = get_new_value_replace("01", from, &QueryResultPosition::Last, to, false);
    assert_eq!(&res.unwrap(), "");
}

#[test]
fn test_get_new_value_insert() {
    let res = get_new_value_add("鹿港小鎮03", &AddDirection::AppendFromEnd, &4, "_abc_");
    assert_eq!(&res.unwrap(), "鹿港_abc_小鎮03");
}

#[test]
fn test_none_or_inner_eq() {
    assert!(none_or_some_eq(&None, "abc"));
    assert!(none_or_some_eq(&Some("abc".to_owned()), "abc"));

    assert_eq!(false, none_or_some_eq(&Some("abc".to_owned()), "xyz"));
}

#[test]
fn test_should_write_text() {
    assert!(should_write_text(&None, &SetWhen::Always));
    assert!(should_write_text(&Some("".to_owned()), &SetWhen::Always));
    assert!(should_write_text(&Some("abc".to_owned()), &SetWhen::Always));

    assert!(should_write_text(&None, &SetWhen::OnlyEmpty));
    assert!(should_write_text(&Some("".to_owned()), &SetWhen::OnlyEmpty));
    assert_eq!(
        false,
        should_write_text(&Some("abc".to_owned()), &SetWhen::OnlyEmpty)
    );

    assert_eq!(false, should_write_text(&None, &SetWhen::OnlyNotEmpty));
    assert_eq!(
        false,
        should_write_text(&Some("".to_owned()), &SetWhen::OnlyNotEmpty)
    );
    assert!(should_write_text(&Some("abc".to_owned()), &SetWhen::OnlyNotEmpty));
}

#[test]
fn test_should_write_numeric() {
    assert!(should_write_numeric(&None, &SetWhen::Always));
    assert!(should_write_numeric(&Some(2), &SetWhen::Always));

    assert!(should_write_numeric(&None, &SetWhen::OnlyEmpty));
    assert_eq!(false, should_write_numeric(&Some(2), &SetWhen::OnlyEmpty));

    assert_eq!(false, should_write_numeric(&None, &SetWhen::OnlyNotEmpty));
    assert!(should_write_numeric(&Some(2), &SetWhen::OnlyNotEmpty));
}

#[test]
fn test_get_tokens() {
    assert_eq!(
        get_tokens("${track-number} - ${title}").unwrap(),
        vec![
            Tags("track-number".to_owned()),
            Chars(" - ".to_owned()),
            Tags("title".to_owned())
        ]
    );
}

#[test]
fn test_get_regex_string() {
    assert_eq!(get_regex_string("${title}").unwrap(), "(?<title>.*)".to_owned());
    assert_eq!(
        get_regex_string("${track-number} - ${title}").unwrap(),
        "(?<tracknumber>.*)(?= - ) - (?<title>.*)".to_owned()
    );

    assert!(get_regex_string("abc").unwrap().is_empty());
    assert!(get_regex_string("${unknown-tag}").is_err());
}

#[test]
fn test_get_next_value() {
    assert_eq!(get_next_value(1, 1, 2, &None), Some(("01".to_string(), 1)));
    assert_eq!(get_next_value(1, 1, 2, &Some(1)), Some(("02".to_string(), 2)));
    assert_eq!(get_next_value(1, 1, 2, &Some(10)), Some(("11".to_string(), 11)));
}

#[test]
fn test_get_next_value_exhausts() {
    assert_eq!(get_next_value(1, 1, 2, &Some(65535)), None);
    assert_eq!(get_next_value(1, 2, 2, &Some(65533)), Some(("65535".to_string(), 65535)));
}

#[test]
fn test_clear_action() {
    let action = ClearAction::new(false, &vec![MyTag::Title, MyTag::Year], &None).unwrap();
    let mut r = TagRecord::new();
    r.title = Some("keep me not".to_owned());
    r.artist = Some("someone".to_owned());
    r.year = Some(1999);
    let changed = action.write_tags(&mut r).unwrap();
    assert!(changed);
    assert_eq!(r.title, None);
    assert_eq!(r.year, None);
    assert_eq!(r.artist, Some("someone".to_owned()));
}

#[test]
fn test_clear_action_where_rejects() {
    let action =
        ClearAction::new(false, &vec![MyTag::Title], &Some("title='other'".to_owned())).unwrap();
    let mut r = TagRecord::new();
    r.title = Some("mine".to_owned());
    let changed = action.write_tags(&mut r).unwrap();
    assert!(!changed);
    assert_eq!(r.title, Some("mine".to_owned()));
}

#[test]
fn test_clear_action_rejects_bad_where() {
    assert!(ClearAction::new(false, &vec![MyTag::Title], &Some("no-such='x'".to_owned())).is_err());
    assert!(ClearAction::new(false, &vec![], &None).is_err());
}

#[test]
fn test_conv_en_action() {
    let upper =
        ConvEnAction::new(false, &vec![MyTag::Title], &None, &ConvEnProfile::Uppercase).unwrap();
    assert_eq!(
        upper.get_new_text(&Some("hello".to_owned())),
        Some("HELLO".to_owned())
    );
    // an unchanged conversion yields nothing
    assert_eq!(upper.get_new_text(&Some("HELLO".to_owned())), None);
    assert_eq!(upper.get_new_text(&None), None);

    let lower =
        ConvEnAction::new(false, &vec![MyTag::Title], &None, &ConvEnProfile::Lowercase).unwrap();
    assert_eq!(
        lower.get_new_text(&Some("HeLLo".to_owned())),
        Some("hello".to_owned())
    );

    let title =
        ConvEnAction::new(false, &vec![MyTag::Title], &None, &ConvEnProfile::Titlecase).unwrap();
    assert_eq!(
        title.get_new_text(&Some("hello world".to_owned())),
        Some("Hello World".to_owned())
    );

    let mut r = TagRecord::new();
    r.title = Some("loud and proud".to_owned());
    let changed = upper.write_tags(&mut r).unwrap();
    assert!(changed);
    assert_eq!(r.title, Some("LOUD AND PROUD".to_owned()));
}

#[test]
fn test_mod_num_action() {
    let action = ModNumAction::new(
        false,
        &vec![MyTag::TrackNumber],
        &None,
        &CalcMethod::Increase,
        3,
        2,
    )
    .unwrap();
    assert_eq!(action.get_new_numeric(&Some(5)), Some(8));
    assert_eq!(action.get_new_numeric(&None), None);

    let dec =
        ModNumAction::new(false, &vec![MyTag::TrackNumber], &None, &CalcMethod::Decrease, 3, 2)
            .unwrap();
    assert_eq!(dec.get_new_numeric(&Some(5)), Some(2));
    // a decrease below zero yields nothing
    assert_eq!(dec.get_new_numeric(&Some(2)), None);

    let mut r = TagRecord::new();
    r.track_number = Some(5);
    let changed = action.write_tags(&mut r).unwrap();
    assert!(changed);
    assert_eq!(r.track_number, Some(8));
    assert_eq!(r.track_number_string, Some("08".to_owned()));
}

#[test]
fn test_set_const_action() {
    let action = SetConstAction::new(
        false,
        &vec![MyTag::Title, MyTag::Artist],
        &None,
        ConstValue::Text { value: "fixed".to_owned() },
        &SetWhen::OnlyEmpty,
        &ModifyMode::Overwrite,
    )
    .unwrap();
    let mut r = TagRecord::new();
    r.artist = Some("busy".to_owned());
    let changed = action.write_tags(&mut r).unwrap();
    assert!(changed);
    assert_eq!(r.title, Some("fixed".to_owned()));
    assert_eq!(r.artist, Some("busy".to_owned()));
}

#[test]
fn test_set_const_rejects_mismatch() {
    // a numeric constant cannot go to a text tag
    assert!(SetConstAction::new(
        false,
        &vec![MyTag::Title],
        &None,
        ConstValue::Num { value: 5, padding: 2 },
        &SetWhen::Always,
        &ModifyMode::Overwrite,
    )
    .is_err());
    // a text constant cannot go to a numeric tag
    assert!(SetConstAction::new(
        false,
        &vec![MyTag::TrackNumber],
        &None,
        ConstValue::Text { value: "x".to_owned() },
        &SetWhen::Always,
        &ModifyMode::Overwrite,
    )
    .is_err());
    // numeric tags demand overwrite mode
    assert!(SetConstAction::new(
        false,
        &vec![MyTag::TrackNumber],
        &None,
        ConstValue::Num { value: 5, padding: 2 },
        &SetWhen::Always,
        &ModifyMode::Append,
    )
    .is_err());
    // a zero counter is refused
    assert!(SetConstAction::new(
        false,
        &vec![MyTag::TrackNumber],
        &None,
        ConstValue::Num { value: 0, padding: 2 },
        &SetWhen::Always,
        &ModifyMode::Overwrite,
    )
    .is_err());
}

#[test]
fn test_set_const_date_validation() {
    // a well-formed date passes
    assert!(SetConstAction::new(
        false,
        &vec![MyTag::Date],
        &None,
        ConstValue::Date { value: "2023-01-15".to_owned(), format: "%Y-%m-%d".to_owned() },
        &SetWhen::Always,
        &ModifyMode::Overwrite,
    )
    .is_ok());
    // one the format refuses does not
    assert!(SetConstAction::new(
        false,
        &vec![MyTag::Date],
        &None,
        ConstValue::Date { value: "not-a-date".to_owned(), format: "%Y-%m-%d".to_owned() },
        &SetWhen::Always,
        &ModifyMode::Overwrite,
    )
    .is_err());
}

#[test]
fn test_mod_text_const_action() {
    let action = ModTextConstAction::new(
        false,
        &vec![MyTag::Title],
        &None,
        TextConst::Replace {
            from: "Rust".to_owned(),
            ignore_case: false,
            position: QueryResultPosition::Any,
            to: "Verus".to_owned(),
        },
    )
    .unwrap();
    let mut r = TagRecord::new();
    r.title = Some("Rust is Rust".to_owned());
    let changed = action.write_tags(&mut r).unwrap();
    assert!(changed);
    assert_eq!(r.title, Some("Verus is Verus".to_owned()));

    // an absent value only accepts an addition at offset zero
    let add = ModTextConstAction::new(
        false,
        &vec![MyTag::Title],
        &None,
        TextConst::Add {
            add_direction: AddDirection::InsertFromBeginning,
            offset: 0,
            addend: "intro".to_owned(),
        },
    )
    .unwrap();
    assert_eq!(add.get_new_text(&None), Some("intro".to_owned()));

    // crossed removal offsets are refused at construction
    assert!(ModTextConstAction::new(
        false,
        &vec![MyTag::Title],
        &None,
        TextConst::Remove {
            direction: music_tag_core::model::Direction::Beginning,
            beginning_offset: 5,
            end_offset: Some(2),
        },
    )
    .is_err());
}

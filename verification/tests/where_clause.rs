//! The predicate engine against a mock record, including the documented
//! language properties.

use music_tag_core::lexer::CompileErrorKind;
use music_tag_core::model::MyTag;
use music_tag_core::where_clause::{CompOp, LogicKind, LogicOp, NumComp, TextComp};
use music_tag_core::record::TagRecord;
use music_tag_core::where_clause::WhereClause;

/// A mock record: each text tag holds its own name with a trailing 5,
/// except composer, copyright and lyrics; every numeric tag holds 5.
fn mock_record() -> TagRecord {
    let mut r = TagRecord::new();
    r.title = Some("title5".to_owned());
    r.artist = Some("artist5".to_owned());
    r.album_title = Some("album-title5".to_owned());
    r.album_artist = Some("album-artist5".to_owned());
    r.genre = Some("genre5".to_owned());
    r.comment = Some("comment5".to_owned());
    r.date = Some("date5".to_owned());
    r.composer = Some("Lee's".to_owned());
    r.copyright = Some("Disney".to_owned());
    r.lyrics = Some("".to_owned());
    r.year = Some(5);
    r.track_number = Some(5);
    r.track_total = Some(5);
    r.disc_number = Some(5);
    r.disc_total = Some(5);
    r
}

#[test]
fn test_where_lyrics() {
    let mock_empty_lyrics = mock_record();

    // =
    let w = WhereClause::new("lyrics=''").expect("Error");
    assert!(w.check(&mock_empty_lyrics).unwrap());
    let w = WhereClause::new("lyrics='Some Lyrics'").expect("Error");
    assert!(!w.check(&mock_empty_lyrics).unwrap());

    // != <>
    let w = WhereClause::new("lyrics<>''").expect("Error");
    assert!(!w.check(&mock_empty_lyrics).unwrap());
    let w = WhereClause::new("lyrics!=''").expect("Error");
    assert!(!w.check(&mock_empty_lyrics).unwrap());
}

#[test]
fn test_where() {
    let mock = mock_record();

    // =
    let w = WhereClause::new("title='test'").expect("Error");
    assert!(!w.check(&mock).unwrap());
    let w = WhereClause::new("title='title5'").expect("Error");
    assert!(w.check(&mock).unwrap());

    // != <>
    let w = WhereClause::new("title<>'test'").expect("Error");
    assert!(w.check(&mock).unwrap());
    let w = WhereClause::new("title!='title5'").expect("Error");
    assert!(!w.check(&mock).unwrap());

    // OR
    let w = WhereClause::new("title='title5' OR track-number=5").expect("Error");
    assert!(w.check(&mock).unwrap());
    let w = WhereClause::new("title='title5' or track-number=1").expect("Error");
    assert!(w.check(&mock).unwrap());
    let w = WhereClause::new("title='test' or track-number=5").expect("Error");
    assert!(w.check(&mock).unwrap());
    let w = WhereClause::new("title='test' or track-number=1").expect("Error");
    assert!(!w.check(&mock).unwrap());

    // AND
    let w = WhereClause::new("title='title5' AND track-number=5").expect("Error");
    assert!(w.check(&mock).unwrap());
    let w = WhereClause::new("title='title5' and track-number=1").expect("Error");
    assert!(!w.check(&mock).unwrap());
    let w = WhereClause::new("title='test' and track-number=5").expect("Error");
    assert!(!w.check(&mock).unwrap());
    let w = WhereClause::new("title='test' and track-number=1").expect("Error");
    assert!(!w.check(&mock).unwrap());

    // AND + OR
    let w = WhereClause::new("title='test' and artist='other' or track-number=5").expect("Error");
    assert!(w.check(&mock).unwrap());
    let w =
        WhereClause::new("title='test' and (artist='other' or track-number=5)").expect("Error");
    assert!(!w.check(&mock).unwrap());
    let w =
        WhereClause::new("title='test' and artist='artist5' or track-number=1").expect("Error");
    assert!(!w.check(&mock).unwrap());
    let w = WhereClause::new("title='test' or artist='other' and track-number=5").expect("Error");
    assert!(!w.check(&mock).unwrap());

    // NOT
    let w = WhereClause::new("not title='title5'").expect("Error");
    assert!(!w.check(&mock).unwrap());
    let w = WhereClause::new("not title='test'").expect("Error");
    assert!(w.check(&mock).unwrap());

    // AND + OR + NOT
    let w =
        WhereClause::new("not title='test' or artist='other' and track-number=5").expect("Error");
    assert!(w.check(&mock).unwrap());
    let w =
        WhereClause::new("title='test' or not artist='other' and track-number=5").expect("Error");
    assert!(w.check(&mock).unwrap());
    let w = WhereClause::new("title='test' or not artist='artist5' and track-number=5")
        .expect("Error");
    assert!(!w.check(&mock).unwrap());
    let w =
        WhereClause::new("title='test' and artist='other' or track-number<7").expect("Error");
    assert!(w.check(&mock).unwrap());
    let w = WhereClause::new("not (title='test' and artist='other' or track-number<7)")
        .expect("Error");
    assert!(!w.check(&mock).unwrap());

    // LIKE
    let w = WhereClause::new("title like 'test'").expect("Error");
    assert!(!w.check(&mock).unwrap());
    let w = WhereClause::new("title LIKE 'titl%5'").expect("Error");
    assert!(w.check(&mock).unwrap());
    let w = WhereClause::new("title like 'ti%'").expect("Error");
    assert!(w.check(&mock).unwrap());
    let w = WhereClause::new("title like 'TI%'").expect("Error");
    assert!(!w.check(&mock).unwrap());
    let w = WhereClause::new("title like 'title_'").expect("Error");
    assert!(w.check(&mock).unwrap());
    let w = WhereClause::new("title like 'Title_'").expect("Error");
    assert!(!w.check(&mock).unwrap());

    // ILIKE
    let w = WhereClause::new("title ilike 'ti%'").expect("Error");
    assert!(w.check(&mock).unwrap());
    let w = WhereClause::new("title ilike 'TI%'").expect("Error");
    assert!(w.check(&mock).unwrap());
    let w = WhereClause::new("title ilike 'title_'").expect("Error");
    assert!(w.check(&mock).unwrap());
    let w = WhereClause::new("title ILIKE 'Title_'").expect("Error");
    assert!(w.check(&mock).unwrap());

    // with '
    let w = WhereClause::new("composer='Lee''s'").expect("Error");
    assert!(w.check(&mock).unwrap());
    let w = WhereClause::new("composer<>'Lee''s'").expect("Error");
    assert!(!w.check(&mock).unwrap());
    let w = WhereClause::new("not composer<>'Lee''s'").expect("Error");
    assert!(w.check(&mock).unwrap());
}

/// A record for the documented properties: `title` is true-ish via
/// `title='title5'`; here `T` means a matching comparison and `A` a failing
/// one.
#[test]
fn test_precedence_or_and() {
    // T OR A AND N=1  ==  T OR (A AND N=1)  -> true
    let mock = mock_record();
    let w = WhereClause::new("title='title5' OR artist='other' AND track-number=1")
        .expect("Error");
    assert_eq!(w.check(&mock), Some(true));
    // (T OR A) AND N=1 -> false
    let w = WhereClause::new("(title='title5' OR artist='other') AND track-number=1")
        .expect("Error");
    assert_eq!(w.check(&mock), Some(false));
    // the two strings compile to different trees
    let a = WhereClause::new("title='title5' OR artist='other' AND track-number=1").unwrap();
    let b = WhereClause::new("(title='title5' OR artist='other') AND track-number=1").unwrap();
    assert_ne!(a, b);
}

#[test]
fn test_not_binds_tighter() {
    // NOT A AND N=5 == (NOT A) AND N=5 -> true when A is false and N is 5
    let mock = mock_record();
    let w = WhereClause::new("NOT artist='other' AND track-number=5").expect("Error");
    assert_eq!(w.check(&mock), Some(true));
}

#[test]
fn test_missing_value_policy() {
    // an absent tag is "not equal" to anything: != and <> give true,
    // every other operator gives false
    let mut r = mock_record();
    r.lyrics = None;
    let w = WhereClause::new("lyrics=''").expect("Error");
    assert_eq!(w.check(&r), Some(false));
    let w = WhereClause::new("lyrics<>''").expect("Error");
    assert_eq!(w.check(&r), Some(true));
    let w = WhereClause::new("lyrics!=''").expect("Error");
    assert_eq!(w.check(&r), Some(true));
    let w = WhereClause::new("lyrics LIKE '%'").expect("Error");
    assert_eq!(w.check(&r), Some(false));

    let mut n = mock_record();
    n.track_number = None;
    let w = WhereClause::new("track-number=5").expect("Error");
    assert_eq!(w.check(&n), Some(false));
    let w = WhereClause::new("track-number<>5").expect("Error");
    assert_eq!(w.check(&n), Some(true));
}

#[test]
fn test_quote_escaping_round_trip() {
    let mock = mock_record();
    let w = WhereClause::new("composer='Lee''s'").expect("Error");
    assert_eq!(w.check(&mock), Some(true));
    let w = WhereClause::new("composer<>'Lee''s'").expect("Error");
    assert_eq!(w.check(&mock), Some(false));
}

#[test]
fn test_like_wildcards_mixed_case() {
    let mut r = TagRecord::new();
    r.title = Some("Title5".to_owned());
    let w = WhereClause::new("title LIKE 'Titl%5'").expect("Error");
    assert_eq!(w.check(&r), Some(true));
    let w = WhereClause::new("title LIKE 'TI%'").expect("Error");
    assert_eq!(w.check(&r), Some(false));
    let w = WhereClause::new("title ILIKE 'ti%'").expect("Error");
    assert_eq!(w.check(&r), Some(true));
    let w = WhereClause::new("title like 'title_'").expect("Error");
    assert_eq!(w.check(&r), Some(false));
    let w = WhereClause::new("title like 'Title_'").expect("Error");
    assert_eq!(w.check(&r), Some(true));
}

#[test]
fn test_type_rejection() {
    // LIKE on a numeric tag must fail to compile
    let e = WhereClause::new("track-number LIKE '5'").unwrap_err();
    assert_eq!(e.kind, CompileErrorKind::TypeMismatch);
    // a text literal on a numeric tag fails too
    let e = WhereClause::new("track-number='5'").unwrap_err();
    assert_eq!(e.kind, CompileErrorKind::TypeMismatch);
    // an integer literal on a text tag fails
    let e = WhereClause::new("title=5").unwrap_err();
    assert_eq!(e.kind, CompileErrorKind::TypeMismatch);
}

#[test]
fn test_numeric_ordering() {
    let mock = mock_record();
    let w = WhereClause::new("track-number>4").expect("Error");
    assert_eq!(w.check(&mock), Some(true));
    let w = WhereClause::new("track-number>=5").expect("Error");
    assert_eq!(w.check(&mock), Some(true));
    let w = WhereClause::new("track-number<5").expect("Error");
    assert_eq!(w.check(&mock), Some(false));
    let w = WhereClause::new("track-number<=5").expect("Error");
    assert_eq!(w.check(&mock), Some(true));
    let w = WhereClause::new("track-number=5").expect("Error");
    assert_eq!(w.check(&mock), Some(true));
    let w = WhereClause::new("track-number<>5").expect("Error");
    assert_eq!(w.check(&mock), Some(false));
}

#[test]
fn test_compile_twice_same_result() {
    // compilation holds no hidden state: the same string twice gives
    // predicates that agree on every record tried
    let inputs = [
        "title='title5' OR artist='other' AND track-number=1",
        "not (title='test' and artist='other' or track-number<7)",
        "lyrics=''",
    ];
    for input in inputs {
        let a = WhereClause::new(input).unwrap();
        let b = WhereClause::new(input).unwrap();
        assert_eq!(a, b);
        let mock = mock_record();
        assert_eq!(a.check(&mock), b.check(&mock));
        let empty = TagRecord::new();
        assert_eq!(a.check(&empty), b.check(&empty));
    }
}

#[test]
fn test_unknown_tag_span() {
    let e = WhereClause::new("nonexistent-tag='x'").unwrap_err();
    assert_eq!(e.kind, CompileErrorKind::UnknownTag);
    assert_eq!(e.start, 0);
    assert_eq!(e.end, "nonexistent-tag".len());
}

#[test]
fn test_lex_errors() {
    let e = WhereClause::new("title='unterminated").unwrap_err();
    assert_eq!(e.kind, CompileErrorKind::UnterminatedText);
    let e = WhereClause::new("title % 'x'").unwrap_err();
    assert_eq!(e.kind, CompileErrorKind::UnexpectedChar);
    let e = WhereClause::new("year=4294967296").unwrap_err();
    assert_eq!(e.kind, CompileErrorKind::NumberOverflow);
    let e = WhereClause::new("").unwrap_err();
    assert_eq!(e.kind, CompileErrorKind::UnexpectedEnd);
    let e = WhereClause::new("title='a' title='b'").unwrap_err();
    assert_eq!(e.kind, CompileErrorKind::TrailingInput);
    let e = WhereClause::new("(title='a'").unwrap_err();
    assert_eq!(e.kind, CompileErrorKind::UnexpectedEnd);
}

#[test]
fn test_error_message_text() {
    let e = WhereClause::new("nonexistent-tag='x'").unwrap_err();
    assert_eq!(e.message(), "unknown tag at 0..15");
    let e = WhereClause::new("year=4294967296").unwrap_err();
    assert_eq!(e.message(), "number cannot be represented as a u32 at 5..15");
}

#[test]
fn test_indeterminate_taints_logic() {
    // a predicate built by hand with an ill-typed comparison evaluates to
    // None, and None on one side taints AND/OR
    let bad = WhereClause::NumComp(NumComp { op: CompOp::Like, tag: MyTag::TrackNumber, value: 5 });
    let mock = mock_record();
    assert_eq!(bad.check(&mock), None);
    let good = WhereClause::TextComp(TextComp {
        op: CompOp::Eq,
        tag: MyTag::Title,
        value: "title5".to_owned(),
    });
    assert_eq!(good.check(&mock), Some(true));
    let both = WhereClause::LogicOp(LogicOp {
        op: LogicKind::Or,
        lhs: Box::new(good),
        rhs: Box::new(WhereClause::NumComp(NumComp {
            op: CompOp::Ilike,
            tag: MyTag::Year,
            value: 1,
        })),
    });
    // even though the left side is already true, None on the right taints it
    assert_eq!(both.check(&mock), None);
}

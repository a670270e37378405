//! The character-level text editing helpers.

use music_tag_core::text_edit::{get_append_from_end, get_insert_from_beginning, get_replaced_any};
use music_tag_core::text_edit::{get_remove_from_beginning, get_remove_from_end};
use music_tag_core::text_edit::{
    get_replaced_beginning, get_replaced_end, get_replaced_first, get_replaced_last,
};
use music_tag_core::text_edit::{rtruncate, truncate};

#[test]
fn test_get_insert_from_beginning() {
    let words = "The dream my father told me";

    let res = get_insert_from_beginning(words, 0, "000 ");
    assert_eq!(res.unwrap(), "000 The dream my father told me");

    let res = get_insert_from_beginning(words, 4, "111 ");
    assert_eq!(res.unwrap(), "The 111 dream my father told me");

    let res = get_insert_from_beginning(words, words.len() - 2, "333 ");
    assert_eq!(res.unwrap(), "The dream my father told 333 me");

    let res = get_insert_from_beginning(words, words.len(), ". 789");
    assert_eq!(res.unwrap(), "The dream my father told me. 789");

    let res = get_insert_from_beginning(words, words.len() + 1, "any");
    assert_eq!(res, None);

    let w_words = "鹿港小鎮03";
    let res = get_insert_from_beginning(w_words, 1, "_abc_");
    assert_eq!(res.unwrap(), "鹿_abc_港小鎮03");
}

#[test]
fn test_get_append_from_end() {
    let words = "The dream my father told me";

    let res = get_append_from_end(words, 0, ". 789");
    assert_eq!(res.unwrap(), "The dream my father told me. 789");

    let res = get_append_from_end(words, 2, "333 ");
    assert_eq!(res.unwrap(), "The dream my father told 333 me");

    let res = get_append_from_end(words, words.len() - 4, "111 ");
    assert_eq!(res.unwrap(), "The 111 dream my father told me");

    let res = get_append_from_end(words, words.len(), "000 ");
    assert_eq!(res.unwrap(), "000 The dream my father told me");

    let res = get_append_from_end(words, words.len() + 1, "any");
    assert_eq!(res, None);

    let w_words = "鹿港小鎮03";
    let res = get_append_from_end(w_words, 4, "_abc_");
    assert_eq!(res.unwrap(), "鹿港_abc_小鎮03");
}

#[test]
fn test_get_replaced_any() {
    let words = "Someone is better than Rust but Rust is better than C++";
    let res = get_replaced_any(words, "BET", "Af", true);
    assert_eq!(
        res.unwrap(),
        "Someone is After than Rust but Rust is After than C++"
    );

    let words = "Chen洁冰; 王先生; 张先生; Chen先生; 李先生";
    let res = get_replaced_any(words, "chen", "C", true);
    assert_eq!(res.unwrap(), "C洁冰; 王先生; 张先生; C先生; 李先生");
}

#[test]
fn test_get_replaced_beginning() {
    let words = "Someone is better than Rust but Rust is better than C++";

    let res = get_replaced_beginning(words, "Some", "Any", false);
    assert_eq!(
        res.unwrap(),
        "Anyone is better than Rust but Rust is better than C++"
    );

    let res = get_replaced_beginning(words, "Something", "Anything", false);
    assert_eq!(res, None);

    let res = get_replaced_beginning(words, "is", "other", false);
    assert_eq!(res, None);
}

#[test]
fn test_get_replaced_end() {
    let words = "Someone is better than Rust but Rust is better than C++";

    let res = get_replaced_end(words, "than C++", "THAN Java", false);
    assert_eq!(
        res.unwrap(),
        "Someone is better than Rust but Rust is better THAN Java"
    );

    let res = get_replaced_end(words, "N C++", "Anything", false);
    assert_eq!(res, None);

    let res = get_replaced_end(words, "is", "other", false);
    assert_eq!(res, None);
}

#[test]
fn test_get_replaced_first() {
    let words = "Someone is better than Rust but Rust is better than C++";

    let res = get_replaced_first(words, "Rust", "Java", false);
    assert_eq!(
        res.unwrap(),
        "Someone is better than Java but Rust is better than C++"
    );

    let res = get_replaced_first(words, " Rust", " _Java", false);
    assert_eq!(
        res.unwrap(),
        "Someone is better than _Java but Rust is better than C++"
    );

    let res = get_replaced_first(words, "then", "Anything", false);
    assert_eq!(res, None);

    let res = get_replaced_first(words, "  Rust", "other", false);
    assert_eq!(res, None);
}

#[test]
fn test_get_replaced_last() {
    let words = "Someone is better than Rust but Rust is better than C++";

    let res = get_replaced_last(words, "better", "_BEST_", false);
    assert_eq!(
        res.unwrap(),
        "Someone is better than Rust but Rust is _BEST_ than C++"
    );

    let res = get_replaced_last(words, " better", "  OK ", false);
    assert_eq!(
        res.unwrap(),
        "Someone is better than Rust but Rust is  OK  than C++"
    );

    let res = get_replaced_last(words, "then", "Anything", false);
    assert_eq!(res, None);

    let res = get_replaced_last(words, "  Rust", "other", false);
    assert_eq!(res, None);
}

#[test]
fn test_get_remove_from_beginning() {
    assert_eq!(
        get_remove_from_beginning("倚天屠龙记", 0, &Some(2)).unwrap(),
        "屠龙记"
    );
    assert_eq!(get_remove_from_beginning("倚天屠龙记", 0, &None).unwrap(), "");
    assert_eq!(
        get_remove_from_beginning("倚天屠龙记", 2, &None).unwrap(),
        "倚天"
    );
    assert_eq!(
        get_remove_from_beginning("倚天屠龙记", 2, &Some(10)).unwrap(),
        "倚天"
    );
    assert_eq!(
        get_remove_from_beginning("倚天屠龙记", 2, &Some(4)).unwrap(),
        "倚天记"
    );

    assert_eq!(
        get_remove_from_beginning("倚天屠龙记", 2, &Some(2)).unwrap(),
        "倚天屠龙记"
    );

    assert_eq!(get_remove_from_beginning("倚天屠龙记", 2, &Some(1)), None);
}

#[test]
fn test_get_remove_from_end() {
    assert_eq!(
        get_remove_from_end("倚天屠龙记", 0, &Some(2)).unwrap(),
        "倚天屠"
    );
    assert_eq!(get_remove_from_end("倚天屠龙记", 0, &None).unwrap(), "");
    assert_eq!(get_remove_from_end("倚天屠龙记", 2, &None).unwrap(), "龙记");
    assert_eq!(
        get_remove_from_end("倚天屠龙记", 2, &Some(10)).unwrap(),
        "龙记"
    );
    assert_eq!(
        get_remove_from_end("倚天屠龙记", 2, &Some(4)).unwrap(),
        "倚龙记"
    );

    assert_eq!(
        get_remove_from_end("倚天屠龙记", 2, &Some(2)).unwrap(),
        "倚天屠龙记"
    );

    assert_eq!(get_remove_from_end("倚天屠龙记", 2, &Some(1)), None);
}

#[test]
fn test_truncate() {
    assert_eq!(truncate("倚天屠龙记", 0), "");
    assert_eq!(truncate("倚天屠龙记", 4), "倚天屠龙");
    assert_eq!(truncate("倚天屠龙记", 100), "倚天屠龙记");

    assert_eq!(truncate("hello", 4), "hell");
    assert_eq!(truncate("hello", 100), "hello");
}

#[test]
fn test_rtruncate() {
    assert_eq!(rtruncate("倚天屠龙记", 0), "");
    assert_eq!(rtruncate("倚天屠龙记", 4), "天屠龙记");
    assert_eq!(rtruncate("倚天屠龙记", 100), "倚天屠龙记");

    assert_eq!(rtruncate("hello", 4), "ello");
    assert_eq!(rtruncate("hello", 100), "hello");

    assert_eq!(rtruncate("Hi倚天屠龙mao记", 7), "天屠龙mao记");
}

#[test]
fn test_replace_empty_pattern() {
    // an empty query matches at every position, as str::replace has it
    assert_eq!(get_replaced_any("ab", "", ".", false).unwrap(), ".a.b.");
    assert_eq!("ab".replace("", "."), ".a.b.");
}

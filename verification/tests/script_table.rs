use harfbuzz::script_enum::{lines, tag_to_code, HeaderError, Script};
use harfbuzz::compose_tag;

const HEADER: &str = "typedef enum\n{\n  /*1.1*/ HB_SCRIPT_COMMON\t\t\t= HB_TAG ('Z','y','y','y'),\n  /*1.1*/ HB_SCRIPT_INHERITED\t\t\t= HB_TAG ('Z','i','n','h'),\n\n  /*5.0*/ HB_SCRIPT_UNKNOWN\t\t\t= HB_TAG ('Z','z','z','z'),\r\n  /*8.0*/ HB_SCRIPT_OLD_HUNGARIAN\t\t= HB_TAG ('H','u','n','g'),\n  /*\n   * Since 1.8.0\n   */\n  /*11.0*/HB_SCRIPT_HANIFI_ROHINGYA\t\t= HB_TAG ('R','o','h','g'),\n  /* No script set. */\n  HB_SCRIPT_INVALID\t\t\t\t= HB_TAG_NONE,\n  _HB_SCRIPT_MAX_VALUE\t\t\t\t= HB_TAG_MAX_SIGNED, /*< skip >*/\n} hb_script_t;\n";

#[test]
fn tag_to_code_packs_low_bytes() {
    assert_eq!(tag_to_code(['A', 'r', 'a', 'b']), 0x4172_6162);
    assert_eq!(tag_to_code(['A', 'r', 'a', 'b']), compose_tag(*b"Arab"));
    assert_eq!(tag_to_code(['\0', '\0', '\0', '\u{1}']), 1);
    assert_eq!(tag_to_code(['\u{141}', 'a', '\u{1f600}', '\u{ff}']), 0x4161_00ff);
}

#[test]
fn header_lists_scripts_in_order() {
    let scripts = Script::from_harfbuzz(HEADER).unwrap();
    let names: Vec<&str> = scripts.iter().map(|s| s.name()).collect();
    assert_eq!(names, vec!["COMMON", "INHERITED", "UNKNOWN", "OLD_HUNGARIAN", "HANIFI_ROHINGYA"]);
    let ages: Vec<&str> = scripts.iter().map(|s| s.age()).collect();
    assert_eq!(ages, vec!["1.1", "1.1", "5.0", "8.0", "11.0"]);
    assert_eq!(scripts[0].script_code_tag(), ['Z', 'y', 'y', 'y']);
    assert_eq!(scripts[0].script_code(), compose_tag(*b"Zyyy"));
    assert_eq!(scripts[4].script_code_tag(), ['R', 'o', 'h', 'g']);
    assert_eq!(scripts[4].script_code(), 0x526f_6867);
}

#[test]
fn header_without_scripts() {
    assert!(Script::from_harfbuzz("").unwrap().is_empty());
    let other = "int x;\n  HB_SCRIPT_INVALID = HB_TAG_NONE,\n /*1.1*/ HB_SCRIPT_X = HB_TAG ('a','b','c'),\n";
    assert!(Script::from_harfbuzz(other).unwrap().is_empty());
    let result: Result<Vec<Script>, HeaderError> = Script::from_harfbuzz("\n\n");
    assert!(result.is_ok());
}

#[test]
fn script_names() {
    let scripts = Script::from_harfbuzz(HEADER).unwrap();
    assert_eq!(scripts[0].hb_name(), "HB_SCRIPT_COMMON");
    assert_eq!(scripts[0].rust_name(), "Common");
    assert_eq!(scripts[3].hb_name(), "HB_SCRIPT_OLD_HUNGARIAN");
    assert_eq!(scripts[3].rust_name(), "OldHungarian");
    assert_eq!(scripts[4].rust_name(), "HanifiRohingya");
    assert_eq!(scripts[0].title_name(), "Common");
    assert_eq!(scripts[3].title_name(), "Old Hungarian");
    assert_eq!(scripts[4].title_name(), "Hanifi Rohingya");
}

#[test]
fn script_from_captures() {
    let groups = |t: [&str; 7]| -> Vec<Option<String>> {
        t.iter().map(|s| Some(s.to_string())).collect()
    };
    let s = Script::from_captures(&groups(["line", "3.0", "YI", "Y", "i", "i", "i"])).unwrap();
    assert_eq!(s.name(), "YI");
    assert_eq!(s.age(), "3.0");
    assert_eq!(s.script_code_tag(), ['Y', 'i', 'i', 'i']);
    assert_eq!(s.script_code(), compose_tag(*b"Yiii"));
    let long = Script::from_captures(&groups(["l", "1", "N", "ab", "c", "d", "e"])).unwrap();
    assert_eq!(long.script_code_tag(), ['a', 'c', 'd', 'e']);
    assert!(Script::from_captures(&groups(["l", "1", "N", "a", "", "d", "e"])).is_none());
    let mut missing = groups(["l", "1", "N", "a", "b", "c", "d"]);
    missing[1] = None;
    assert!(Script::from_captures(&missing).is_none());
    let mut short = groups(["l", "1", "N", "a", "b", "c", "d"]);
    short.pop();
    assert!(Script::from_captures(&short).is_none());
    assert!(Script::from_captures(&Vec::new()).is_none());
}

#[test]
fn lines_end_at_line_feeds() {
    assert_eq!(lines("foo\nbar\n\r\nbaz\r"), vec!["foo", "bar", "", "baz\r"]);
    assert_eq!(lines("foo\r\nbar\n\nbaz\n"), vec!["foo", "bar", "", "baz"]);
    assert_eq!(lines("one"), vec!["one"]);
    assert_eq!(lines("a\rb\r\r\nc"), vec!["a\rb\r", "c"]);
    assert!(lines("").is_empty());
    assert_eq!(lines("\n"), vec![""]);
    assert_eq!(lines("\r\n\r\n"), vec!["", ""]);
    assert_eq!(lines("\r"), vec!["\r"]);
}

#[test]
fn lines_are_those_of_the_standard_library() {
    let texts = [
        "",
        "\n",
        "\r",
        "\r\n",
        "a",
        "a\n",
        "a\r\n",
        "a\r",
        "a\n\nb",
        "\n\na\r\r\n\rb\n\r",
        "\u{e9}t\u{e9}\r\n\u{1f600}\n\u{20ac}",
        HEADER,
    ];
    for text in texts.iter() {
        let expected: Vec<String> = text.lines().map(|l| l.to_string()).collect();
        assert_eq!(lines(text), expected);
    }
}

#[test]
fn header_read_with_another_pattern() {
    let pattern = r"^(\w)(\w)(\w)(\w)(\w)(\w)$";
    let scripts = Script::from_header(pattern, "abcdef\nxyz\nNOPQRS\n").unwrap();
    assert_eq!(scripts.len(), 2);
    assert_eq!(scripts[0].age(), "a");
    assert_eq!(scripts[0].name(), "b");
    assert_eq!(scripts[0].script_code_tag(), ['c', 'd', 'e', 'f']);
    assert_eq!(scripts[1].script_code_tag(), ['P', 'Q', 'R', 'S']);
    let optional = r"^(\w)(\w)(\w)(\w)(\w)(x)?$";
    assert!(Script::from_header(optional, "abcde\n").unwrap().is_empty());
    assert_eq!(Script::from_header(optional, "abcdex\n").unwrap().len(), 1);
    let fewer = r"^(\w)(\w)$";
    assert!(Script::from_header(fewer, "ab\n").unwrap().is_empty());
}

#[test]
fn refused_pattern_is_an_error() {
    assert_eq!(Script::from_header("(", "text").err(), Some(HeaderError::Pattern));
    assert_eq!(Script::from_header(r"\", "text").err(), Some(HeaderError::Pattern));
    assert_eq!(Script::from_header("(", "").err(), Some(HeaderError::Pattern));
    assert_eq!(Script::from_header("[", "\n\n").err(), Some(HeaderError::Pattern));
    assert!(Script::from_header("a", "").unwrap().is_empty());
}

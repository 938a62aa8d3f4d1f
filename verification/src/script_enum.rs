//! Reading the script table of the shaping engine's C header.
//!
//! The header lists each script on a line of its own, such as
//!
//! ```text
//!   /*1.1*/ HB_SCRIPT_ARABIC = HB_TAG ('A','r','a','b'),
//! ```
//!
//! This module finds those lines and turns each into a `Script` record:
//! the names under which the script goes in C and in Rust, and its code.

use heck::CamelCase;
use heck::TitleCase;
use regex::Regex;
use vstd::prelude::*;
use vstd::std_specs::iter::IteratorSpec;
use vstd::string::StrSliceExecFns;
use vstd::string::StringExecFns;

verus! {

/// The error with which the `regex` crate refuses a pattern.
#[verifier::external_type_specification]
#[verifier::external_body]
pub struct ExRegexError(regex::Error);

/// Whether `Regex::new` of the `regex` crate takes a pattern for a regular
/// expression.
pub uninterp spec fn regex_accepts(pattern: Seq<char>) -> bool;

/// What the regular expression that `Regex::new` makes of a pattern
/// captures in a text, as `Regex::captures` finds it: nothing where the
/// pattern does not match, else one entry for each group of the pattern,
/// the whole match first; the entry of a group that took no part in the
/// match is `None`.
pub uninterp spec fn regex_captures(pattern: Seq<char>, text: Seq<char>) -> Option<
    Seq<Option<Seq<char>>>,
>;

/// A name in camel case, as the `heck` crate writes it.
pub uninterp spec fn camel_case(name: Seq<char>) -> Seq<char>;

/// A name in title case, as the `heck` crate writes it.
pub uninterp spec fn title_case(name: Seq<char>) -> Seq<char>;

/// What a match captured, as mathematics.
pub open spec fn captures_view(found: Option<Vec<Option<String>>>) -> Option<
    Seq<Option<Seq<char>>>,
> {
    match found {
        Some(groups) => Some(groups_view(groups@)),
        None => None,
    }
}

/// The captured groups as mathematics.
pub open spec fn groups_view(groups: Seq<Option<String>>) -> Seq<Option<Seq<char>>> {
    groups.map_values(
        |g: Option<String>|
            match g {
                Some(s) => Some(s@),
                None => None,
            },
    )
}

/// The texts of a list of strings.
pub open spec fn strings_view(strings: Seq<String>) -> Seq<Seq<char>> {
    strings.map_values(|s: String| s@)
}

/// Compiles a pattern with `Regex::new` and matches a text with
/// `Regex::captures`. An error comes back where `Regex::new` does not take
/// the pattern, which depends on the pattern alone. Else what each group
/// captured is handed out, the whole match first, as `Captures::iter` lists
/// it; that depends on the pattern and the text alone, since the regular
/// expression is made here, with the settings of `Regex::new`.
#[verifier::external_body]
fn captures(pattern: &str, text: &str) -> (found: Result<
    Option<Vec<Option<String>>>,
    regex::Error,
>)
    ensures
        found is Ok <==> regex_accepts(pattern@),
        found matches Ok(groups) ==> captures_view(groups) == regex_captures(pattern@, text@),
{
    let re = Regex::new(pattern)?;
    Ok(re.captures(text).map(|caps| caps.iter().map(|m| m.map(|m| m.as_str().to_string())).collect()))
}

/// Writes a name in camel case with `CamelCase::to_camel_case` of the
/// `heck` crate.
#[verifier::external_body]
fn to_camel_case(name: &str) -> (camel: String)
    ensures
        camel@ == camel_case(name@),
{
    name.to_camel_case()
}

/// Writes a name in title case with `TitleCase::to_title_case` of the
/// `heck` crate.
#[verifier::external_body]
fn to_title_case(name: &str) -> (title: String)
    ensures
        title@ == title_case(name@),
{
    name.to_title_case()
}

/// The index of the first line feed of a text, and the length of the text
/// where it has none.
pub open spec fn first_line_feed(text: Seq<char>) -> nat
    decreases text.len(),
{
    if text.len() == 0 || text[0] == '\n' {
        0
    } else {
        1 + first_line_feed(text.drop_first())
    }
}

/// A line without the carriage return at its end, if it has one there.
pub open spec fn without_carriage_return(line: Seq<char>) -> Seq<char> {
    if line.len() > 0 && line.last() == '\r' {
        line.drop_last()
    } else {
        line
    }
}

/// The lines of a text. A line ends with a line feed, or with a carriage
/// return and a line feed; neither belongs to the line. What follows the
/// last line feed is a line too, unless it is empty, and keeps a carriage
/// return at its end.
pub open spec fn text_lines(text: Seq<char>) -> Seq<Seq<char>>
    decreases text.len(),
{
    if text.len() == 0 {
        Seq::empty()
    } else {
        let end = first_line_feed(text) as int;
        if end >= text.len() {
            seq![text]
        } else {
            seq![without_carriage_return(text.take(end))] + text_lines(text.skip(end + 1))
        }
    }
}

/// The first line feed of a text is where a line feed stands with none
/// before it.
proof fn lemma_first_line_feed(text: Seq<char>, k: int)
    requires
        0 <= k <= text.len(),
        forall|j: int| 0 <= j < k ==> text[j] != '\n',
        k < text.len() ==> text[k] == '\n',
    ensures
        first_line_feed(text) == k,
    decreases text.len(),
{
    if k > 0 {
        assert(text[0] != '\n');
        assert forall|j: int| 0 <= j < k - 1 implies text.drop_first()[j] != '\n' by {
            assert(text.drop_first()[j] == text[j + 1]);
        }
        lemma_first_line_feed(text.drop_first(), k - 1);
    }
}

/// Splits a text into its lines.
pub fn lines(text: &str) -> (lines: Vec<String>)
    ensures
        strings_view(lines@) == text_lines(text@),
{
    broadcast use vstd::string::axiom_spec_iter, vstd::string::next_postcondition;

    let ghost chars = text@;
    let total: usize = text.unicode_len();
    let mut lines: Vec<String> = Vec::new();
    let mut rest = text.chars();
    let mut start: usize = 0;
    let mut at: usize = 0;
    let mut after_carriage_return: bool = false;
    proof {
        assert(chars.skip(0) =~= chars);
        assert(strings_view(lines@) =~= Seq::<Seq<char>>::empty());
    }
    loop
        invariant
            chars == text@,
            total == chars.len(),
            start <= at <= total,
            rest.remaining() == chars.skip(at as int),
            forall|j: int| start <= j < at ==> chars[j] != '\n',
            after_carriage_return == (at > start && chars[at - 1] == '\r'),
            text_lines(chars) == strings_view(lines@) + text_lines(chars.skip(start as int)),
        ensures
            at == total,
        decreases total - at,
    {
        match rest.next() {
            None => {
                assert(chars.skip(at as int).len() == 0);
                break ;
            },
            Some(c) => {
                proof {
                    assert(chars.skip(at as int)[0] == chars[at as int]);
                    assert(chars.skip(at as int).drop_first() =~= chars.skip(at + 1));
                }
                if c == '\n' {
                    let end: usize = if after_carriage_return {
                        at - 1
                    } else {
                        at
                    };
                    let ghost before = lines@;
                    let line = String::from_str(text.substring_char(start, end));
                    lines.push(line);
                    proof {
                        let tail = chars.skip(start as int);
                        assert forall|j: int| 0 <= j < at - start implies tail[j] != '\n' by {
                            assert(tail[j] == chars[start + j]);
                        }
                        assert(tail[at - start] == chars[at as int]);
                        lemma_first_line_feed(tail, at - start);
                        assert(tail.take(at - start) =~= chars.subrange(start as int, at as int));
                        assert(tail.skip(at - start + 1) =~= chars.skip(at + 1));
                        assert(without_carriage_return(chars.subrange(start as int, at as int))
                            =~= chars.subrange(start as int, end as int));
                        assert(strings_view(lines@) =~= strings_view(before).push(line@));
                        assert(text_lines(tail) =~= seq![line@] + text_lines(chars.skip(at + 1)));
                    }
                    start = at + 1;
                    after_carriage_return = false;
                } else {
                    after_carriage_return = c == '\r';
                }
                at = at + 1;
            },
        }
    }
    if start < total {
        let ghost before = lines@;
        let line = String::from_str(text.substring_char(start, total));
        lines.push(line);
        proof {
            let tail = chars.skip(start as int);
            assert forall|j: int| 0 <= j < tail.len() implies tail[j] != '\n' by {
                assert(tail[j] == chars[start + j]);
            }
            lemma_first_line_feed(tail, tail.len() as int);
            assert(chars.subrange(start as int, total as int) =~= tail);
            assert(strings_view(lines@) =~= strings_view(before).push(line@));
        }
    } else {
        proof {
            assert(chars.skip(start as int).len() == 0);
            assert(strings_view(lines@) + Seq::<Seq<char>>::empty() =~= strings_view(lines@));
        }
    }
    lines
}

/// The pattern of a script's line in the header. Its groups are: the
/// Unicode version that brought the script, the script's name after
/// `HB_SCRIPT_`, and the four letters of its tag.
pub const SCRIPT_LINE: &'static str =
    r"^\s*/\*([0-9.]+)\*/\s*HB_SCRIPT_(\w+)\s*=\s*HB_TAG\s*\('(\w)','(\w)','(\w)','(\w)'\),$";

/// The code that a tag of four characters packs to: the low byte of each
/// character, the first in the most significant place.
pub open spec fn tag_code(tag: Seq<char>) -> int
    recommends
        tag.len() == 4,
{
    (tag[0] as u32 % 0x100) * 0x100_0000 + (tag[1] as u32 % 0x100) * 0x1_0000 + (tag[2] as u32
        % 0x100) * 0x100 + tag[3] as u32 % 0x100
}

/// Packs a tag of four characters into its code.
pub fn tag_to_code(tag: [char; 4]) -> (code: u32)
    ensures
        code == tag_code(tag@),
{
    let t0: u32 = tag[0] as u32;
    let t1: u32 = tag[1] as u32;
    let t2: u32 = tag[2] as u32;
    let t3: u32 = tag[3] as u32;
    assert(((t0 & 0xff) << 24) + ((t1 & 0xff) << 16) + ((t2 & 0xff) << 8) + (t3 & 0xff) == (t0
        % 0x100) * 0x100_0000 + (t1 % 0x100) * 0x1_0000 + (t2 % 0x100) * 0x100 + t3 % 0x100 && (t0
        % 0x100) * 0x100_0000 + (t1 % 0x100) * 0x1_0000 + (t2 % 0x100) * 0x100 + t3 % 0x100
        <= 0xffff_ffff) by (bit_vector);
    ((t0 & 0xff) << 24) + ((t1 & 0xff) << 16) + ((t2 & 0xff) << 8) + (t3 & 0xff)
}

/// One script of the header.
#[derive(Debug)]
pub struct Script {
    name: String,
    age: String,
    script_code_tag: [char; 4],
    script_code: u32,
}

/// A script of the header, as mathematics.
pub ghost struct ScriptView {
    /// The name of the script in the header, after `HB_SCRIPT_`.
    pub name: Seq<char>,
    /// The Unicode version that brought the script.
    pub age: Seq<char>,
    /// The four letters of the script's tag.
    pub tag: Seq<char>,
    /// The code of the script.
    pub code: u32,
}

impl View for Script {
    type V = ScriptView;

    closed spec fn view(&self) -> ScriptView {
        ScriptView {
            name: self.name@,
            age: self.age@,
            tag: self.script_code_tag@,
            code: self.script_code,
        }
    }
}

/// Why the header could not be read.
#[derive(Debug, Copy, Clone, PartialEq, Eq, Structural)]
pub enum HeaderError {
    /// The `regex` crate refused the pattern of a script's line.
    Pattern,
}

/// Whether the captures of a line make a script: seven groups, the six
/// after the whole match all there, and a character in each of the last
/// four.
pub open spec fn makes_script(groups: Seq<Option<Seq<char>>>) -> bool {
    &&& groups.len() == 7
    &&& forall|i: int| 1 <= i < 7 ==> (#[trigger] groups[i]) is Some
    &&& forall|i: int| 3 <= i < 7 ==> (#[trigger] groups[i])->0.len() > 0
}

/// The script that the captures of a line make.
pub open spec fn script_of_groups(groups: Seq<Option<Seq<char>>>) -> ScriptView
    recommends
        makes_script(groups),
{
    let tag = seq![groups[3]->0[0], groups[4]->0[0], groups[5]->0[0], groups[6]->0[0]];
    ScriptView { name: groups[2]->0, age: groups[1]->0, tag, code: tag_code(tag) as u32 }
}

/// The script of a line, where the pattern captures one in it.
pub open spec fn script_of_line(pattern: Seq<char>, line: Seq<char>) -> Option<ScriptView> {
    match regex_captures(pattern, line) {
        Some(groups) => if makes_script(groups) {
            Some(script_of_groups(groups))
        } else {
            None
        },
        None => None,
    }
}

/// The scripts of a sequence of lines, in the order of the lines.
pub open spec fn scripts_of_lines(pattern: Seq<char>, lines: Seq<Seq<char>>) -> Seq<ScriptView>
    decreases lines.len(),
{
    if lines.len() == 0 {
        Seq::empty()
    } else {
        let before = scripts_of_lines(pattern, lines.drop_last());
        match script_of_line(pattern, lines.last()) {
            Some(script) => before.push(script),
            None => before,
        }
    }
}

/// The first character of a captured group, if the group is there and not
/// empty.
fn first_char(group: &Option<String>) -> (first: Option<char>)
    ensures
        first is Some <==> group is Some && group->0@.len() > 0,
        first matches Some(c) ==> c == group->0@[0],
{
    match group {
        Some(text) => {
            if text.as_str().unicode_len() > 0 {
                Some(text.as_str().get_char(0))
            } else {
                None
            }
        },
        None => None,
    }
}

impl Script {
    /// The name of the script's constant in the C header.
    pub fn hb_name(&self) -> (name: String)
        ensures
            name@ == "HB_SCRIPT_"@ + self@.name,
    {
        String::from_str("HB_SCRIPT_").concat(self.name.as_str())
    }

    /// The name of the script's variant in Rust: its name in camel case.
    pub fn rust_name(&self) -> (name: String)
        ensures
            name@ == camel_case(self@.name),
    {
        to_camel_case(self.name.as_str())
    }

    /// The name of the script in running text: its Rust name in title
    /// case.
    pub fn title_name(&self) -> (name: String)
        ensures
            name@ == title_case(camel_case(self@.name)),
    {
        let rust_name = self.rust_name();
        to_title_case(rust_name.as_str())
    }

    /// The name of the script in the header, after `HB_SCRIPT_`.
    pub fn name(&self) -> (name: &str)
        ensures
            name@ == self@.name,
    {
        self.name.as_str()
    }

    /// The Unicode version that brought the script.
    pub fn age(&self) -> (age: &str)
        ensures
            age@ == self@.age,
    {
        self.age.as_str()
    }

    /// The four letters of the script's tag.
    pub fn script_code_tag(&self) -> (tag: [char; 4])
        ensures
            tag@ == self@.tag,
    {
        self.script_code_tag
    }

    /// The code of the script.
    pub fn script_code(&self) -> (code: u32)
        ensures
            code == self@.code,
    {
        self.script_code
    }

    /// The script that the captures of a line make, if they make one.
    pub fn from_captures(groups: &Vec<Option<String>>) -> (script: Option<Script>)
        ensures
            script is Some <==> makes_script(groups_view(groups@)),
            script matches Some(s) ==> s@ == script_of_groups(groups_view(groups@)),
    {
        if groups.len() != 7 {
            return None;
        }
        let ghost view = groups_view(groups@);
        assert(forall|i: int| 0 <= i < 7 ==> (#[trigger] view[i] is Some) == (groups@[i] is Some));
        assert(forall|i: int|
            0 <= i < 7 && groups@[i] is Some ==> (#[trigger] view[i])->0 == groups@[i]->0@);
        let age = match &groups[1] {
            Some(text) => text.clone(),
            None => {
                assert(view[1] is None);
                return None;
            },
        };
        let name = match &groups[2] {
            Some(text) => text.clone(),
            None => {
                assert(view[2] is None);
                return None;
            },
        };
        let t0 = first_char(&groups[3]);
        let t1 = first_char(&groups[4]);
        let t2 = first_char(&groups[5]);
        let t3 = first_char(&groups[6]);
        match (t0, t1, t2, t3) {
            (Some(c0), Some(c1), Some(c2), Some(c3)) => {
                let tag: [char; 4] = [c0, c1, c2, c3];
                let script_code = tag_to_code(tag);
                proof {
                    assert(tag@ =~= seq![
                        view[3]->0[0],
                        view[4]->0[0],
                        view[5]->0[0],
                        view[6]->0[0],
                    ]);
                    assert(makes_script(view));
                }
                Some(Script { name, age, script_code_tag: tag, script_code })
            },
            _ => {
                assert(!makes_script(view)) by {
                    if t0 is None {
                        assert(!(view[3] is Some && view[3]->0.len() > 0));
                    } else if t1 is None {
                        assert(!(view[4] is Some && view[4]->0.len() > 0));
                    } else if t2 is None {
                        assert(!(view[5] is Some && view[5]->0.len() > 0));
                    } else {
                        assert(!(view[6] is Some && view[6]->0.len() > 0));
                    }
                }
                None
            },
        }
    }

    /// The scripts that a header lists, in its order: one for each line in
    /// which the given pattern captures a script. The one error is that the
    /// `regex` crate does not take the pattern; it comes for every header
    /// then, one without lines too, since the pattern is tried on the empty
    /// text first.
    pub fn from_header(pattern: &str, header: &str) -> (scripts: Result<Vec<Script>, HeaderError>)
        ensures
            scripts is Ok <==> regex_accepts(pattern@),
            match scripts {
                Ok(list) => list@.map_values(|s: Script| s@) == scripts_of_lines(
                    pattern@,
                    text_lines(header@),
                ),
                Err(e) => e == HeaderError::Pattern,
            },
    {
        if captures(pattern, "").is_err() {
            return Err(HeaderError::Pattern);
        }
        let all = lines(header);
        let mut scripts: Vec<Script> = Vec::new();
        let n: usize = all.len();
        let mut i: usize = 0;
        proof {
            assert(strings_view(all@).take(0) =~= Seq::<Seq<char>>::empty());
            assert(scripts@.map_values(|s: Script| s@) =~= Seq::<ScriptView>::empty());
        }
        while i < n
            invariant
                i <= n == all@.len(),
                regex_accepts(pattern@),
                strings_view(all@) == text_lines(header@),
                scripts@.map_values(|s: Script| s@) == scripts_of_lines(
                    pattern@,
                    strings_view(all@).take(i as int),
                ),
            decreases n - i,
        {
            let ghost before = scripts@;
            let found = match captures(pattern, all[i].as_str()) {
                Ok(found) => found,
                Err(_) => {
                    return Err(HeaderError::Pattern);
                },
            };
            proof {
                let upto = strings_view(all@).take(i + 1);
                assert(upto.drop_last() =~= strings_view(all@).take(i as int));
                assert(upto.last() == all@[i as int]@);
            }
            if let Some(groups) = found {
                if let Some(script) = Script::from_captures(&groups) {
                    scripts.push(script);
                    proof {
                        assert(scripts@.map_values(|s: Script| s@) =~= before.map_values(
                            |s: Script| s@,
                        ).push(script@));
                    }
                }
            }
            i += 1;
        }
        proof {
            assert(strings_view(all@).take(n as int) =~= strings_view(all@));
        }
        Ok(scripts)
    }

    /// The scripts that the engine's header lists, in its order: one for
    /// each line in which the pattern `SCRIPT_LINE` captures a script.
    pub fn from_harfbuzz(header: &str) -> (scripts: Result<Vec<Script>, HeaderError>)
        ensures
            scripts is Ok <==> regex_accepts(SCRIPT_LINE@),
            match scripts {
                Ok(list) => list@.map_values(|s: Script| s@) == scripts_of_lines(
                    SCRIPT_LINE@,
                    text_lines(header@),
                ),
                Err(e) => e == HeaderError::Pattern,
            },
    {
        Script::from_header(SCRIPT_LINE, header)
    }
}

} // verus!

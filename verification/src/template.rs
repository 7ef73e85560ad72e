//! Command templates.
//!
//! A command is written as a mustache template and rendered by the
//! `mustache` crate with three named texts. The crate is not verified: what
//! it renders is named by `rendered`, and only templates on which it is
//! known to return are handed to it.

use vstd::prelude::*;
use crate::text::chars_of;

verus! {

#[verifier::external_type_specification]
#[verifier::external_body]
pub struct ExMustacheError(mustache::Error);

/// What the `mustache` crate renders from `template` when the names
/// `name1`, `name2` and `name3` stand for the texts `text1`, `text2` and
/// `text3`; `None` where it reports an error.
pub uninterp spec fn rendered(
    template: Seq<char>,
    name1: Seq<char>,
    text1: Seq<char>,
    name2: Seq<char>,
    text2: Seq<char>,
    name3: Seq<char>,
    text3: Seq<char>,
) -> Option<Seq<char>>;

/// A character that may be trimmed from the name in a tag. Every character
/// outside ASCII counts as one, which is more than the crate trims.
pub open spec fn is_blank(c: char) -> bool {
    let n = c as u32;
    n == 0x20 || 0x09 <= n <= 0x0d || n >= 0x80
}

/// Whether the template holds a tag that sets other delimiters or a tag
/// that includes another template from a file.
pub open spec fn has_special_tag(t: Seq<char>) -> bool {
    exists|i: int|
        0 <= i && i + 2 < t.len() && #[trigger] t[i] == '{' && t[i + 1] == '{' && (t[i + 2] == '='
            || t[i + 2] == '>')
}

/// Whether all characters strictly between `from` and `to` are blank.
pub open spec fn blank_between(t: Seq<char>, from: int, to: int) -> bool {
    forall|k: int| from < k < to ==> is_blank(#[trigger] t[k])
}

/// Whether a tag has just been opened at `j`: the character is the second
/// of two opening braces, or an ampersand right behind two opening braces.
/// The third of three opening braces is the second of two as well.
pub open spec fn opens_tag_at(t: Seq<char>, j: int) -> bool {
    ||| j >= 1 && t[j] == '{' && t[j - 1] == '{'
    ||| j >= 2 && t[j] == '&' && t[j - 1] == '{' && t[j - 2] == '{'
}

/// Whether a tag is about to be closed at `j`: the character is the first of
/// two closing braces.
pub open spec fn closes_tag_at(t: Seq<char>, j: int) -> bool {
    j + 1 < t.len() && t[j] == '}' && t[j + 1] == '}'
}

/// Whether, going left from `i` over blanks, the first other character is
/// where a tag has just been opened.
pub open spec fn opens_left(t: Seq<char>, i: int) -> bool {
    exists|j: int| 0 <= j < i && #[trigger] opens_tag_at(t, j) && blank_between(t, j, i)
}

/// Whether, going right from `i` over blanks, the first other character is
/// where a tag is about to be closed.
pub open spec fn closes_right(t: Seq<char>, i: int) -> bool {
    exists|j: int| i < j < t.len() && #[trigger] closes_tag_at(t, j) && blank_between(t, i, j)
}

/// Whether the character at `i` may be a tag that names the whole set of
/// texts: a dot that stands alone, but for blanks, between the opening and
/// the closing of a tag.
pub open spec fn is_lone_dot(t: Seq<char>, i: int) -> bool {
    t[i] == '.' && opens_left(t, i) && closes_right(t, i)
}

/// The templates that are handed to the crate: those without a tag that
/// includes a file, without a tag that names the whole set of texts, and
/// without a tag that sets other delimiters. The last are refused because
/// behind such a tag the braces no longer tell where a tag stands; a
/// template that sets its own delimiters does not render here.
pub open spec fn renderable(t: Seq<char>) -> bool {
    &&& !has_special_tag(t)
    &&& forall|i: int| 0 <= i < t.len() ==> !is_lone_dot(t, i)
}

/// `mustache::compile_str`, then `Template::render_data_to_string` on the
/// map that `MapBuilder::insert_str` builds from the three names and texts.
/// Without proof: the call returns on a renderable template, and what it
/// returns depends on the arguments alone. No more is said of the result.
#[verifier::external_body]
fn render(
    template: &str,
    name1: &str,
    text1: &str,
    name2: &str,
    text2: &str,
    name3: &str,
    text3: &str,
) -> (r: Result<String, mustache::Error>)
    requires
        renderable(template@),
    ensures
        match r {
            Ok(text) => rendered(template@, name1@, text1@, name2@, text2@, name3@, text3@)
                == Some(text@),
            Err(_) => rendered(template@, name1@, text1@, name2@, text2@, name3@, text3@)
                is None,
        },
{
    let data = mustache::MapBuilder::new()
        .insert_str(name1, text1)
        .insert_str(name2, text2)
        .insert_str(name3, text3)
        .build();
    mustache::compile_str(template)?.render_data_to_string(&data)
}

pub fn blank(c: char) -> (r: bool)
    ensures
        r == is_blank(c),
{
    let n = c as u32;
    n == 0x20 || (0x09 <= n && n <= 0x0d) || n >= 0x80
}

fn special_tag_in(t: &Vec<char>) -> (r: bool)
    ensures
        r == has_special_tag(t@),
{
    if t.len() < 3 {
        return false;
    }
    let mut i: usize = 0;
    while i < t.len() - 2
        invariant
            t.len() >= 3,
            i <= t.len() - 2,
            forall|j: int|
                0 <= j < i ==> !(#[trigger] t@[j] == '{' && t@[j + 1] == '{' && (t@[j + 2] == '='
                    || t@[j + 2] == '>')),
        decreases t.len() - i,
    {
        if t[i] == '{' && t[i + 1] == '{' && (t[i + 2] == '=' || t[i + 2] == '>') {
            return true;
        }
        i += 1;
    }
    false
}

fn opens_tag(t: &Vec<char>, j: usize) -> (r: bool)
    requires
        j < t.len(),
    ensures
        r == opens_tag_at(t@, j as int),
{
    (j >= 1 && t[j] == '{' && t[j - 1] == '{') || (j >= 2 && t[j] == '&' && t[j - 1] == '{' && t[j
        - 2] == '{')
}

fn closes_tag(t: &Vec<char>, j: usize) -> (r: bool)
    requires
        j < t.len(),
    ensures
        r == closes_tag_at(t@, j as int),
{
    j < t.len() - 1 && t[j] == '}' && t[j + 1] == '}'
}

fn opens_left_of(t: &Vec<char>, i: usize) -> (r: bool)
    requires
        i < t.len(),
    ensures
        r == opens_left(t@, i as int),
{
    let mut j: usize = i;
    while j > 0 && blank(t[j - 1])
        invariant
            j <= i < t.len(),
            blank_between(t@, j as int - 1, i as int),
        decreases j,
    {
        j -= 1;
    }
    if j > 0 && opens_tag(t, j - 1) {
        true
    } else {
        assert forall|k: int| 0 <= k < i && #[trigger] opens_tag_at(t@, k) implies !blank_between(
            t@,
            k,
            i as int,
        ) by {
            if k < j - 1 {
                assert(!is_blank(t@[j - 1]));
            } else if k >= j {
                assert(!is_blank(t@[k]));
            }
        }
        false
    }
}

fn closes_right_of(t: &Vec<char>, i: usize) -> (r: bool)
    requires
        i < t.len(),
    ensures
        r == closes_right(t@, i as int),
{
    let mut j: usize = i + 1;
    while j < t.len() && blank(t[j])
        invariant
            i < j <= t.len(),
            blank_between(t@, i as int, j as int),
        decreases t.len() - j,
    {
        j += 1;
    }
    if j < t.len() && closes_tag(t, j) {
        true
    } else {
        assert forall|k: int| i < k < t.len() && #[trigger] closes_tag_at(t@, k) implies !blank_between(
            t@,
            i as int,
            k,
        ) by {
            if k > j {
                assert(!is_blank(t@[j as int]));
            } else if k < j {
                assert(!is_blank(t@[k]));
            }
        }
        false
    }
}

/// Whether a template is handed to the crate.
pub fn is_renderable(template: &str) -> (r: bool)
    ensures
        r == renderable(template@),
{
    let t = chars_of(template);
    if special_tag_in(&t) {
        return false;
    }
    let mut i: usize = 0;
    while i < t.len()
        invariant
            i <= t.len(),
            t@ == template@,
            !has_special_tag(t@),
            forall|j: int| 0 <= j < i ==> !is_lone_dot(t@, j),
        decreases t.len() - i,
    {
        if t[i] == '.' && opens_left_of(&t, i) && closes_right_of(&t, i) {
            assert(is_lone_dot(t@, i as int));
            return false;
        }
        i += 1;
    }
    true
}

/// Renders `template` with three named texts. A template that is not
/// renderable is refused; on a renderable one the crate decides.
pub fn render_template(
    template: &str,
    name1: &str,
    text1: &str,
    name2: &str,
    text2: &str,
    name3: &str,
    text3: &str,
) -> (r: Option<String>)
    ensures
        r.deep_view() == (if renderable(template@) {
            rendered(template@, name1@, text1@, name2@, text2@, name3@, text3@)
        } else {
            None
        }),
{
    if !is_renderable(template) {
        return None;
    }
    match render(template, name1, text1, name2, text2, name3, text3) {
        Ok(text) => Some(text),
        Err(_) => None,
    }
}

} // verus!

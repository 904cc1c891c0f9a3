//! Rendering the text of a feed post from a template.
use crate::model::RssItem;
use crate::timestamp::display_text;
use vstd::prelude::*;
use vstd::string::StrSliceExecFns;
use vstd::string::StringExecFns;

verus! {

/// `String::push`: appends one character to the end of the string.
pub assume_specification[ String::push ](s: &mut String, c: char)
    ensures
        final(s)@ == old(s)@.push(c),
;

/// Whether `pattern` stands in `text` at its very start.
pub open spec fn starts_with(text: Seq<char>, pattern: Seq<char>) -> bool {
    pattern.len() <= text.len() && text.subrange(0, pattern.len() as int) == pattern
}

/// `text` with every occurrence of `pattern` replaced by `with`.
///
/// Occurrences are found from left to right and do not overlap: after one
/// is replaced, the search goes on behind it. The replacement itself is not
/// searched. An empty pattern occurs nowhere.
pub open spec fn replaced(text: Seq<char>, pattern: Seq<char>, with: Seq<char>) -> Seq<char>
    decreases text.len(),
{
    if pattern.len() == 0 || text.len() == 0 {
        text
    } else if starts_with(text, pattern) {
        with + replaced(text.skip(pattern.len() as int), pattern, with)
    } else {
        seq![text[0]] + replaced(text.skip(1), pattern, with)
    }
}

/// The text posted for a feed item.
///
/// With a template, the placeholders `{title}`, `{pub_date}` and `{url}` are
/// replaced in this order by the item's title, the text of the instant it
/// was published at and its link, and then every backslash followed by `n`
/// becomes a line break. Without a template the text is the title, an empty
/// line and the link.
pub open spec fn rendered(
    template: Option<Seq<char>>,
    title: Seq<char>,
    published: Seq<char>,
    link: Seq<char>,
) -> Seq<char> {
    match template {
        Some(t) => replaced(
            replaced(
                replaced(replaced(t, "{title}"@, title), "{pub_date}"@, published),
                "{url}"@,
                link,
            ),
            "\\n"@,
            "\n"@,
        ),
        None => title + "\n\n"@ + link,
    }
}

/// The characters of `text`.
fn chars_of(text: &str) -> (r: Vec<char>)
    ensures
        r@ == text@,
{
    let n = text.unicode_len();
    let mut out: Vec<char> = Vec::new();
    let mut i: usize = 0;
    while i < n
        invariant
            0 <= i <= n,
            n == text@.len(),
            out@ == text@.take(i as int),
        decreases n - i,
    {
        out.push(text.get_char(i));
        assert(out@ =~= text@.take(i + 1));
        i = i + 1;
    }
    assert(out@ =~= text@);
    out
}

/// Whether `pattern` stands in `text` at place `at`.
fn matches_at(text: &Vec<char>, pattern: &Vec<char>, at: usize) -> (r: bool)
    requires
        at <= text@.len(),
    ensures
        r == starts_with(text@.skip(at as int), pattern@),
{
    if pattern.len() > text.len() - at {
        return false;
    }
    let mut k: usize = 0;
    while k < pattern.len()
        invariant
            0 <= k <= pattern.len(),
            at + pattern.len() <= text.len(),
            forall|j: int| 0 <= j < k ==> text@[at + j] == pattern@[j],
        decreases pattern.len() - k,
    {
        if text[at + k] != pattern[k] {
            proof {
                let head = text@.skip(at as int).subrange(0, pattern@.len() as int);
                assert(head[k as int] == text@[at + k]);
            }
            return false;
        }
        k = k + 1;
    }
    proof {
        assert(text@.skip(at as int).subrange(0, pattern@.len() as int) =~= pattern@);
    }
    true
}

/// `text` with every occurrence of `pattern` replaced by `with`; an empty
/// pattern occurs nowhere.
pub fn replace_all(text: &str, pattern: &str, with: &str) -> (r: String)
    ensures
        r@ == replaced(text@, pattern@, with@),
{
    let source = chars_of(text);
    let wanted = chars_of(pattern);
    let mut out = String::new();
    let mut i: usize = 0;
    proof {
        assert(text@.skip(0) =~= text@);
        assert(out@ + replaced(text@, pattern@, with@) =~= replaced(text@, pattern@, with@));
    }
    while i < source.len()
        invariant
            0 <= i <= source.len(),
            source@ == text@,
            wanted@ == pattern@,
            out@ + replaced(text@.skip(i as int), pattern@, with@) == replaced(
                text@,
                pattern@,
                with@,
            ),
        decreases source.len() - i,
    {
        let ghost rest = text@.skip(i as int);
        if wanted.len() > 0 && matches_at(&source, &wanted, i) {
            proof {
                assert(rest.skip(pattern@.len() as int) =~= text@.skip(i + pattern@.len()));
                assert((out@ + with@) + replaced(
                    text@.skip(i + pattern@.len()),
                    pattern@,
                    with@,
                ) =~= out@ + (with@ + replaced(rest.skip(pattern@.len() as int), pattern@, with@)));
            }
            out.append(with);
            i = i + wanted.len();
        } else {
            proof {
                assert(rest.skip(1) =~= text@.skip(i + 1));
                assert(rest[0] == source@[i as int]);
                assert(out@.push(source@[i as int]) + replaced(text@.skip(i + 1), pattern@, with@)
                    =~= out@ + (seq![rest[0]] + replaced(rest.skip(1), pattern@, with@)));
            }
            out.push(source[i]);
            i = i + 1;
        }
    }
    proof {
        assert(text@.skip(i as int).len() == 0);
        assert(out@ + replaced(text@.skip(i as int), pattern@, with@) =~= out@);
    }
    out
}

/// The text of an optional template.
pub open spec fn template_text(template: Option<String>) -> Option<Seq<char>> {
    match template {
        Some(t) => Some(t@),
        None => None,
    }
}

/// Renders the text of a feed post from the fields of an item; see
/// `rendered`. `published` is the text of the instant the item was
/// published at; without a template it is not used.
pub fn render(template: &Option<String>, title: &str, published: &str, link: &str) -> (r: String)
    ensures
        r@ == rendered(template_text(*template), title@, published@, link@),
{
    match template {
        Some(t) => {
            let a = replace_all(t.as_str(), "{title}", title);
            let b = replace_all(a.as_str(), "{pub_date}", published);
            let c = replace_all(b.as_str(), "{url}", link);
            replace_all(c.as_str(), "\\n", "\n")
        },
        None => {
            let mut out = String::from_str(title);
            out.append("\n\n");
            out.append(link);
            out
        },
    }
}

impl RssItem {
    /// The text to post for this item; see `rendered`.
    ///
    /// `None` is returned only for a template and an instant of publication
    /// that has no text form.
    pub fn to_message(&self, template: &Option<String>) -> (r: Option<String>)
        ensures
            match (template, display_text(
                self.pub_date.unix_nanos as int,
                self.pub_date.offset_seconds as int,
            )) {
                (Some(t), Some(published)) => r matches Some(s) && s@ == rendered(
                    Some(t@),
                    self.title@,
                    published,
                    self.link@,
                ),
                (Some(_), None) => r.is_none(),
                (None, _) => r matches Some(s) && s@ == rendered(
                    None,
                    self.title@,
                    Seq::empty(),
                    self.link@,
                ),
            },
    {
        match template {
            Some(_) => match self.pub_date.to_text() {
                Some(published) => Some(
                    render(template, self.title.as_str(), published.as_str(), self.link.as_str()),
                ),
                None => None,
            },
            None => Some(render(template, self.title.as_str(), "", self.link.as_str())),
        }
    }
}

} // verus!

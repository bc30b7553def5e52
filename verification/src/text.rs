//! Text sanitization for user-controlled profile data.
//!
//! Profile colors, usernames and metadata values are cleaned before they
//! are rendered: HTML tags are stripped through the `ammonia` sanitizer,
//! and characters with meaning in CSS or HTML are rewritten.

use vstd::prelude::*;

verus! {

/// What `str::replace` returns for the given haystack, pattern and
/// replacement.
pub uninterp spec fn str_replaced(s: Seq<char>, from: Seq<char>, to: Seq<char>) -> Seq<char>;

/// Relies on `str::replace`: replaces every match of the pattern; the
/// result depends on the three strings alone.
#[verifier::external_body]
pub(crate) fn replace_all(s: &str, from: &str, to: &str) -> (r: String)
    ensures
        r@ == str_replaced(s@, from@, to@),
{
    s.replace(from, to)
}

/// What `ammonia` produces for the given input when the named tags are
/// removed from the default whitelist.
pub uninterp spec fn html_cleaned(tags_removed: Seq<Seq<char>>, input: Seq<char>) -> Seq<char>;

/// Relies on `ammonia::Builder::rm_tags` and `ammonia::Builder::clean`:
/// deterministic HTML sanitization with the named tags taken out of the
/// default whitelist; the result depends on the tag list and the input
/// alone.
#[verifier::external_body]
pub(crate) fn clean_html(tags_removed: &Vec<&str>, input: &str) -> (r: String)
    ensures
        r@ == html_cleaned(tags_removed.deep_view(), input@),
{
    ammonia::Builder::default().rm_tags(tags_removed.iter().cloned()).clean(input).to_string()
}

/// What `char::is_alphanumeric` returns for the character.
pub uninterp spec fn is_alphanum(c: char) -> bool;

/// Relies on `char::is_alphanumeric`: the result depends on the
/// character alone, and is documented true of ASCII letters and digits.
#[verifier::external_body]
pub(crate) fn char_is_alphanumeric(c: char) -> (r: bool)
    ensures
        r == is_alphanum(c),
        'a' <= c && c <= 'z' ==> r,
        'A' <= c && c <= 'Z' ==> r,
        '0' <= c && c <= '9' ==> r,
{
    c.is_alphanumeric()
}

/// Relies on `str::chars`: yields exactly the characters of the string,
/// in order.
#[verifier::external_body]
pub(crate) fn chars_vec(s: &str) -> (r: Vec<char>)
    ensures
        r@ == s@,
{
    s.chars().collect()
}

/// Whether `s` begins with `prefix`.
pub open spec fn spec_starts_with(s: Seq<char>, prefix: Seq<char>) -> bool {
    s.len() >= prefix.len() && s.subrange(0, prefix.len() as int) == prefix
}

/// Relies on `str::starts_with`: true iff the string begins with the
/// given prefix.
#[verifier::external_body]
pub(crate) fn str_starts_with(s: &str, prefix: &str) -> (r: bool)
    ensures
        r == spec_starts_with(s@, prefix@),
{
    s.starts_with(prefix)
}

/// Relies on `String::push_str`: appends the slice onto the end of the
/// string.
#[verifier::external_body]
pub(crate) fn append_str(s: &mut String, t: &str)
    ensures
        final(s)@ == old(s)@ + t@,
{
    s.push_str(t)
}

/// Relies on `str`'s `PartialEq`: true iff the two strings hold the same
/// characters.
#[verifier::external_body]
pub(crate) fn str_eq(a: &str, b: &str) -> (r: bool)
    ensures
        r == (a@ == b@),
{
    a == b
}

/// The tags stripped from profile-controlled HTML.
pub open spec fn removed_tag_names() -> Seq<Seq<char>> {
    seq!["img"@, "a"@, "span"@, "p"@, "h1"@, "h2"@, "h3"@, "h4"@, "h5"@, "h6"@]
}

/// The sanitizer pass applied to profile-controlled text: tags stripped,
/// then the escaped angle brackets and ampersands restored and a closing
/// script tag defused.
pub open spec fn spec_remove_tags(input: Seq<char>) -> Seq<char> {
    str_replaced(
        str_replaced(
            str_replaced(
                str_replaced(html_cleaned(removed_tag_names(), input), "&lt;"@, "<"@),
                "&gt;"@,
                ">"@,
            ),
            "&amp;"@,
            "&"@,
        ),
        "</script>"@,
        "</not-script"@,
    )
}

/// Clean profile metadata: strips the markup tags, restores escaped
/// characters and defuses a closing script tag.
pub fn remove_tags(input: &str) -> (r: String)
    ensures
        r@ == spec_remove_tags(input@),
{
    let mut tags: Vec<&str> = Vec::new();
    tags.push("img");
    tags.push("a");
    tags.push("span");
    tags.push("p");
    tags.push("h1");
    tags.push("h2");
    tags.push("h3");
    tags.push("h4");
    tags.push("h5");
    tags.push("h6");
    proof {
        assert(tags.deep_view() =~= removed_tag_names());
    }
    let cleaned = clean_html(&tags, input);
    let a = replace_all(cleaned.as_str(), "&lt;", "<");
    let b = replace_all(a.as_str(), "&gt;", ">");
    let c = replace_all(b.as_str(), "&amp;", "&");
    replace_all(c.as_str(), "</script>", "</not-script")
}

/// The rewriting applied to a profile color value before it reaches a
/// stylesheet: separators and braces dropped, angle brackets escaped and
/// remote image urls routed through the image proxy, then the sanitizer
/// pass.
pub open spec fn spec_color_escape(color: Seq<char>) -> Seq<char> {
    spec_remove_tags(
        str_replaced(
            str_replaced(
                str_replaced(
                    str_replaced(
                        str_replaced(
                            str_replaced(
                                str_replaced(
                                    str_replaced(color, ";"@, ""@),
                                    "<"@,
                                    "&lt;"@,
                                ),
                                ">"@,
                                "%gt;"@,
                            ),
                            "}"@,
                            ""@,
                        ),
                        "{"@,
                        ""@,
                    ),
                    "url(\""@,
                    "url(\"/api/v0/util/ext/image?img="@,
                ),
                "url('"@,
                "url('/api/v0/util/ext/image?img="@,
            ),
            "url(https://"@,
            "url(/api/v0/util/ext/image?img=https://"@,
        ),
    )
}

/// Escape profile colors.
pub fn color_escape(color: &&&String) -> (r: String)
    ensures
        r@ == spec_color_escape(color@),
{
    let a = replace_all(color.as_str(), ";", "");
    let b = replace_all(a.as_str(), "<", "&lt;");
    let c = replace_all(b.as_str(), ">", "%gt;");
    let d = replace_all(c.as_str(), "}", "");
    let e = replace_all(d.as_str(), "{", "");
    let f = replace_all(e.as_str(), "url(\"", "url(\"/api/v0/util/ext/image?img=");
    let g = replace_all(f.as_str(), "url('", "url('/api/v0/util/ext/image?img=");
    let h = replace_all(g.as_str(), "url(https://", "url(/api/v0/util/ext/image?img=https://");
    remove_tags(h.as_str())
}

/// Escape a username's characters if we are unable to find a "good"
/// character.
///
/// A "good" character is any alphanumeric character.
pub fn escape_username(name: &String) -> (r: String)
    ensures
        (exists|i: int| 0 <= i < name@.len() && is_alphanum(name@[i])) ==> r@ == name@,
        !(exists|i: int| 0 <= i < name@.len() && is_alphanum(name@[i])) ==> r@
            == "bad username"@,
{
    let chars = chars_vec(name.as_str());
    let n = chars.len();
    let mut found_good: bool = false;
    let mut i: usize = 0;
    while i < n && !found_good
        invariant
            n == chars@.len(),
            chars@ == name@,
            i <= n,
            found_good ==> exists|j: int| 0 <= j < name@.len() && is_alphanum(name@[j]),
            !found_good ==> forall|j: int| 0 <= j < i ==> !is_alphanum(name@[j]),
        decreases n - i,
    {
        if char_is_alphanumeric(chars[i]) {
            found_good = true;
        }
        i = i + 1;
    }

    if !found_good {
        return "bad username".to_owned();
    }

    name.clone()
}

} // verus!

use vstd::prelude::*;

verus! {

/// The artifact character that generators leave as stray emphasis.
pub const MARKER: char = '*';

/// `s` with every occurrence of `MARKER` deleted, the other characters kept
/// in their order.
pub open spec fn strip_marker(s: Seq<char>) -> Seq<char>
    decreases s.len(),
{
    if s.len() == 0 {
        s
    } else {
        let rest = strip_marker(s.drop_last());
        if s.last() == MARKER {
            rest
        } else {
            rest.push(s.last())
        }
    }
}

/// `s` with every meta character of the regex syntax preceded by a backslash.
pub open spec fn regex_escaped(s: Seq<char>) -> Seq<char>
    decreases s.len(),
{
    if s.len() == 0 {
        s
    } else {
        let rest = regex_escaped(s.drop_last());
        if is_regex_meta(s.last()) {
            rest.push('\\').push(s.last())
        } else {
            rest.push(s.last())
        }
    }
}

pub open spec fn is_regex_meta(c: char) -> bool {
    c == '\\' || c == '.' || c == '+' || c == '*' || c == '?' || c == '(' || c == ')' || c == '|'
        || c == '[' || c == ']' || c == '{' || c == '}' || c == '^' || c == '$' || c == '#'
        || c == '&' || c == '-' || c == '~'
}

/// `s` with every occurrence of `c` deleted.
pub open spec fn delete_char(s: Seq<char>, c: char) -> Seq<char>
    decreases s.len(),
{
    if s.len() == 0 {
        s
    } else {
        let rest = delete_char(s.drop_last(), c);
        if s.last() == c {
            rest
        } else {
            rest.push(s.last())
        }
    }
}

/// A compiled regex that matches one literal character and nothing else.
pub struct LiteralFilter {
    re: regex::Regex,
    literal: char,
}

impl LiteralFilter {
    pub closed spec fn literal(&self) -> char {
        self.literal
    }
}

/// Relies on regex::escape: each regex meta character gets a backslash in
/// front of it, every other character is copied as it is.
#[verifier::external_body]
fn escape_pattern(text: &str) -> (r: String)
    ensures
        r@ == regex_escaped(text@),
{
    regex::escape(text)
}

/// Relies on regex::Regex::new: what regex::escape made of a single character
/// is a valid pattern far below the default size limit, so it compiles, and
/// the regex matches that character as a literal and nothing else.
#[verifier::external_body]
fn compile_literal(pattern: &str, literal: char) -> (r: Result<LiteralFilter, regex::Error>)
    requires
        pattern@ == regex_escaped(seq![literal]),
    ensures
        r is Ok,
        r is Ok ==> r->Ok_0.literal() == literal,
{
    match regex::Regex::new(pattern) {
        Ok(re) => Ok(LiteralFilter { re, literal }),
        Err(e) => Err(e),
    }
}

/// Relies on regex::Regex::replace_all with an empty replacement: every match
/// of the literal is deleted and the text between matches is kept in order.
#[verifier::external_body]
fn delete_matches(filter: &LiteralFilter, text: &str) -> (r: String)
    ensures
        r@ == delete_char(text@, filter.literal()),
{
    filter.re.replace_all(text, "").into_owned()
}

#[verifier::external_type_specification]
#[verifier::external_body]
pub struct ExRegex(regex::Regex);

#[verifier::external_type_specification]
#[verifier::external_body]
pub struct ExRegexError(regex::Error);

proof fn lemma_delete_marker_is_strip(s: Seq<char>)
    ensures
        delete_char(s, MARKER) == strip_marker(s),
    decreases s.len(),
{
    if s.len() > 0 {
        lemma_delete_marker_is_strip(s.drop_last());
    }
}

proof fn lemma_strip_never_grows(s: Seq<char>)
    ensures
        strip_marker(s).len() <= s.len(),
    decreases s.len(),
{
    if s.len() > 0 {
        lemma_strip_never_grows(s.drop_last());
    }
}

/// Removes every asterisk from `gen_input`, leaving all other characters
/// untouched and in their order.
pub fn remove_gen_waste(gen_input: &str) -> (cleaned: String)
    ensures
        cleaned@ == strip_marker(gen_input@),
        cleaned@.len() <= gen_input@.len(),
{
    let marker_text = "*";
    let pattern = escape_pattern(marker_text);
    proof {
        reveal_strlit("*");
        assert(marker_text@ =~= seq![MARKER]);
    }
    let filter = compile_literal(pattern.as_str(), MARKER).unwrap();
    proof {
        lemma_delete_marker_is_strip(gen_input@);
        lemma_strip_never_grows(gen_input@);
    }
    delete_matches(&filter, gen_input)
}

/// Nothing that `remove_gen_waste` returns holds an asterisk.
pub proof fn lemma_sanitize_removes_every_marker(t: Seq<char>)
    ensures
        !strip_marker(t).contains(MARKER),
    decreases t.len(),
{
    if t.len() > 0 {
        lemma_sanitize_removes_every_marker(t.drop_last());
        let rest = strip_marker(t.drop_last());
        if t.last() != MARKER {
            assert forall|i: int| 0 <= i < rest.push(t.last()).len() implies rest.push(t.last())[i]
                != MARKER by {
                if i < rest.len() {
                    assert(rest.push(t.last())[i] == rest[i]);
                }
            }
        }
    }
}

/// Text without an asterisk comes back from `remove_gen_waste` unchanged.
pub proof fn lemma_sanitize_keeps_clean_text(t: Seq<char>)
    requires
        !t.contains(MARKER),
    ensures
        strip_marker(t) == t,
    decreases t.len(),
{
    if t.len() > 0 {
        assert(t.last() == t[t.len() - 1]);
        assert forall|i: int| 0 <= i < t.drop_last().len() implies t.drop_last()[i] != MARKER by {
            assert(t.drop_last()[i] == t[i]);
        }
        lemma_sanitize_keeps_clean_text(t.drop_last());
        assert(t.drop_last().push(t.last()) =~= t);
    }
}

/// Cleaning text a second time changes nothing.
pub proof fn lemma_sanitize_idempotent(t: Seq<char>)
    ensures
        strip_marker(strip_marker(t)) == strip_marker(t),
{
    lemma_sanitize_removes_every_marker(t);
    lemma_sanitize_keeps_clean_text(strip_marker(t));
}

} // verus!

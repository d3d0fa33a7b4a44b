//! The metadata of the playground page: its title and a description taken
//! from the docstring of a shared snippet.
use vstd::prelude::*;
use vstd::string::*;

verus! {

/// The most characters of a docstring that a description keeps.
pub const DESCRIPTION_CHARS: usize = 60;

/// The quotes and line break that open a docstring.
pub open spec fn docstring_open() -> Seq<char> {
    seq!['"', '"', '"', '\n']
}

/// The line break and quotes that close a docstring.
pub open spec fn docstring_close() -> Seq<char> {
    seq!['\n', '"', '"', '"']
}

/// The number of characters of `s` before its first line break.
pub open spec fn line_len(s: Seq<char>) -> nat
    decreases s.len(),
{
    if s.len() == 0 || s[0] == '\n' {
        0
    } else {
        1 + line_len(s.drop_first())
    }
}

/// The docstring that text `t` opens with: a single line between a line of
/// three quotes and the next such line, cut to its first characters.
pub open spec fn docstring_of(t: Seq<char>) -> Option<Seq<char>> {
    if t.len() >= 4 && t.take(4) == docstring_open() {
        let body = t.skip(4);
        let k = line_len(body) as int;
        if k + 4 <= body.len() && body.subrange(k, k + 4) == docstring_close() {
            Some(body.take(if k < DESCRIPTION_CHARS { k } else { DESCRIPTION_CHARS as int }))
        } else {
            None
        }
    } else {
        None
    }
}

proof fn lemma_line_len(s: Seq<char>, i: int)
    requires
        0 <= i <= s.len(),
        forall|j: int| 0 <= j < i ==> s[j] != '\n',
        i < s.len() ==> s[i] == '\n',
    ensures
        line_len(s) == i,
    decreases i,
{
    if i > 0 {
        assert forall|j: int| 0 <= j < i - 1 implies s.drop_first()[j] != '\n' by {
            assert(s.drop_first()[j] == s[j + 1]);
        }
        lemma_line_len(s.drop_first(), i - 1);
    }
}

/// Whether `t` holds `pat` from character `at` on.
fn holds_at(t: &str, at: usize, pat: &[char]) -> (r: bool)
    requires
        at <= t@.len(),
    ensures
        r == (at + pat@.len() <= t@.len() && t@.subrange(at as int, at + pat@.len()) == pat@),
{
    let n = t.unicode_len();
    if pat.len() > n - at {
        return false;
    }
    let mut i: usize = 0;
    while i < pat.len()
        invariant
            n == t@.len(),
            at + pat@.len() <= n,
            i <= pat@.len(),
            forall|j: int| 0 <= j < i ==> t@[at + j] == pat@[j],
        decreases pat@.len() - i,
    {
        if t.get_char(at + i) != pat[i] {
            assert(t@.subrange(at as int, at + pat@.len())[i as int] != pat@[i as int]);
            return false;
        }
        i = i + 1;
    }
    assert(t@.subrange(at as int, at + pat@.len()) =~= pat@);
    true
}

/// The description that the docstring at the start of `text` gives, cut to
/// its first characters; none where `text` does not open with one.
pub fn extract_docstring(text: &str) -> (r: Option<String>)
    ensures
        r is Some <==> docstring_of(text@) is Some,
        r matches Some(d) ==> d@ == docstring_of(text@).unwrap(),
{
    let n = text.unicode_len();
    let open = ['"', '"', '"', '\n'];
    let close = ['\n', '"', '"', '"'];
    if !holds_at(text, 0, open.as_slice()) {
        proof {
            assert(open@ =~= docstring_open());
            if n >= 4 {
                assert(text@.take(4) =~= text@.subrange(0, 4));
            }
        }
        return None;
    }
    assert(open@ =~= docstring_open());
    assert(text@.take(4) =~= text@.subrange(0, 4));
    let ghost body = text@.skip(4);
    let mut e: usize = 4;
    while e < n && text.get_char(e) != '\n'
        invariant
            n == text@.len(),
            4 <= e <= n,
            body == text@.skip(4),
            forall|j: int| 0 <= j < e - 4 ==> body[j] != '\n',
        decreases n - e,
    {
        e = e + 1;
    }
    proof {
        lemma_line_len(body, e - 4);
    }
    if !holds_at(text, e, close.as_slice()) {
        proof {
            assert(close@ =~= docstring_close());
            if e + 4 <= n {
                assert(body.subrange(e - 4, e as int) =~= text@.subrange(e as int, e + 4));
            }
        }
        return None;
    }
    assert(close@ =~= docstring_close());
    assert(body.subrange(e - 4, e as int) =~= text@.subrange(e as int, e + 4));
    let k = e - 4;
    let keep = if k < DESCRIPTION_CHARS { k } else { DESCRIPTION_CHARS };
    let d = text.substring_char(4, 4 + keep);
    assert(d@ =~= body.take(keep as int));
    Some(String::from_str(d))
}

/// The metadata shown with the page: a title and a description.
pub struct Metadata {
    pub title: String,
    pub description: String,
}

impl Metadata {
    /// The metadata of the page without a snippet.
    pub fn defaults() -> (m: Metadata)
        ensures
            m.title@ == "Pony Playground"@,
            m.description@ == "Run ponylang code or compile it to ASM/LLVM IR"@,
    {
        Metadata {
            title: String::from_str("Pony Playground"),
            description: String::from_str("Run ponylang code or compile it to ASM/LLVM IR"),
        }
    }

    /// The metadata of the page that shows snippet `name`, whose text is
    /// `text`: titled after the snippet and described by its docstring, or
    /// by the default description where it has none.
    pub fn for_snippet(name: &str, text: &str) -> (m: Metadata)
        ensures
            m.title@ == name@,
            docstring_of(text@) matches Some(d) ==> m.description@ == d,
            docstring_of(text@) is None ==> m.description@
                == "Run ponylang code or compile it to ASM/LLVM IR"@,
    {
        let description = match extract_docstring(text) {
            Some(d) => d,
            None => String::from_str("Run ponylang code or compile it to ASM/LLVM IR"),
        };
        Metadata { title: String::from_str(name), description }
    }
}

} // verus!

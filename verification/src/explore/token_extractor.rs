//! Finds the access token in what a notebook server prints.

use vstd::prelude::*;

verus! {

/// Waits for the first token.
#[derive(Debug)]
pub struct TokenExtractor {
    waiting: bool,
}

pub open spec fn token_char(c: char) -> bool {
    ('a' <= c && c <= 'z') || ('0' <= c && c <= '9')
}

/// The number of token characters from the given position on.
pub open spec fn token_run(text: Seq<char>, from: int) -> nat
    decreases text.len() - from,
{
    if 0 <= from < text.len() && token_char(text[from]) {
        1 + token_run(text, from + 1)
    } else {
        0
    }
}

/// `token=` stands at the position, with a token behind it.
pub open spec fn token_at(text: Seq<char>, i: int) -> bool {
    &&& 0 <= i
    &&& i + 6 <= text.len()
    &&& text.subrange(i, i + 6) == "token="@
    &&& token_run(text, i + 6) > 0
}

/// The first token from the given position on: the longest run of lower case
/// letters and digits behind `token=`.
pub open spec fn token_from(text: Seq<char>, i: int) -> Option<Seq<char>>
    decreases text.len() - i,
{
    if i >= text.len() {
        None
    } else if token_at(text, i) {
        Some(text.subrange(i + 6, i + 6 + token_run(text, i + 6)))
    } else {
        token_from(text, i + 1)
    }
}

/// The first token in a text.
pub open spec fn token_in(text: Seq<char>) -> Option<Seq<char>> {
    token_from(text, 0)
}

/// What the first group of a pattern matches in a text.
///
/// Calls `regex::Regex::new`, `regex::Regex::captures` and `regex::Captures::get`.
/// Trusted, of the one pattern admitted: the leftmost match counts, its group is
/// the longest run of lower case letters and digits behind `token=`, and the
/// pattern compiles.
#[verifier::external_body]
pub(crate) fn first_capture(pattern: &str, text: &str) -> (r: Option<String>)
    requires
        pattern@ == "token=([a-z0-9]+)"@,
    ensures
        match r {
            Some(token) => token_in(text@) == Some(token@),
            None => token_in(text@) is None,
        },
{
    let re = regex::Regex::new(pattern).unwrap();
    let capture = re.captures(text)?;
    Some(capture.get(1).unwrap().as_str().to_owned())
}

impl TokenExtractor {
    /// No token has been reported yet.
    pub closed spec fn is_waiting(&self) -> bool {
        self.waiting
    }

    pub fn new() -> (r: Self)
        ensures
            r.is_waiting(),
    {
        TokenExtractor { waiting: true }
    }

    /// Reads a line, and reports a token if it is the first one.
    pub fn on_line(&mut self, line: &str) -> (r: Option<String>)
        ensures
            match r {
                Some(token) => old(self).is_waiting() && token_in(line@) == Some(token@),
                None => !old(self).is_waiting() || token_in(line@) is None,
            },
            final(self).is_waiting() == (old(self).is_waiting() && token_in(line@) is None),
            match r {
                Some(token) => reported(old(self).is_waiting(), seq![line@]) == seq![token@],
                None => reported(old(self).is_waiting(), seq![line@]).len() == 0,
            },
    {
        proof {
            assert(seq![line@].drop_last() == Seq::<Seq<char>>::empty());
            reveal_with_fuel(reported, 2);
        }
        match first_capture("token=([a-z0-9]+)", line) {
            Some(token) => {
                if self.waiting {
                    self.waiting = false;
                    Some(token)
                } else {
                    None
                }
            },
            None => None,
        }
    }
}

/// The tokens reported over a number of lines.
pub open spec fn reported(waiting: bool, lines: Seq<Seq<char>>) -> Seq<Seq<char>>
    decreases lines.len(),
{
    if lines.len() == 0 {
        Seq::empty()
    } else {
        let before = reported(waiting, lines.drop_last());
        match token_in(lines.last()) {
            Some(token) => if waiting && before.len() == 0 {
                before.push(token)
            } else {
                before
            },
            None => before,
        }
    }
}

/// However many lines hold a token, one token is reported, that of the first such
/// line; and none if no line holds one.
pub proof fn law_token_is_reported_once(lines: Seq<Seq<char>>)
    ensures
        reported(true, lines).len() <= 1,
        reported(true, lines).len() == 0 <==> forall|i: int|
            0 <= i < lines.len() ==> token_in(#[trigger] lines[i]) is None,
        forall|i: int|
            0 <= i < lines.len() && token_in(#[trigger] lines[i]) is Some && (forall|j: int|
                0 <= j < i ==> token_in(#[trigger] lines[j]) is None) ==> reported(true, lines)
                == seq![token_in(lines[i])->0],
    decreases lines.len(),
{
    if lines.len() > 0 {
        let init = lines.drop_last();
        law_token_is_reported_once(init);
        assert forall|i: int| 0 <= i < init.len() implies init[i] == lines[i] by {}
        let n = lines.len() - 1;
        assert(lines[n] == lines.last());
        if reported(true, lines).len() == 0 {
            assert forall|i: int| 0 <= i < lines.len() implies token_in(#[trigger] lines[i]) is None by {
                if i < n {
                    assert(init[i] == lines[i]);
                }
            }
        }
        if forall|i: int| 0 <= i < lines.len() ==> token_in(#[trigger] lines[i]) is None {
            assert forall|i: int| 0 <= i < init.len() implies token_in(#[trigger] init[i]) is None by {
                assert(init[i] == lines[i]);
            }
        }
        assert forall|i: int|
            0 <= i < lines.len() && token_in(#[trigger] lines[i]) is Some && (forall|j: int|
                0 <= j < i ==> token_in(#[trigger] lines[j]) is None) implies reported(true, lines)
            == seq![token_in(lines[i])->0] by {
            if i < n {
                assert(init[i] == lines[i]);
                assert forall|j: int| 0 <= j < i implies token_in(#[trigger] init[j]) is None by {
                    assert(init[j] == lines[j]);
                }
                assert(reported(true, init) == seq![token_in(init[i])->0]);
            } else {
                assert forall|j: int| 0 <= j < init.len() implies token_in(#[trigger] init[j]) is None by {
                    assert(init[j] == lines[j]);
                }
                assert(reported(true, init).len() == 0);
                assert(reported(true, lines) =~= seq![token_in(lines[i])->0]);
            }
        }
    }
}

/// A token is the longest run of lower case letters and digits behind `token=`, at the first
/// place where one stands; there is none if there is no such place.
pub proof fn law_what_a_token_is(text: Seq<char>, i: int, n: int)
    requires
        0 <= i,
        0 < n,
        i + 6 + n <= text.len(),
        text.subrange(i, i + 6) == "token="@,
        forall|j: int|
            i + 6 <= j < i + 6 + n ==> ('a' <= #[trigger] text[j] <= 'z' || '0' <= text[j] <= '9'),
        i + 6 + n < text.len() ==> !('a' <= text[i + 6 + n] <= 'z' || '0' <= text[i + 6 + n]
            <= '9'),
        forall|k: int|
            0 <= k < i ==> !(text.subrange(k, k + 6) == "token="@ && token_char(
                #[trigger] text[k + 6],
            )),
    ensures
        token_in(text) == Some(text.subrange(i + 6, i + 6 + n)),
{
    lemma_token_run(text, i + 6, n);
    lemma_token_from(text, 0, i);
}

proof fn lemma_token_run(text: Seq<char>, from: int, n: int)
    requires
        0 <= from,
        0 <= n,
        from + n <= text.len(),
        forall|j: int|
            from <= j < from + n ==> ('a' <= #[trigger] text[j] <= 'z' || '0' <= text[j] <= '9'),
        from + n < text.len() ==> !('a' <= text[from + n] <= 'z' || '0' <= text[from + n] <= '9'),
    ensures
        token_run(text, from) == n,
    decreases n,
{
    if n > 0 {
        assert('a' <= text[from] <= 'z' || '0' <= text[from] <= '9');
        lemma_token_run(text, from + 1, n - 1);
    }
}

proof fn lemma_token_from(text: Seq<char>, k: int, i: int)
    requires
        0 <= k <= i,
        token_at(text, i),
        forall|j: int|
            0 <= j < i ==> !(text.subrange(j, j + 6) == "token="@ && token_char(
                #[trigger] text[j + 6],
            )),
    ensures
        token_from(text, k) == Some(text.subrange(i + 6, i + 6 + token_run(text, i + 6))),
    decreases i - k,
{
    if k < i {
        assert(!token_at(text, k)) by {
            if token_at(text, k) {
                assert(token_char(text[k + 6]));
            }
        }
        lemma_token_from(text, k + 1, i);
    }
}

/// Without `token=` in front of a lower case letter or a digit there is no token.
pub proof fn law_no_token(text: Seq<char>)
    requires
        forall|k: int|
            0 <= k && k + 6 < text.len() ==> !(text.subrange(k, k + 6) == "token="@ && ('a'
                <= #[trigger] text[k + 6] <= 'z' || '0' <= text[k + 6] <= '9')),
    ensures
        token_in(text) is None,
{
    lemma_no_token(text, 0);
}

proof fn lemma_no_token(text: Seq<char>, k: int)
    requires
        0 <= k,
        forall|k: int|
            0 <= k && k + 6 < text.len() ==> !(text.subrange(k, k + 6) == "token="@ && ('a'
                <= #[trigger] text[k + 6] <= 'z' || '0' <= text[k + 6] <= '9')),
    ensures
        token_from(text, k) is None,
    decreases text.len() - k,
{
    if k < text.len() {
        assert(!token_at(text, k)) by {
            if token_at(text, k) {
                assert(token_char(text[k + 6]));
            }
        }
        lemma_no_token(text, k + 1);
    }
}

} // verus!

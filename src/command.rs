//! Turns the text of a pull-request comment into at most one bot command.
//!
//! A command is the first mention of the bot (a case-sensitive prefix such
//! as `@bors`) followed by whitespace and a keyword that ends at whitespace
//! or at the end of the text. Text without a mention, or with an unknown
//! keyword after the first mention, holds no command.
use vstd::prelude::*;

verus! {

/// A command addressed to the bot.
#[derive(Clone, Copy, Debug, PartialEq, Eq, Structural)]
pub enum BorsCommand {
    /// `ping`: the bot answers with a comment.
    Ping,
    /// `r+`: approve the pull request in the name of the commenter.
    Approve,
    /// `r-`: withdraw the approval.
    Unapprove,
    /// `try`: ask for a speculative build.
    Try,
}

/// The characters that separate words.
pub open spec fn is_space(c: char) -> bool {
    c == ' ' || c == '\n' || c == '\t' || c == '\r'
}

/// The first position at or after `from` where `prefix` occurs in `s`.
pub open spec fn find_prefix(s: Seq<char>, prefix: Seq<char>, from: int) -> Option<int>
    decreases s.len() + 1 - from,
{
    if from < 0 || from + prefix.len() > s.len() {
        None
    } else if s.subrange(from, from + prefix.len()) == prefix {
        Some(from)
    } else {
        find_prefix(s, prefix, from + 1)
    }
}

/// A position that `find_prefix` returns holds the prefix.
pub proof fn lemma_find_prefix(s: Seq<char>, prefix: Seq<char>, from: int)
    ensures
        find_prefix(s, prefix, from) matches Some(i) ==> from <= i && i + prefix.len() <= s.len()
            && s.subrange(i, i + prefix.len()) == prefix,
    decreases s.len() + 1 - from,
{
    if from < 0 || from + prefix.len() > s.len() {
    } else if s.subrange(from, from + prefix.len()) == prefix {
    } else {
        lemma_find_prefix(s, prefix, from + 1);
    }
}

/// The first position at or after `i` that does not hold a space.
pub open spec fn skip_spaces(s: Seq<char>, i: int) -> int
    decreases s.len() - i,
{
    if 0 <= i < s.len() && is_space(s[i]) {
        skip_spaces(s, i + 1)
    } else {
        i
    }
}

/// The first position at or after `i` that holds a space, or the end.
pub open spec fn word_end(s: Seq<char>, i: int) -> int
    decreases s.len() - i,
{
    if 0 <= i < s.len() && !is_space(s[i]) {
        word_end(s, i + 1)
    } else {
        i
    }
}

/// The command that a keyword names.
pub open spec fn keyword(w: Seq<char>) -> Option<BorsCommand> {
    if w == seq!['p', 'i', 'n', 'g'] {
        Some(BorsCommand::Ping)
    } else if w == seq!['r', '+'] {
        Some(BorsCommand::Approve)
    } else if w == seq!['r', '-'] {
        Some(BorsCommand::Unapprove)
    } else if w == seq!['t', 'r', 'y'] {
        Some(BorsCommand::Try)
    } else {
        None
    }
}

/// The command that a comment holds, if any.
pub open spec fn parsed_command(s: Seq<char>, prefix: Seq<char>) -> Option<BorsCommand> {
    match find_prefix(s, prefix, 0) {
        None => None,
        Some(i) => {
            let j = i + prefix.len();
            if j < s.len() && is_space(s[j]) {
                let k = skip_spaces(s, j);
                keyword(s.subrange(k, word_end(s, k)))
            } else {
                None
            }
        },
    }
}

fn is_space_char(c: char) -> (r: bool)
    ensures
        r == is_space(c),
{
    c == ' ' || c == '\n' || c == '\t' || c == '\r'
}

/// Whether `prefix` occurs in `text` at position `at`.
fn occurs_at(text: &str, prefix: &str, at: usize) -> (r: bool)
    requires
        at + prefix@.len() <= text@.len(),
    ensures
        r == (text@.subrange(at as int, at + prefix@.len()) == prefix@),
{
    let n = prefix.unicode_len();
    let tl = text.unicode_len();
    let mut k: usize = 0;
    while k < n
        invariant
            n == prefix@.len(),
            tl == text@.len(),
            at + n <= text@.len(),
            k <= n,
            forall|m: int| 0 <= m < k ==> text@[at + m] == prefix@[m],
        decreases n - k,
    {
        if text.get_char(at + k) != prefix.get_char(k) {
            assert(text@.subrange(at as int, at + n)[k as int] != prefix@[k as int]);
            return false;
        }
        k += 1;
    }
    assert(text@.subrange(at as int, at + n) =~= prefix@);
    true
}

/// The first position where `prefix` occurs in `text`.
fn find_mention(text: &str, prefix: &str) -> (r: Option<usize>)
    ensures
        match r {
            Some(i) => find_prefix(text@, prefix@, 0) == Some(i as int),
            None => find_prefix(text@, prefix@, 0) is None,
        },
{
    let len = text.unicode_len();
    let plen = prefix.unicode_len();
    if plen > len {
        return None;
    }
    let mut i: usize = 0;
    while i <= len - plen
        invariant
            len == text@.len(),
            plen == prefix@.len(),
            plen <= len,
            i <= len - plen,
            find_prefix(text@, prefix@, 0) == find_prefix(text@, prefix@, i as int),
        decreases len - plen - i,
    {
        if occurs_at(text, prefix, i) {
            return Some(i);
        }
        if i == len - plen {
            assert(find_prefix(text@, prefix@, i + 1) is None);
            return None;
        }
        i += 1;
    }
    None
}

/// The first position at or after `i` that does not hold a space.
fn skip_spaces_from(text: &str, i: usize) -> (r: usize)
    requires
        i <= text@.len(),
    ensures
        r == skip_spaces(text@, i as int),
        i <= r <= text@.len(),
{
    let len = text.unicode_len();
    let mut j: usize = i;
    while j < len && is_space_char(text.get_char(j))
        invariant
            len == text@.len(),
            i <= j <= len,
            skip_spaces(text@, i as int) == skip_spaces(text@, j as int),
        decreases len - j,
    {
        j += 1;
    }
    j
}

/// The first position at or after `i` that holds a space, or the end.
fn word_end_from(text: &str, i: usize) -> (r: usize)
    requires
        i <= text@.len(),
    ensures
        r == word_end(text@, i as int),
        i <= r <= text@.len(),
{
    let len = text.unicode_len();
    let mut j: usize = i;
    while j < len && !is_space_char(text.get_char(j))
        invariant
            len == text@.len(),
            i <= j <= len,
            word_end(text@, i as int) == word_end(text@, j as int),
        decreases len - j,
    {
        j += 1;
    }
    j
}

/// The command named by the word `text[k..e]`.
fn keyword_at(text: &str, k: usize, e: usize) -> (r: Option<BorsCommand>)
    requires
        k <= e <= text@.len(),
    ensures
        r == keyword(text@.subrange(k as int, e as int)),
{
    let ghost w = text@.subrange(k as int, e as int);
    let n = e - k;
    let c0 = if n > 0 { text.get_char(k) } else { ' ' };
    let c1 = if n > 1 { text.get_char(k + 1) } else { ' ' };
    let c2 = if n > 2 { text.get_char(k + 2) } else { ' ' };
    let c3 = if n > 3 { text.get_char(k + 3) } else { ' ' };
    assert(n > 0 ==> w[0] == c0);
    assert(n > 1 ==> w[1] == c1);
    assert(n > 2 ==> w[2] == c2);
    assert(n > 3 ==> w[3] == c3);
    let ghost ping = seq!['p', 'i', 'n', 'g'];
    let ghost approve = seq!['r', '+'];
    let ghost unapprove = seq!['r', '-'];
    let ghost try_kw = seq!['t', 'r', 'y'];
    assert(ping.len() == 4 && ping[0] == 'p' && ping[1] == 'i' && ping[2] == 'n' && ping[3] == 'g');
    assert(approve.len() == 2 && approve[0] == 'r' && approve[1] == '+');
    assert(unapprove.len() == 2 && unapprove[0] == 'r' && unapprove[1] == '-');
    assert(try_kw.len() == 3 && try_kw[0] == 't' && try_kw[1] == 'r' && try_kw[2] == 'y');
    if n == 4 && c0 == 'p' && c1 == 'i' && c2 == 'n' && c3 == 'g' {
        assert(w =~= ping);
        Some(BorsCommand::Ping)
    } else if n == 2 && c0 == 'r' && c1 == '+' {
        assert(w =~= approve);
        Some(BorsCommand::Approve)
    } else if n == 2 && c0 == 'r' && c1 == '-' {
        assert(w =~= unapprove);
        Some(BorsCommand::Unapprove)
    } else if n == 3 && c0 == 't' && c1 == 'r' && c2 == 'y' {
        assert(w =~= try_kw);
        Some(BorsCommand::Try)
    } else {
        None
    }
}

/// Parses the command of a comment: the keyword after the first mention of
/// `prefix`, or `None` where there is no mention or no known keyword.
pub fn parse_command(text: &str, prefix: &str) -> (r: Option<BorsCommand>)
    ensures
        r == parsed_command(text@, prefix@),
{
    match find_mention(text, prefix) {
        None => None,
        Some(i) => {
            let len = text.unicode_len();
            let plen = prefix.unicode_len();
            proof {
                lemma_find_prefix(text@, prefix@, 0);
            }
            let j = i + plen;
            if j < len && is_space_char(text.get_char(j)) {
                let k = skip_spaces_from(text, j);
                let e = word_end_from(text, k);
                keyword_at(text, k, e)
            } else {
                None
            }
        },
    }
}

} // verus!

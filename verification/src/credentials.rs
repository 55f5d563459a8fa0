//! The tokens that open the relay, read once from one line of configuration.

use crate::text::{chars_of, same_text};
use vstd::prelude::*;
use vstd::string::*;

verus! {

/// Whether `c` is white space in the sense of `char::is_whitespace`: whether
/// Unicode marks it as White_Space.
pub uninterp spec fn white_space(c: char) -> bool;

/// Trusted: `char::is_whitespace` of the standard library, which depends on
/// the character alone.
#[verifier::external_body]
fn is_white_space(c: char) -> (yes: bool)
    ensures
        yes == white_space(c),
{
    c.is_whitespace()
}

/// The index of the first space in `s`, or the length of `s` if it has none.
pub open spec fn first_space(s: Seq<char>) -> int
    decreases s.len(),
{
    if s.len() == 0 || s[0] == ' ' {
        0
    } else {
        1 + first_space(s.skip(1))
    }
}

/// The pieces into which single spaces part `s`: one more than `s` has
/// spaces, some of them perhaps empty, in the order of `s`.
pub open spec fn pieces_of(s: Seq<char>) -> Seq<Seq<char>>
    decreases s.len(),
{
    let k = first_space(s);
    if 0 <= k < s.len() {
        seq![s.take(k)] + pieces_of(s.skip(k + 1))
    } else {
        seq![s]
    }
}

/// `s` without the white space it begins with.
pub open spec fn trim_start(s: Seq<char>) -> Seq<char>
    decreases s.len(),
{
    if s.len() > 0 && white_space(s.first()) {
        trim_start(s.drop_first())
    } else {
        s
    }
}

/// `s` without the white space it ends with.
pub open spec fn trim_end(s: Seq<char>) -> Seq<char>
    decreases s.len(),
{
    if s.len() > 0 && white_space(s.last()) {
        trim_end(s.drop_last())
    } else {
        s
    }
}

/// `s` without the white space at either end.
pub open spec fn trim(s: Seq<char>) -> Seq<char> {
    trim_end(trim_start(s))
}

/// Each of `pieces`, trimmed.
pub open spec fn trimmed(pieces: Seq<Seq<char>>) -> Seq<Seq<char>> {
    pieces.map_values(|piece: Seq<char>| trim(piece))
}

/// What tells the pieces that are kept from those that are dropped: a piece
/// is kept unless it is empty.
pub open spec fn kept() -> spec_fn(Seq<char>) -> bool {
    |piece: Seq<char>| piece.len() > 0
}

/// Those of `pieces` that are not empty.
pub open spec fn non_empty(pieces: Seq<Seq<char>>) -> Seq<Seq<char>> {
    pieces.filter(kept())
}

/// The tokens that a line of configuration holds: the pieces between its
/// spaces, each trimmed, without those that are then empty.
pub open spec fn tokens_of(config: Seq<char>) -> Seq<Seq<char>> {
    non_empty(trimmed(pieces_of(config)))
}

/// What a token of the set looks like: it is not empty and holds no space.
pub open spec fn valid_token(token: Seq<char>) -> bool {
    &&& token.len() > 0
    &&& !token.contains(' ')
}

/// Every one of `tokens` is a valid token.
pub open spec fn valid_tokens(tokens: Seq<Seq<char>>) -> bool {
    forall|i: int| 0 <= i < tokens.len() ==> valid_token(#[trigger] tokens[i])
}

/// The texts of a list of strings.
pub open spec fn texts(strings: Seq<String>) -> Seq<Seq<char>> {
    strings.map_values(|s: String| s@)
}

/// `part` is an unbroken part of `s` that, unless it is empty, neither
/// begins nor ends with white space.
pub open spec fn trimmed_part(s: Seq<char>, part: Seq<char>) -> bool {
    exists|a: int, b: int|
        {
            &&& 0 <= a <= b <= s.len()
            &&& part == #[trigger] s.subrange(a, b)
            &&& a < b ==> !white_space(s[a]) && !white_space(s[b - 1])
        }
}

/// `token` is a trimmed part of one of `pieces`.
pub open spec fn trimmed_from(pieces: Seq<Seq<char>>, token: Seq<char>) -> bool {
    exists|j: int| 0 <= j < pieces.len() && trimmed_part(#[trigger] pieces[j], token)
}

/// The first space of `s` is at `k` if no space comes before `k` and `k` is
/// a space or the end.
proof fn first_space_found(s: Seq<char>, k: int)
    requires
        0 <= k <= s.len(),
        forall|j: int| 0 <= j < k ==> s[j] != ' ',
        k == s.len() || s[k] == ' ',
    ensures
        first_space(s) == k,
    decreases k,
{
    if k > 0 {
        let rest = s.skip(1);
        assert forall|j: int| 0 <= j < k - 1 implies rest[j] != ' ' by {
            assert(rest[j] == s[j + 1]);
        }
        first_space_found(rest, k - 1);
    }
}

/// The first space lies within the sequence or at its end, no space comes
/// before it, and it is a space unless it is the end.
proof fn first_space_bounds(s: Seq<char>)
    ensures
        0 <= first_space(s) <= s.len(),
        forall|j: int| 0 <= j < first_space(s) ==> s[j] != ' ',
        first_space(s) == s.len() || s[first_space(s)] == ' ',
    decreases s.len(),
{
    if s.len() == 0 || s[0] == ' ' {
    } else {
        let rest = s.skip(1);
        first_space_bounds(rest);
        assert forall|j: int| 0 <= j < first_space(s) implies s[j] != ' ' by {
            if j > 0 {
                assert(s[j] == rest[j - 1]);
            }
        }
    }
}

/// No piece holds a space.
pub proof fn pieces_hold_no_space(s: Seq<char>)
    ensures
        forall|i: int| 0 <= i < pieces_of(s).len() ==> !(#[trigger] pieces_of(s)[i]).contains(' '),
    decreases s.len(),
{
    let k = first_space(s);
    first_space_bounds(s);
    if 0 <= k < s.len() {
        let rest = pieces_of(s.skip(k + 1));
        pieces_hold_no_space(s.skip(k + 1));
        assert forall|i: int| 0 <= i < pieces_of(s).len() implies !(#[trigger] pieces_of(
            s,
        )[i]).contains(' ') by {
            if i > 0 {
                assert(pieces_of(s)[i] == rest[i - 1]);
            }
        }
    }
}

/// Of a list of pieces with one more piece at its end, those are kept that
/// are kept of the list, and the one more piece unless it is empty.
proof fn non_empty_push(pieces: Seq<Seq<char>>, piece: Seq<char>)
    ensures
        non_empty(pieces.push(piece)) == if piece.len() > 0 {
            non_empty(pieces).push(piece)
        } else {
            non_empty(pieces)
        },
{
    pieces.lemma_filter_push(piece, kept());
}

/// What is left after trimming the start is a tail of the sequence that does
/// not begin with white space.
proof fn trim_start_is_tail(s: Seq<char>) -> (a: int)
    ensures
        0 <= a <= s.len(),
        trim_start(s) == s.subrange(a, s.len() as int),
        a < s.len() ==> !white_space(s[a]),
    decreases s.len(),
{
    if s.len() > 0 && white_space(s.first()) {
        let rest = s.drop_first();
        let a = trim_start_is_tail(rest);
        assert(rest.subrange(a, rest.len() as int) =~= s.subrange(a + 1, s.len() as int));
        a + 1
    } else {
        assert(s.subrange(0, s.len() as int) =~= s);
        0
    }
}

/// Trimming the end of the part of `s` from `a` to `b` leaves a part that
/// begins at `a` too and does not end with white space.
proof fn trim_end_is_head(s: Seq<char>, a: int, b: int) -> (end: int)
    requires
        0 <= a <= b <= s.len(),
    ensures
        a <= end <= b,
        trim_end(s.subrange(a, b)) == s.subrange(a, end),
        a < end ==> !white_space(s[end - 1]),
    decreases b - a,
{
    let part = s.subrange(a, b);
    if part.len() > 0 && white_space(part.last()) {
        assert(part.drop_last() =~= s.subrange(a, b - 1));
        trim_end_is_head(s, a, b - 1)
    } else {
        b
    }
}

/// What is left of a sequence after trimming is a trimmed part of it.
pub proof fn trim_is_part(s: Seq<char>)
    ensures
        trimmed_part(s, trim(s)),
{
    let a = trim_start_is_tail(s);
    let b = trim_end_is_head(s, a, s.len() as int);
    assert(trim(s) == s.subrange(a, b));
}

/// Every token of a line is a trimmed part of one of its pieces, and so a
/// valid token.
pub proof fn tokens_of_valid(config: Seq<char>)
    ensures
        valid_tokens(tokens_of(config)),
        forall|i: int|
            0 <= i < tokens_of(config).len() ==> trimmed_from(
                pieces_of(config),
                #[trigger] tokens_of(config)[i],
            ),
{
    let pieces = pieces_of(config);
    let tokens = tokens_of(config);
    pieces_hold_no_space(config);
    assert forall|i: int| 0 <= i < tokens.len() implies valid_token(#[trigger] tokens[i])
        && trimmed_from(pieces, tokens[i]) by {
        let token = tokens[i];
        trimmed(pieces).lemma_filter_pred(kept(), i);
        assert(tokens.contains(token));
        trimmed(pieces).lemma_filter_contains_rev(kept(), token);
        let j = choose|j: int| 0 <= j < trimmed(pieces).len() && trimmed(pieces)[j] == token;
        trim_is_part(pieces[j]);
        let (a, b) = choose|a: int, b: int|
            {
                &&& 0 <= a <= b <= pieces[j].len()
                &&& token == #[trigger] pieces[j].subrange(a, b)
                &&& a < b ==> !white_space(pieces[j][a]) && !white_space(pieces[j][b - 1])
            };
        if token.contains(' ') {
            let at = choose|at: int| 0 <= at < token.len() && token[at] == ' ';
            assert(pieces[j][a + at] == ' ');
            assert(pieces[j].contains(' '));
        }
    }
}

/// Parts a line at its spaces.
pub fn split_spaces(line: &str) -> (pieces: Vec<String>)
    ensures
        texts(pieces@) == pieces_of(line@),
{
    let chars = chars_of(line);
    let n = chars.len();
    let mut pieces: Vec<String> = Vec::new();
    let mut start: usize = 0;
    assert(line@.skip(0) =~= line@);
    assert(texts(pieces@) + pieces_of(line@) =~= pieces_of(line@));
    loop
        invariant_except_break
            start <= n,
            pieces_of(line@) == texts(pieces@) + pieces_of(line@.skip(start as int)),
        invariant
            chars@ == line@,
            n == chars.len(),
        ensures
            pieces_of(line@) == texts(pieces@),
        decreases n - start,
    {
        let ghost rest = line@.skip(start as int);
        let ghost before = texts(pieces@);
        let mut end = start;
        while end < n && chars[end] != ' '
            invariant
                start <= end <= n,
                n == chars.len(),
                forall|j: int| start <= j < end ==> chars@[j] != ' ',
            decreases n - end,
        {
            end += 1;
        }
        pieces.push(String::from_str(line.substring_char(start, end)));
        proof {
            assert forall|j: int| 0 <= j < end - start implies rest[j] != ' ' by {
                assert(rest[j] == chars@[start + j]);
            }
            first_space_found(rest, end - start);
            assert(rest.take(end - start) =~= line@.subrange(start as int, end as int));
            assert(texts(pieces@) =~= before.push(line@.subrange(start as int, end as int)));
        }
        if end == n {
            assert(rest =~= line@.subrange(start as int, end as int));
            assert(texts(pieces@) =~= before + pieces_of(rest));
            break ;
        }
        proof {
            assert(rest.skip(end - start + 1) =~= line@.skip(end + 1));
            assert(texts(pieces@) + pieces_of(line@.skip(end + 1)) =~= before + pieces_of(rest));
        }
        start = end + 1;
    }
    pieces
}

/// The part of `s` that is left when the white space at either end is taken
/// away.
pub fn trim_text(s: &str) -> (part: &str)
    ensures
        part@ == trim(s@),
{
    let chars = chars_of(s);
    let n = chars.len();
    let mut a: usize = 0;
    assert(s@.subrange(0, n as int) =~= s@);
    while a < n && is_white_space(chars[a])
        invariant
            a <= n,
            n == chars.len(),
            chars@ == s@,
            trim_start(s@) == trim_start(s@.subrange(a as int, n as int)),
        decreases n - a,
    {
        assert(s@.subrange(a as int, n as int).drop_first() =~= s@.subrange(a + 1, n as int));
        a += 1;
    }
    let mut b = n;
    while b > a && is_white_space(chars[b - 1])
        invariant
            a <= b <= n,
            n == chars.len(),
            chars@ == s@,
            trim_end(s@.subrange(a as int, n as int)) == trim_end(s@.subrange(a as int, b as int)),
        decreases b - a,
    {
        assert(s@.subrange(a as int, b as int).drop_last() =~= s@.subrange(a as int, b - 1));
        b -= 1;
    }
    s.substring_char(a, b)
}

/// Whether `token` is a valid token.
fn well_formed_token(token: &str) -> (valid: bool)
    ensures
        valid == valid_token(token@),
{
    let chars = chars_of(token);
    if chars.len() == 0 {
        return false;
    }
    let mut i: usize = 0;
    while i < chars.len()
        invariant
            i <= chars.len(),
            chars@ == token@,
            forall|k: int| 0 <= k < i ==> chars@[k] != ' ',
        decreases chars.len() - i,
    {
        if chars[i] == ' ' {
            return false;
        }
        i += 1;
    }
    true
}

/// The set of tokens that open the relay, in the order in which the
/// configuration names them. Every token is a valid token.
#[derive(Debug)]
pub struct CredentialSet {
    tokens: Vec<String>,
}

impl View for CredentialSet {
    type V = Seq<Seq<char>>;

    closed spec fn view(&self) -> Seq<Seq<char>> {
        texts(self.tokens@)
    }
}

impl CredentialSet {
    #[verifier::type_invariant]
    spec fn well_formed(self) -> bool {
        valid_tokens(texts(self.tokens@))
    }

    /// Reads the set from a line of configuration.
    pub fn parse(config: &str) -> (set: CredentialSet)
        ensures
            set@ == tokens_of(config@),
            valid_tokens(set@),
    {
        let pieces = split_spaces(config);
        let mut tokens: Vec<String> = Vec::new();
        let mut i: usize = 0;
        assert(trimmed(texts(pieces@).take(0)) =~= Seq::<Seq<char>>::empty());
        assert(texts(tokens@) =~= non_empty(trimmed(texts(pieces@).take(0)))) by {
            reveal(Seq::filter);
        }
        while i < pieces.len()
            invariant
                i <= pieces.len(),
                texts(tokens@) == non_empty(trimmed(texts(pieces@).take(i as int))),
            decreases pieces.len() - i,
        {
            let ghost before = texts(tokens@);
            let ghost seen = trimmed(texts(pieces@).take(i as int));
            let token = trim_text(pieces[i].as_str());
            proof {
                assert(trimmed(texts(pieces@).take(i + 1)) =~= seen.push(token@));
                non_empty_push(seen, token@);
            }
            if !token.is_empty() {
                tokens.push(String::from_str(token));
                assert(texts(tokens@) =~= before.push(token@));
            }
            i += 1;
        }
        proof {
            assert(texts(pieces@).take(pieces.len() as int) =~= texts(pieces@));
            tokens_of_valid(config@);
        }
        CredentialSet { tokens }
    }

    /// The set of the tokens `tokens`, in their order, if every one of them
    /// is a valid token.
    pub fn from_tokens(tokens: Vec<String>) -> (set: Option<CredentialSet>)
        ensures
            set is Some <==> valid_tokens(texts(tokens@)),
            set matches Some(s) ==> s@ == texts(tokens@),
    {
        let mut i: usize = 0;
        while i < tokens.len()
            invariant
                i <= tokens.len(),
                forall|k: int| 0 <= k < i ==> valid_token(#[trigger] texts(tokens@)[k]),
            decreases tokens.len() - i,
        {
            if !well_formed_token(tokens[i].as_str()) {
                assert(!valid_token(texts(tokens@)[i as int]));
                return None;
            }
            i += 1;
        }
        Some(CredentialSet { tokens })
    }

    /// How many tokens the set holds, every one of them a valid token.
    pub fn len(&self) -> (n: usize)
        ensures
            n == self@.len(),
            valid_tokens(self@),
    {
        proof {
            use_type_invariant(self);
        }
        self.tokens.len()
    }

    /// The token at place `i`, counted from 0.
    pub fn token(&self, i: usize) -> (token: Option<&str>)
        ensures
            token is Some <==> i < self@.len(),
            token matches Some(t) ==> t@ == self@[i as int],
    {
        if i < self.tokens.len() {
            Some(self.tokens[i].as_str())
        } else {
            None
        }
    }
}

/// Whether `token` is one of the tokens of `credentials`: whether it equals
/// one of them character for character.
pub fn is_valid_token(credentials: &CredentialSet, token: &str) -> (valid: bool)
    ensures
        valid == credentials@.contains(token@),
{
    let mut i: usize = 0;
    while i < credentials.tokens.len()
        invariant
            i <= credentials.tokens.len(),
            forall|k: int| 0 <= k < i ==> credentials@[k] != token@,
        decreases credentials.tokens.len() - i,
    {
        if same_text(credentials.tokens[i].as_str(), token) {
            assert(credentials@[i as int] == token@);
            return true;
        }
        i += 1;
    }
    false
}

} // verus!

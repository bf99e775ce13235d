//! Route patterns: literal text, named variables (`:name`), single-segment
//! wildcards (`*`) and multi-segment wildcards (`**`), compiled to an anchored
//! regular expression.
use vstd::prelude::*;
use vstd::string::StrSliceExecFns;
use vstd::string::StringExecFns;
use crate::matcher::{Matcher, regex_compiles};
use crate::text::chars_of;

verus! {

/// Matches the characters allowed within one path segment.
pub const SEGMENT_CHARS: &'static str = "[,a-zA-Z0-9_-]*";

/// Matches the characters allowed across path segments.
pub const PATH_CHARS: &'static str = "[,/a-zA-Z0-9_-]*";

/// Captures the characters allowed within one path segment.
pub const SEGMENT_CAPTURE: &'static str = "([,a-zA-Z0-9_-]*)";

/// Matches any number of whole path segments, none included, each with its
/// leading slash.
pub const OPTIONAL_SEGMENTS: &'static str = "(?:/[,/a-zA-Z0-9_-]*)?";

/// Matches an optional query string: a `?` and whatever follows it.
pub const QUERY_SUFFIX: &'static str = "(?:\\?.*)?";

/// One unit of a route pattern.
pub enum Token {
    Literal(char),
    /// `*`
    AnySegment,
    /// `**`
    AnyPath,
    /// `/**`: zero or more whole segments
    AnySegments,
    /// `:name`
    Variable(Seq<char>),
}

/// The characters that may follow `:` in a variable name.
pub open spec fn is_name_char(c: char) -> bool {
    c == ',' || ('a' <= c && c <= 'z') || ('A' <= c && c <= 'Z') || ('0' <= c && c <= '9') || c
        == '_' || c == '-'
}

/// The end of the run of name characters in `p` that starts at `j`.
pub open spec fn name_end(p: Seq<char>, j: int) -> int
    decreases p.len() - j,
{
    if 0 <= j < p.len() && is_name_char(p[j]) {
        name_end(p, j + 1)
    } else {
        j
    }
}

/// Whether a `/**` segment starts at `i`.
pub open spec fn segments_at(p: Seq<char>, i: int) -> bool {
    i + 2 < p.len() && p[i] == '/' && p[i + 1] == '*' && p[i + 2] == '*'
}

/// Where the token that starts at `i` ends. `/**` is recognised before `**`,
/// and `**` before `*`.
pub open spec fn token_end(p: Seq<char>, i: int) -> int {
    if segments_at(p, i) {
        i + 3
    } else if i + 1 < p.len() && p[i] == '*' && p[i + 1] == '*' {
        i + 2
    } else if p[i] == ':' {
        name_end(p, i + 1)
    } else {
        i + 1
    }
}

/// The token that starts at `i`.
pub open spec fn token_at(p: Seq<char>, i: int) -> Token {
    if segments_at(p, i) {
        Token::AnySegments
    } else if i + 1 < p.len() && p[i] == '*' && p[i + 1] == '*' {
        Token::AnyPath
    } else if p[i] == '*' {
        Token::AnySegment
    } else if p[i] == ':' {
        Token::Variable(p.subrange(i + 1, name_end(p, i + 1)))
    } else {
        Token::Literal(p[i])
    }
}

/// A run of name characters ends within the pattern, not before it starts.
pub proof fn lemma_name_end_bounds(p: Seq<char>, j: int)
    requires
        0 <= j <= p.len(),
    ensures
        j <= name_end(p, j) <= p.len(),
    decreases p.len() - j,
{
    if j < p.len() && is_name_char(p[j]) {
        lemma_name_end_bounds(p, j + 1);
    }
}

/// Every token is at least one character long and ends within the pattern.
pub proof fn lemma_token_end_bounds(p: Seq<char>, i: int)
    requires
        0 <= i < p.len(),
    ensures
        i < token_end(p, i) <= p.len(),
{
    lemma_name_end_bounds(p, i + 1);
}

/// The tokens of `p` from position `i` on, read left to right.
pub open spec fn tokens_from(p: Seq<char>, i: int) -> Seq<Token>
    decreases p.len() - i,
{
    if i < 0 || i >= p.len() {
        Seq::empty()
    } else {
        proof {
            lemma_token_end_bounds(p, i);
        }
        seq![token_at(p, i)] + tokens_from(p, token_end(p, i))
    }
}

/// The tokens of a pattern.
pub open spec fn tokens(p: Seq<char>) -> Seq<Token> {
    tokens_from(p, 0)
}

/// The characters that `regex::escape` puts a backslash before.
pub open spec fn is_meta_char(c: char) -> bool {
    c == '\\' || c == '.' || c == '+' || c == '*' || c == '?' || c == '(' || c == ')' || c == '|'
        || c == '[' || c == ']' || c == '{' || c == '}' || c == '^' || c == '$' || c == '#' || c
        == '&' || c == '-' || c == '~'
}

/// `s` with a backslash before each meta character.
pub open spec fn escaped(s: Seq<char>) -> Seq<char>
    decreases s.len(),
{
    if s.len() == 0 {
        Seq::empty()
    } else {
        let head = if is_meta_char(s[0]) {
            seq!['\\', s[0]]
        } else {
            seq![s[0]]
        };
        head + escaped(s.drop_first())
    }
}

/// Relies on regex::escape: the character `c`, preceded by a backslash where
/// it is a regex meta character.
#[verifier::external_body]
fn escape(c: char) -> (r: String)
    ensures
        r@ == escaped(seq![c]),
{
    regex::escape(c.encode_utf8(&mut [0u8; 4]))
}


/// The expression that one token becomes.
pub open spec fn token_source(t: Token) -> Seq<char> {
    match t {
        Token::Literal(c) => escaped(seq![c]),
        Token::AnySegment => SEGMENT_CHARS@,
        Token::AnyPath => PATH_CHARS@,
        Token::AnySegments => OPTIONAL_SEGMENTS@,
        Token::Variable(_) => SEGMENT_CAPTURE@,
    }
}

/// The expressions of the tokens, joined.
pub open spec fn tokens_source(ts: Seq<Token>) -> Seq<char>
    decreases ts.len(),
{
    if ts.len() == 0 {
        Seq::empty()
    } else {
        token_source(ts[0]) + tokens_source(ts.drop_first())
    }
}

/// The names of the variables among the tokens, in order.
pub open spec fn token_names(ts: Seq<Token>) -> Seq<Seq<char>>
    decreases ts.len(),
{
    if ts.len() == 0 {
        Seq::empty()
    } else {
        match ts[0] {
            Token::Variable(name) => seq![name] + token_names(ts.drop_first()),
            _ => token_names(ts.drop_first()),
        }
    }
}

/// The anchored expression that a pattern compiles to: its tokens' expressions
/// followed by an optional query string.
pub open spec fn pattern_source(p: Seq<char>) -> Seq<char> {
    seq!['^'] + tokens_source(tokens(p)) + QUERY_SUFFIX@ + seq!['$']
}

/// The variable names of a pattern in order of appearance; the name at
/// position `i` is captured by group `i + 1` of the compiled expression.
pub open spec fn pattern_variables(p: Seq<char>) -> Seq<Seq<char>> {
    token_names(tokens(p))
}

/// The position that a variable name maps to: its last occurrence, as a
/// later occurrence of a name overrides an earlier one.
pub open spec fn variable_position(names: Seq<Seq<char>>, name: Seq<char>) -> Option<nat>
    decreases names.len(),
{
    if names.len() == 0 {
        None
    } else if names.last() == name {
        Some((names.len() - 1) as nat)
    } else {
        variable_position(names.drop_last(), name)
    }
}

/// A variable whose name no other variable of the pattern has is mapped to
/// its place among the pattern's variables, counted from zero in order of
/// appearance, whatever literal text or wildcards stand between them.
pub proof fn lemma_variable_positions(p: Seq<char>, k: int)
    requires
        0 <= k < pattern_variables(p).len(),
        forall|j: int|
            0 <= j < pattern_variables(p).len() && j != k ==> pattern_variables(p)[j]
                != pattern_variables(p)[k],
    ensures
        variable_position(pattern_variables(p), pattern_variables(p)[k]) == Some(k as nat),
{
    lemma_position_of_unique(pattern_variables(p), k);
}

proof fn lemma_position_of_unique(names: Seq<Seq<char>>, k: int)
    requires
        0 <= k < names.len(),
        forall|j: int| 0 <= j < names.len() && j != k ==> names[j] != names[k],
    ensures
        variable_position(names, names[k]) == Some(k as nat),
    decreases names.len(),
{
    if k < names.len() - 1 {
        let shorter = names.drop_last();
        assert forall|j: int| 0 <= j < shorter.len() && j != k implies shorter[j] != shorter[k] by {
            assert(shorter[j] == names[j]);
        }
        lemma_position_of_unique(shorter, k);
    }
}

/// A pattern whose variables are `a` then `b`, two different names, maps `a`
/// to position 0 and `b` to position 1.
pub proof fn lemma_two_variables(p: Seq<char>, a: Seq<char>, b: Seq<char>)
    requires
        pattern_variables(p) == seq![a, b],
        a != b,
    ensures
        variable_position(pattern_variables(p), a) == Some(0nat),
        variable_position(pattern_variables(p), b) == Some(1nat),
{
    lemma_variable_positions(p, 0);
    lemma_variable_positions(p, 1);
}

/// No character of `s` is `:`.
pub open spec fn free_of_colons(s: Seq<char>) -> bool {
    forall|m: int| 0 <= m < s.len() ==> s[m] != ':'
}

/// Every character of `s` may stand in a variable name.
pub open spec fn is_name(s: Seq<char>) -> bool {
    forall|m: int| 0 <= m < s.len() ==> is_name_char(s[m])
}

/// `s` is empty or does not start with a name character, so that a name
/// before it ends there.
pub open spec fn ends_name(s: Seq<char>) -> bool {
    s.len() == 0 || !is_name_char(s[0])
}

proof fn lemma_name_end_at(p: Seq<char>, j: int, n: int)
    requires
        0 <= j,
        0 <= n,
        j + n <= p.len(),
        forall|t: int| 0 <= t < n ==> is_name_char(#[trigger] p[j + t]),
        j + n == p.len() || !is_name_char(p[j + n]),
    ensures
        name_end(p, j) == j + n,
    decreases n,
{
    if n > 0 {
        assert(is_name_char(p[j + 0]));
        assert forall|t: int| 0 <= t < n - 1 implies is_name_char(#[trigger] p[(j + 1) + t]) by {
            assert(is_name_char(p[j + (t + 1)]));
            assert(j + (t + 1) == (j + 1) + t);
        }
        lemma_name_end_at(p, j + 1, n - 1);
    }
}

/// Between `i` and the next `:` (or the end) no token is a variable.
proof fn lemma_no_variables_between(p: Seq<char>, i: int, k: int)
    requires
        0 <= i <= k <= p.len(),
        forall|m: int| i <= m < k ==> p[m] != ':',
        k == p.len() || p[k] == ':',
    ensures
        token_names(tokens_from(p, i)) == token_names(tokens_from(p, k)),
    decreases k - i,
{
    if i < k {
        lemma_tokens_step(p, i);
        lemma_token_end_bounds(p, i);
        let e = token_end(p, i);
        if segments_at(p, i) {
            assert(e == i + 3);
            if i + 1 == k {
                assert(p[k] == '*');
            }
            if i + 2 == k {
                assert(p[k] == '*');
            }
        } else if i + 1 < p.len() && p[i] == '*' && p[i + 1] == '*' {
            assert(e == i + 2);
            if i + 1 == k {
                assert(p[k] == '*');
            }
        }
        assert(e <= k);
        lemma_no_variables_between(p, e, k);
    }
}

/// The variable at `k`: its name runs to the first character that cannot
/// stand in a name.
proof fn lemma_variable_at(p: Seq<char>, k: int, name: Seq<char>)
    requires
        0 <= k,
        k + 1 + name.len() <= p.len(),
        p[k] == ':',
        p.subrange(k + 1, k + 1 + name.len()) == name,
        is_name(name),
        k + 1 + name.len() == p.len() || !is_name_char(p[k + 1 + name.len()]),
    ensures
        token_names(tokens_from(p, k)) == seq![name] + token_names(
            tokens_from(p, k + 1 + name.len()),
        ),
{
    assert forall|t: int| 0 <= t < name.len() implies is_name_char(#[trigger] p[(k + 1) + t]) by {
        assert(p[(k + 1) + t] == name[t]);
    }
    lemma_name_end_at(p, k + 1, name.len() as int);
    lemma_tokens_step(p, k);
}

/// A pattern that holds the variables `:a` and `:b` in that order, and no
/// other, whatever literal text or wildcards stand before, between and after
/// them, has exactly the variables `a` and `b`, in that order; where the
/// names differ, `a` takes position 0 and `b` position 1.
pub proof fn lemma_two_named_variables(x: Seq<char>, a: Seq<char>, y: Seq<char>, b: Seq<char>, z: Seq<char>)
    requires
        free_of_colons(x),
        free_of_colons(y),
        free_of_colons(z),
        is_name(a),
        is_name(b),
        ends_name(y),
        ends_name(z),
    ensures
        pattern_variables(x + seq![':'] + a + y + seq![':'] + b + z) == seq![a, b],
        a != b ==> variable_position(pattern_variables(x + seq![':'] + a + y + seq![':'] + b + z), a)
            == Some(0nat),
        a != b ==> variable_position(pattern_variables(x + seq![':'] + a + y + seq![':'] + b + z), b)
            == Some(1nat),
{
    let p = x + seq![':'] + a + y + seq![':'] + b + z;
    let ka = x.len() as int;
    let ea = ka + 1 + a.len();
    let kb = ea + y.len();
    let eb = kb + 1 + b.len();
    assert(p.len() == eb + z.len());
    assert forall|m: int| 0 <= m < ka implies p[m] != ':' by {
        assert(p[m] == x[m]);
    }
    assert(p[ka] == ':');
    lemma_no_variables_between(p, 0, ka);
    assert(p.subrange(ka + 1, ea) =~= a);
    if ea < p.len() {
        if y.len() > 0 {
            assert(p[ea] == y[0]);
        } else {
            assert(p[ea] == ':');
        }
    }
    lemma_variable_at(p, ka, a);
    assert forall|m: int| ea <= m < kb implies p[m] != ':' by {
        assert(p[m] == y[m - ea]);
    }
    assert(p[kb] == ':');
    lemma_no_variables_between(p, ea, kb);
    assert(p.subrange(kb + 1, eb) =~= b);
    if eb < p.len() {
        assert(p[eb] == z[0]);
    }
    lemma_variable_at(p, kb, b);
    assert forall|m: int| eb <= m < p.len() implies p[m] != ':' by {
        assert(p[m] == z[m - eb]);
    }
    lemma_no_variables_between(p, eb, p.len() as int);
    assert(tokens_from(p, p.len() as int) == Seq::<Token>::empty());
    assert(token_names(Seq::<Token>::empty()) == Seq::<Seq<char>>::empty());
    assert(pattern_variables(p) =~= seq![a, b]);
    if a != b {
        lemma_two_variables(p, a, b);
    }
}

/// The kind of token, as the scanner reports it.
#[derive(PartialEq, Eq, Structural, Clone, Copy, Debug)]
enum Kind {
    Literal,
    AnySegment,
    AnyPath,
    AnySegments,
    Variable,
}

spec fn kind_of(t: Token) -> Kind {
    match t {
        Token::Literal(_) => Kind::Literal,
        Token::AnySegment => Kind::AnySegment,
        Token::AnyPath => Kind::AnyPath,
        Token::AnySegments => Kind::AnySegments,
        Token::Variable(_) => Kind::Variable,
    }
}

fn scan_name_end(pattern: &Vec<char>, len: usize, j: usize) -> (r: usize)
    requires
        len == pattern@.len(),
        j <= len,
    ensures
        r as int == name_end(pattern@, j as int),
        j <= r <= len,
{
    let mut k = j;
    while k < len
        invariant
            len == pattern@.len(),
            j <= k <= len,
            name_end(pattern@, k as int) == name_end(pattern@, j as int),
        decreases len - k,
    {
        let c = pattern[k];
        if !(c == ',' || ('a' <= c && c <= 'z') || ('A' <= c && c <= 'Z') || ('0' <= c && c <= '9')
            || c == '_' || c == '-') {
            return k;
        }
        k += 1;
    }
    k
}

/// Reads the token that starts at `i`.
fn scan_token(pattern: &Vec<char>, len: usize, i: usize) -> (r: (Kind, usize))
    requires
        len == pattern@.len(),
        i < len,
    ensures
        r.0 == kind_of(token_at(pattern@, i as int)),
        r.1 as int == token_end(pattern@, i as int),
        i < r.1 <= len,
{
    let c = pattern[i];
    if c == '/' && i + 1 < len && i + 2 < len && pattern[i + 1] == '*' && pattern[i + 2] == '*' {
        (Kind::AnySegments, i + 3)
    } else if c == '*' && i + 1 < len && pattern[i + 1] == '*' {
        (Kind::AnyPath, i + 2)
    } else if c == '*' {
        (Kind::AnySegment, i + 1)
    } else if c == ':' {
        let e = scan_name_end(pattern, len, i + 1);
        (Kind::Variable, e)
    } else {
        (Kind::Literal, i + 1)
    }
}

proof fn lemma_tokens_step(p: Seq<char>, i: int)
    requires
        0 <= i < p.len(),
    ensures
        tokens_from(p, i) == seq![token_at(p, i)] + tokens_from(p, token_end(p, i)),
        tokens_source(tokens_from(p, i)) == token_source(token_at(p, i)) + tokens_source(
            tokens_from(p, token_end(p, i)),
        ),
        token_names(tokens_from(p, i)) == match token_at(p, i) {
            Token::Variable(name) => seq![name] + token_names(tokens_from(p, token_end(p, i))),
            _ => token_names(tokens_from(p, token_end(p, i))),
        },
{
    lemma_token_end_bounds(p, i);
    let ts = tokens_from(p, i);
    assert(ts.drop_first() =~= tokens_from(p, token_end(p, i)));
}

/// The position of variable `name` among `names`: its last occurrence.
pub fn position_of(names: &Vec<String>, name: &str) -> (r: Option<usize>)
    ensures
        match r {
            Some(i) => variable_position(names@.map_values(|s: String| s@), name@) == Some(i as nat),
            None => variable_position(names@.map_values(|s: String| s@), name@) is None,
        },
{
    let ghost all = names@.map_values(|s: String| s@);
    let key = String::from_str(name);
    let mut k: usize = names.len();
    proof {
        assert(all.subrange(0, k as int) =~= all);
    }
    while k > 0
        invariant
            k <= names@.len(),
            key@ == name@,
            all == names@.map_values(|s: String| s@),
            variable_position(all, name@) == variable_position(all.subrange(0, k as int), name@),
        decreases k,
    {
        let ghost prefix = all.subrange(0, k as int);
        proof {
            assert(prefix.drop_last() =~= all.subrange(0, k - 1));
        }
        if names[k - 1] == key {
            return Some(k - 1);
        }
        k -= 1;
    }
    None
}

/// Why a pattern could not be registered: its expression did not compile.
pub struct PatternError {
    pub pattern: String,
}

/// Helpers that read a route pattern.
pub struct PathUtils;

impl PathUtils {
    /// The variable names of `route_path` in order of appearance.
    pub fn get_variable_info(route_path: &str) -> (r: Vec<String>)
        ensures
            r@.map_values(|s: String| s@) == pattern_variables(route_path@),
    {
        let chars = chars_of(route_path);
        let len = chars.len();
        let mut names: Vec<String> = Vec::new();
        let mut i: usize = 0;
        while i < len
            invariant
                len == route_path@.len(),
                chars@ == route_path@,
                i <= len,
                pattern_variables(route_path@) == names@.map_values(|s: String| s@) + token_names(
                    tokens_from(route_path@, i as int),
                ),
            decreases len - i,
        {
            let (kind, next) = scan_token(&chars, len, i);
            proof {
                lemma_tokens_step(route_path@, i as int);
            }
            if kind == Kind::Variable {
                let name = String::from_str(route_path.substring_char(i + 1, next));
                proof {
                    assert(names@.push(name).map_values(|s: String| s@) =~= names@.map_values(
                        |s: String| s@,
                    ).push(name@));
                    assert(names@.map_values(|s: String| s@).push(name@) + token_names(
                        tokens_from(route_path@, next as int),
                    ) =~= names@.map_values(|s: String| s@) + (seq![name@] + token_names(
                        tokens_from(route_path@, next as int),
                    )));
                }
                names.push(name);
            }
            i = next;
        }
        proof {
            assert(names@.map_values(|s: String| s@) + token_names(tokens_from(route_path@, i as int))
                =~= names@.map_values(|s: String| s@));
        }
        names
    }

    /// Compiles `route_path`; fails where its expression is refused.
    pub fn create_regex(route_path: &str) -> (r: Result<Matcher, PatternError>)
        ensures
            r is Ok <==> regex_compiles(pattern_source(route_path@)),
            match r {
                Ok(m) => m.source() == pattern_source(route_path@),
                Err(e) => e.pattern@ == route_path@,
            },
    {
        match Matcher::compile(Self::regex_source(route_path)) {
            Ok(m) => Ok(m),
            Err(_) => Err(PatternError { pattern: String::from_str(route_path) }),
        }
    }

    /// The anchored regular expression that `route_path` compiles to.
    pub fn regex_source(route_path: &str) -> (r: String)
        ensures
            r@ == pattern_source(route_path@),
    {
        let chars = chars_of(route_path);
        let len = chars.len();
        let mut body = String::new();
        let mut i: usize = 0;
        while i < len
            invariant
                len == route_path@.len(),
                chars@ == route_path@,
                i <= len,
                tokens_source(tokens(route_path@)) == body@ + tokens_source(
                    tokens_from(route_path@, i as int),
                ),
            decreases len - i,
        {
            let (kind, next) = scan_token(&chars, len, i);
            proof {
                lemma_tokens_step(route_path@, i as int);
            }
            let ghost before = body@;
            match kind {
                Kind::Literal => {
                    let quoted = escape(chars[i]);
                    body.append(quoted.as_str());
                },
                Kind::AnySegment => body.append(SEGMENT_CHARS),
                Kind::AnyPath => body.append(PATH_CHARS),
                Kind::AnySegments => body.append(OPTIONAL_SEGMENTS),
                Kind::Variable => body.append(SEGMENT_CAPTURE),
            }
            proof {
                assert(body@ == before + token_source(token_at(route_path@, i as int)));
                assert(before + (token_source(token_at(route_path@, i as int)) + tokens_source(
                    tokens_from(route_path@, next as int),
                )) =~= body@ + tokens_source(tokens_from(route_path@, next as int)));
            }
            i = next;
        }
        proof {
            assert(body@ + tokens_source(tokens_from(route_path@, i as int)) =~= body@);
        }
        let mut out = String::from_str("^");
        out.append(body.as_str());
        out.append(QUERY_SUFFIX);
        out.append("$");
        proof {
            reveal_strlit("^");
            reveal_strlit("$");
            assert(out@ =~= pattern_source(route_path@));
        }
        out
    }
}

} // verus!

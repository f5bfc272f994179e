//! WGSL source rewriting that lets Three.js-generated shaders pass the
//! native shader compiler: diagnostic directives are dropped,
//! `textureLoad` level arguments are turned into signed integers, external
//! textures become plain 2D textures, and integral float literals inside
//! `u32(..)` / `i32(..)` casts become integer literals.
use vstd::prelude::*;
use vstd::string::StringSliceAdditionalSpecFns;
use crate::text::{
    join_lines, lines, lines_from, replace_all, replace_all_exec,
    chars_of, decimal, find_from, has_char, push_decimal, lemma_skip_ws_range, skip_ws, find_from_exec, lemma_find_from_bounds, matches_at_exec, push_all,
    push_range, slice_chars, string_from_chars, starts_with, trim, trim_exec, trim_start, trim_start_exec,
};

verus! {

/// The depth-counting parenthesis scan of the rewriting passes over
/// characters, at index `i` with `d` = opening minus closing parentheses
/// seen so far.
pub open spec fn paren_match_from(s: Seq<char>, i: int, d: int) -> Option<int>
    decreases s.len() - i,
{
    if i < 0 || i >= s.len() {
        None
    } else if s[i] == '(' {
        paren_match_from(s, i + 1, d + 1)
    } else if s[i] == ')' {
        if d - 1 == 0 {
            Some(i)
        } else {
            paren_match_from(s, i + 1, d - 1)
        }
    } else {
        paren_match_from(s, i + 1, d)
    }
}

/// Index of the `)` that brings the parenthesis depth, counted from `open`
/// on, back to zero.
pub open spec fn matching_paren(s: Seq<char>, open: int) -> Option<int> {
    paren_match_from(s, open, 0)
}

/// A match lies at or after the scan start and holds `)`.
pub proof fn lemma_paren_match_from(s: Seq<char>, i: int, d: int)
    ensures
        paren_match_from(s, i, d) matches Some(e) ==> i <= e < s.len() && s[e] == ')',
    decreases s.len() - i,
{
    if !(i < 0 || i >= s.len()) {
        if s[i] == '(' {
            lemma_paren_match_from(s, i + 1, d + 1);
        } else if s[i] == ')' {
            lemma_paren_match_from(s, i + 1, d - 1);
        } else {
            lemma_paren_match_from(s, i + 1, d);
        }
    }
}

/// A match counted from depth zero lies strictly after its start.
pub proof fn lemma_paren_match_after(s: Seq<char>, i: int)
    ensures
        paren_match_from(s, i, 0) matches Some(e) ==> i < e,
{
    if !(i < 0 || i >= s.len()) {
        if s[i] == '(' {
            lemma_paren_match_from(s, i + 1, 1);
        } else if s[i] == ')' {
            lemma_paren_match_from(s, i + 1, -1);
        } else {
            lemma_paren_match_from(s, i + 1, 0);
        }
    }
}

/// Index of the parenthesis closing the one counted from `open`.
pub fn matching_paren_exec(s: &Vec<char>, open: usize) -> (r: Option<usize>)
    ensures
        r matches Some(e) ==> matching_paren(s@, open as int) == Some(e as int),
        r is None ==> matching_paren(s@, open as int) is None,
{
    let mut opens: usize = 0;
    let mut closes: usize = 0;
    let mut i = open;
    while i < s.len()
        invariant
            open <= i,
            opens + closes <= i - open,
            matching_paren(s@, open as int) == paren_match_from(s@, i as int, opens - closes),
        decreases s.len() - i,
    {
        let c = s[i];
        if c == '(' {
            opens = opens + 1;
        } else if c == ')' {
            closes = closes + 1;
            if opens == closes {
                return Some(i);
            }
        }
        i = i + 1;
    }
    None
}

/// The depth-counting scan of `matching_parenthesis` over UTF-8 bytes, at
/// byte `i` with `d` = opening minus closing parentheses seen so far.
pub open spec fn paren_match_bytes(b: Seq<u8>, i: int, d: int) -> Option<int>
    decreases b.len() - i,
{
    if i < 0 || i >= b.len() {
        None
    } else if b[i] == 40u8 {
        paren_match_bytes(b, i + 1, d + 1)
    } else if b[i] == 41u8 {
        if d - 1 == 0 {
            Some(i)
        } else {
            paren_match_bytes(b, i + 1, d - 1)
        }
    } else {
        paren_match_bytes(b, i + 1, d)
    }
}

/// The depth-counting scan of `matching_parenthesis`.
fn scan_parenthesis(source: &str, open: usize) -> (r: Option<usize>)
    ensures
        r matches Some(e) ==> paren_match_bytes(source.spec_bytes(), open as int, 0) == Some(e as int),
        r is None ==> paren_match_bytes(source.spec_bytes(), open as int, 0) is None,
{
    let b = source.as_bytes();
    let mut opens: usize = 0;
    let mut closes: usize = 0;
    let mut i = open;
    while i < b.len()
        invariant
            b@ == source.spec_bytes(),
            open <= i,
            opens + closes <= i - open,
            paren_match_bytes(b@, open as int, 0) == paren_match_bytes(b@, i as int, opens - closes),
        decreases b.len() - i,
    {
        let c = b[i];
        if c == 40u8 {
            opens = opens + 1;
        } else if c == 41u8 {
            closes = closes + 1;
            if opens == closes {
                return Some(i);
            }
        }
        i = i + 1;
    }
    None
}

/// Byte offset of the parenthesis that closes the parenthesis depth counted
/// from byte offset `open` of `source` on, if any. Parentheses are ASCII, so
/// no byte of a multi-byte character is ever taken for one. For an opening
/// parenthesis at `open` this is the first byte at which the parentheses
/// counted from `open` on are balanced (see
/// `law_matching_parenthesis_is_least_balanced`).
pub fn matching_parenthesis(source: &str, open: usize) -> (r: Option<usize>)
    ensures
        r matches Some(e) ==> paren_match_bytes(source.spec_bytes(), open as int, 0) == Some(e as int),
        r is None ==> paren_match_bytes(source.spec_bytes(), open as int, 0) is None,
        open < source.spec_bytes().len() && source.spec_bytes()[open as int] == 40u8 ==> match r {
            Some(e) => open < e && paren_balance(source.spec_bytes(), open as int, e + 1) == 0 && forall|j: int|
                open <= j < e ==> #[trigger] paren_balance(source.spec_bytes(), open as int, j + 1) > 0,
            None => forall|j: int|
                open <= j < source.spec_bytes().len() ==> #[trigger] paren_balance(
                    source.spec_bytes(),
                    open as int,
                    j + 1,
                ) > 0,
        },
{
    let r = scan_parenthesis(source, open);
    proof {
        if open < source.spec_bytes().len() && source.spec_bytes()[open as int] == 40u8 {
            law_matching_parenthesis_is_least_balanced(source.spec_bytes(), open as int);
        }
    }
    r
}

/// Opening minus closing parentheses among the bytes `open..end`.
pub open spec fn paren_balance(b: Seq<u8>, open: int, end: int) -> int
    decreases end - open,
{
    if end <= open {
        0
    } else if b[end - 1] == 40u8 {
        paren_balance(b, open, end - 1) + 1
    } else if b[end - 1] == 41u8 {
        paren_balance(b, open, end - 1) - 1
    } else {
        paren_balance(b, open, end - 1)
    }
}

/// The scan from byte `i`, with the balance of `open..i` positive so far,
/// stops at the first byte that brings the balance to zero.
proof fn lemma_paren_scan_least(b: Seq<u8>, open: int, i: int, d: int)
    requires
        0 <= open < i <= b.len(),
        d == paren_balance(b, open, i),
        d >= 1,
        forall|j: int| open <= j < i ==> #[trigger] paren_balance(b, open, j + 1) > 0,
    ensures
        paren_match_bytes(b, i, d) matches Some(e) ==> i <= e < b.len() && paren_balance(b, open, e + 1)
            == 0 && forall|j: int| open <= j < e ==> #[trigger] paren_balance(b, open, j + 1) > 0,
        paren_match_bytes(b, i, d) is None ==> forall|j: int|
            open <= j < b.len() ==> #[trigger] paren_balance(b, open, j + 1) > 0,
    decreases b.len() - i,
{
    if i < b.len() {
        assert(paren_balance(b, open, i + 1) == d + if b[i] == 40u8 {
            1int
        } else if b[i] == 41u8 {
            -1int
        } else {
            0int
        });
        if !(b[i] == 41u8 && d - 1 == 0) {
            assert forall|j: int| open <= j < i + 1 implies #[trigger] paren_balance(b, open, j + 1) > 0 by {}
            if b[i] == 40u8 {
                lemma_paren_scan_least(b, open, i + 1, d + 1);
            } else if b[i] == 41u8 {
                lemma_paren_scan_least(b, open, i + 1, d - 1);
            } else {
                lemma_paren_scan_least(b, open, i + 1, d);
            }
        }
    }
}

/// The parenthesis `matching_parenthesis` finds for an opening one at
/// `open` is the first byte after it at which the parentheses counted from
/// `open` on are balanced; when it finds none, they never are.
pub proof fn law_matching_parenthesis_is_least_balanced(b: Seq<u8>, open: int)
    requires
        0 <= open < b.len(),
        b[open] == 40u8,
    ensures
        paren_match_bytes(b, open, 0) matches Some(e) ==> open < e < b.len() && b[e] == 41u8
            && paren_balance(b, open, e + 1) == 0 && forall|j: int|
            open <= j < e ==> #[trigger] paren_balance(b, open, j + 1) > 0,
        paren_match_bytes(b, open, 0) is None ==> forall|j: int|
            open <= j < b.len() ==> #[trigger] paren_balance(b, open, j + 1) > 0,
{
    assert(paren_balance(b, open, open) == 0);
    assert(paren_balance(b, open, open + 1) == 1);
    assert forall|j: int| open <= j < open + 1 implies #[trigger] paren_balance(b, open, j + 1) > 0 by {
        assert(j == open);
    }
    lemma_paren_scan_least(b, open, open + 1, 1);
    if let Some(e) = paren_match_bytes(b, open, 0) {
        if b[e] != 41u8 {
            let j = e - 1;
            assert(paren_balance(b, open, j + 1) > 0);
            assert(j + 1 == e);
            assert(paren_balance(b, open, e + 1) == paren_balance(b, open, e) + if b[e] == 40u8 {
                1int
            } else {
                0int
            });
        }
    }
}

/// Scan of `normalize_texture_load_call` for the last comma outside nested
/// parentheses, from index `i` at depth `d`.
pub open spec fn last_comma_from(s: Seq<char>, i: int, d: int, found: Option<int>) -> Option<int>
    decreases s.len() - i,
{
    if i < 0 || i >= s.len() {
        found
    } else if s[i] == '(' {
        last_comma_from(s, i + 1, d + 1, found)
    } else if s[i] == ')' {
        last_comma_from(s, i + 1, d - 1, found)
    } else if s[i] == ',' && d == 0 {
        last_comma_from(s, i + 1, d, Some(i))
    } else {
        last_comma_from(s, i + 1, d, found)
    }
}

/// Index of the first `(` of a call, or 0 when there is none.
pub open spec fn call_open(call: Seq<char>) -> int {
    match find_from(call, seq!['('], 0) {
        Some(i) => i,
        None => 0,
    }
}

/// The last argument-separating comma of a call.
pub open spec fn last_top_level_comma(call: Seq<char>) -> Option<int> {
    last_comma_from(call, call_open(call) + 1, 0, None)
}

/// `s` without one trailing `c`, if it ends with `c`.
pub open spec fn strip_suffix_char(s: Seq<char>, c: char) -> Seq<char> {
    if s.len() > 0 && s.last() == c {
        s.drop_last()
    } else {
        s
    }
}

/// `u32(`
pub open spec fn u32_open() -> Seq<char> {
    seq!['u', '3', '2', '(']
}

/// `i32(`
pub open spec fn i32_open() -> Seq<char> {
    seq!['i', '3', '2', '(']
}

/// `textureLoad(`
pub open spec fn texture_load_open() -> Seq<char> {
    seq!['t', 'e', 'x', 't', 'u', 'r', 'e', 'L', 'o', 'a', 'd', '(']
}

/// A `textureLoad(...)` call whose last argument is `u32(level)` written
/// with `i32(level)` instead; any other call is unchanged.
pub open spec fn texture_load_call_rewrite(call: Seq<char>) -> Seq<char> {
    match last_top_level_comma(call) {
        None => call,
        Some(comma) => {
            let close = if call.len() == 0 {
                0
            } else {
                call.len() - 1
            };
            let suffix = call.subrange(comma + 1, close);
            let trimmed = trim_start(suffix);
            if !starts_with(trimmed, u32_open()) {
                call
            } else {
                let level = trim(trimmed.subrange(4, trimmed.len() as int));
                let level = trim(strip_suffix_char(level, ')'));
                let level = trim(strip_suffix_char(level, 'u'));
                let indentation = suffix.subrange(0, suffix.len() - trimmed.len());
                call.subrange(0, comma + 1) + indentation + i32_open() + level + seq![')']
                    + call.subrange(close, call.len() as int)
            }
        },
    }
}

proof fn lemma_last_comma_from(s: Seq<char>, i: int, d: int, found: Option<int>)
    requires
        found matches Some(f) ==> 0 <= f < s.len() && s[f] == ',',
    ensures
        last_comma_from(s, i, d, found) matches Some(f) ==> 0 <= f < s.len() && s[f] == ',',
        last_comma_from(s, i, d, found) matches Some(f) ==> (found == Some(f) || i <= f),
    decreases s.len() - i,
{
    if !(i < 0 || i >= s.len()) {
        if s[i] == '(' {
            lemma_last_comma_from(s, i + 1, d + 1, found);
        } else if s[i] == ')' {
            lemma_last_comma_from(s, i + 1, d - 1, found);
        } else if s[i] == ',' && d == 0 {
            lemma_last_comma_from(s, i + 1, d, Some(i));
        } else {
            lemma_last_comma_from(s, i + 1, d, found);
        }
    }
}

fn u32_open_exec() -> (r: Vec<char>)
    ensures
        r@ == u32_open(),
{
    let r = vec!['u', '3', '2', '('];
    assert(r@ =~= u32_open());
    r
}

fn i32_open_exec() -> (r: Vec<char>)
    ensures
        r@ == i32_open(),
{
    let r = vec!['i', '3', '2', '('];
    assert(r@ =~= i32_open());
    r
}

fn texture_load_open_exec() -> (r: Vec<char>)
    ensures
        r@ == texture_load_open(),
{
    let r = vec!['t', 'e', 'x', 't', 'u', 'r', 'e', 'L', 'o', 'a', 'd', '('];
    assert(r@ =~= texture_load_open());
    r
}

/// `texture_load_call_rewrite` on characters.
pub fn texture_load_call_rewrite_exec(call: &Vec<char>) -> (r: Vec<char>)
    requires
        last_top_level_comma(call@) != Some(call@.len() - 1),
    ensures
        r@ == texture_load_call_rewrite(call@),
{
    let paren = vec!['('];
    assert(paren@ =~= seq!['(']);
    let open = match find_from_exec(call, &paren, 0) {
        Some(i) => i,
        None => 0,
    };
    proof {
        lemma_find_from_bounds(call@, seq!['('], 0);
    }
    let mut opens: usize = 0;
    let mut closes: usize = 0;
    let mut found: Option<usize> = None;
    let mut i = if open < call.len() {
        open + 1
    } else {
        call.len()
    };
    while i < call.len()
        invariant
            opens + closes <= i,
            found matches Some(f) ==> 0 <= f < call@.len() && call@[f as int] == ',',
            last_top_level_comma(call@) == last_comma_from(
                call@,
                i as int,
                opens - closes,
                match found {
                    Some(f) => Some(f as int),
                    None => None,
                },
            ),
        decreases call.len() - i,
    {
        let c = call[i];
        if c == '(' {
            opens = opens + 1;
        } else if c == ')' {
            closes = closes + 1;
        } else if c == ',' && opens == closes {
            found = Some(i);
        }
        i = i + 1;
    }
    let comma = match found {
        None => {
            return slice_chars(call, 0, call.len());
        },
        Some(f) => f,
    };
    let close = if call.len() == 0 {
        0
    } else {
        call.len() - 1
    };
    let suffix = slice_chars(call, comma + 1, close);
    let trimmed = trim_start_exec(&suffix);
    proof {
        lemma_skip_ws_range(suffix@, 0);
    }
    let u32p = u32_open_exec();
    if !matches_at_exec(&trimmed, &u32p, 0) {
        return slice_chars(call, 0, call.len());
    }
    let level = slice_chars(&trimmed, 4, trimmed.len());
    let level = trim_exec(&level);
    let level = if level.len() > 0 && level[level.len() - 1] == ')' {
        slice_chars(&level, 0, level.len() - 1)
    } else {
        level
    };
    let level = trim_exec(&level);
    let level = if level.len() > 0 && level[level.len() - 1] == 'u' {
        slice_chars(&level, 0, level.len() - 1)
    } else {
        level
    };
    let level = trim_exec(&level);
    let mut r = slice_chars(call, 0, comma + 1);
    push_range(&mut r, &suffix, 0, suffix.len() - trimmed.len());
    push_all(&mut r, &i32_open_exec());
    push_all(&mut r, &level);
    r.push(')');
    push_range(&mut r, call, close, call.len());
    proof {
        assert(call@.subrange(0, call@.len() as int) =~= call@);
    }
    r
}


/// `s[cursor..]` with every `textureLoad(...)` call whose parentheses close
/// rewritten by `texture_load_call_rewrite`; an unclosed call ends the scan.
pub open spec fn texture_loads_from(s: Seq<char>, cursor: int) -> Seq<char>
    decreases s.len() - cursor,
{
    if cursor < 0 || cursor > s.len() {
        Seq::empty()
    } else {
        match find_from(s, texture_load_open(), cursor) {
            None => s.subrange(cursor, s.len() as int),
            Some(start) => match matching_paren(s, start + 11) {
                None => s.subrange(cursor, s.len() as int),
                Some(end) => {
                    proof {
                        lemma_find_from_bounds(s, texture_load_open(), cursor);
                        lemma_paren_match_from(s, start + 11, 0);
                    }
                    s.subrange(cursor, start) + texture_load_call_rewrite(
                        s.subrange(start, end + 1),
                    ) + texture_loads_from(s, end + 1)
                },
            },
        }
    }
}

/// What `normalize_texture_load_levels` produces for `s`.
pub open spec fn texture_loads(s: Seq<char>) -> Seq<char> {
    texture_loads_from(s, 0)
}

proof fn lemma_call_ends_with_paren(call: Seq<char>)
    requires
        call.len() > 0,
        call.last() == ')',
    ensures
        last_top_level_comma(call) != Some(call.len() - 1),
{
    lemma_last_comma_from(call, call_open(call) + 1, 0, None);
}

/// Rewrites the level argument of every `textureLoad(...)` call of `s`.
pub fn texture_loads_exec(s: &Vec<char>) -> (r: Vec<char>)
    ensures
        r@ == texture_loads(s@),
{
    let pattern = texture_load_open_exec();
    let mut out: Vec<char> = Vec::new();
    let mut cursor: usize = 0;
    while cursor <= s.len()
        invariant
            pattern@ == texture_load_open(),
            out@ + texture_loads_from(s@, cursor as int) == texture_loads(s@),
        decreases s.len() + 1 - cursor,
    {
        proof {
            lemma_find_from_bounds(s@, texture_load_open(), cursor as int);
            assert(texture_load_open().len() == 12);
        }
        let ghost before = out@;
        let start = match find_from_exec(s, &pattern, cursor) {
            None => {
                push_range(&mut out, s, cursor, s.len());
                assert(texture_loads_from(s@, cursor as int) == s@.subrange(
                    cursor as int,
                    s@.len() as int,
                ));
                assert(out@ =~= texture_loads(s@));
                return out;
            },
            Some(start) => start,
        };
        let end = match matching_paren_exec(s, start + 11) {
            None => {
                push_range(&mut out, s, cursor, s.len());
                assert(texture_loads_from(s@, cursor as int) == s@.subrange(
                    cursor as int,
                    s@.len() as int,
                ));
                assert(out@ =~= texture_loads(s@));
                return out;
            },
            Some(end) => end,
        };
        proof {
            lemma_paren_match_from(s@, start + 11, 0);
        }
        let call = slice_chars(s, start, end + 1);
        proof {
            lemma_call_ends_with_paren(call@);
        }
        let rewritten = texture_load_call_rewrite_exec(&call);
        push_range(&mut out, s, cursor, start);
        push_all(&mut out, &rewritten);
        assert(out@ + texture_loads_from(s@, end + 1) =~= before + texture_loads_from(
            s@,
            cursor as int,
        ));
        cursor = end + 1;
    }
    assert(out@ + texture_loads_from(s@, cursor as int) =~= out@);
    out
}

/// Rewrites `textureLoad(.., u32(level))` calls to take `i32(level)`.
pub fn normalize_texture_load_levels(source: &str) -> (r: String)
    ensures
        r@ == texture_loads(source@),
{
    let s = chars_of(source);
    let r = texture_loads_exec(&s);
    string_from_chars(&r)
}

/// Rewrites one `textureLoad(...)` call (see `texture_load_call_rewrite`).
pub fn normalize_texture_load_call(call: &str) -> (r: String)
    requires
        last_top_level_comma(call@) != Some(call@.len() - 1),
    ensures
        r@ == texture_load_call_rewrite(call@),
{
    let s = chars_of(call);
    let r = texture_load_call_rewrite_exec(&s);
    string_from_chars(&r)
}


/// Text holding a decimal point or an exponent marker: a literal the
/// integer-cast normalisation hands to float parsing.
pub open spec fn is_float_text(v: Seq<char>) -> bool {
    has_char(v, '.') || has_char(v, 'e') || has_char(v, 'E')
}

/// The trimmed argument text of the cast call `s[start..=end]`.
pub open spec fn cast_argument(s: Seq<char>, function: Seq<char>, start: int, end: int) -> Seq<char> {
    trim(s.subrange(start + function.len(), end))
}

/// Trimmed argument texts, in order, of the calls of `function` in
/// `s[cursor..]` whose argument looks like a float literal.
pub open spec fn cast_candidates_from(s: Seq<char>, function: Seq<char>, cursor: int) -> Seq<
    Seq<char>,
>
    decreases s.len() - cursor,
{
    if function.len() == 0 || cursor < 0 || cursor > s.len() {
        Seq::empty()
    } else {
        match find_from(s, function, cursor) {
            None => Seq::empty(),
            Some(start) => match matching_paren(s, start + function.len() - 1) {
                None => Seq::empty(),
                Some(end) => {
                    proof {
                        lemma_find_from_bounds(s, function, cursor);
                        lemma_paren_match_from(s, start + function.len() - 1, 0);
                    }
                    let rest = cast_candidates_from(s, function, end + 1);
                    if is_float_text(cast_argument(s, function, start, end)) {
                        seq![cast_argument(s, function, start, end)] + rest
                    } else {
                        rest
                    }
                },
            },
        }
    }
}

/// Float-looking cast arguments of `s`, in order.
pub open spec fn cast_candidates(s: Seq<char>, function: Seq<char>) -> Seq<Seq<char>> {
    cast_candidates_from(s, function, 0)
}

/// `values` without its first entry (empty stays empty).
pub open spec fn rest_of(values: Seq<Option<i64>>) -> Seq<Option<i64>> {
    if values.len() > 0 {
        values.drop_first()
    } else {
        values
    }
}

/// `s[cursor..]` with each float-looking cast call replaced by the integer
/// literal `values` gives for it (first entry for the first such call, and
/// so on) followed by `suffix`; calls whose entry is `None` stay as written.
pub open spec fn cast_rewrite_from(
    s: Seq<char>,
    function: Seq<char>,
    suffix: Seq<char>,
    values: Seq<Option<i64>>,
    cursor: int,
) -> Seq<char>
    decreases s.len() - cursor,
{
    if function.len() == 0 || cursor < 0 || cursor > s.len() {
        Seq::empty()
    } else {
        match find_from(s, function, cursor) {
            None => s.subrange(cursor, s.len() as int),
            Some(start) => match matching_paren(s, start + function.len() - 1) {
                None => s.subrange(cursor, s.len() as int),
                Some(end) => {
                    proof {
                        lemma_find_from_bounds(s, function, cursor);
                        lemma_paren_match_from(s, start + function.len() - 1, 0);
                    }
                    if is_float_text(cast_argument(s, function, start, end)) {
                        if values.len() > 0 && values[0] is Some {
                            s.subrange(cursor, start) + decimal(values[0]->0 as int) + suffix
                                + cast_rewrite_from(s, function, suffix, rest_of(values), end + 1)
                        } else {
                            s.subrange(cursor, end + 1) + cast_rewrite_from(
                                s,
                                function,
                                suffix,
                                rest_of(values),
                                end + 1,
                            )
                        }
                    } else {
                        s.subrange(cursor, end + 1) + cast_rewrite_from(
                            s,
                            function,
                            suffix,
                            values,
                            end + 1,
                        )
                    }
                },
            },
        }
    }
}

/// What `normalize_integer_cast` produces for `s`.
pub open spec fn cast_rewrite(
    s: Seq<char>,
    function: Seq<char>,
    suffix: Seq<char>,
    values: Seq<Option<i64>>,
) -> Seq<char> {
    cast_rewrite_from(s, function, suffix, values, 0)
}

/// Float-looking arguments of the `function` calls of `source`, in order:
/// the literals whose integer value `normalize_integer_cast` needs.
pub fn cast_literals(source: &str, function: &str) -> (r: Vec<String>)
    requires
        function@.len() > 0,
    ensures
        r@.len() == cast_candidates(source@, function@).len(),
        forall|i: int| 0 <= i < r@.len() ==> #[trigger] r@[i]@ == cast_candidates(source@, function@)[i],
{
    let s = chars_of(source);
    let f = chars_of(function);
    let mut out: Vec<String> = Vec::new();
    let ghost found: Seq<Seq<char>> = Seq::empty();
    let mut cursor: usize = 0;
    while cursor <= s.len()
        invariant
            f@ == function@,
            s@ == source@,
            f@.len() > 0,
            out@.len() == found.len(),
            forall|i: int| 0 <= i < out@.len() ==> #[trigger] out@[i]@ == found[i],
            found + cast_candidates_from(s@, f@, cursor as int) == cast_candidates(s@, f@),
        decreases s.len() + 1 - cursor,
    {
        proof {
            lemma_find_from_bounds(s@, f@, cursor as int);
        }
        let start = match find_from_exec(&s, &f, cursor) {
            None => {
                assert(found =~= cast_candidates(s@, f@));
                return out;
            },
            Some(start) => start,
        };
        let end = match matching_paren_exec(&s, start + f.len() - 1) {
            None => {
                assert(found =~= cast_candidates(s@, f@));
                return out;
            },
            Some(end) => end,
        };
        proof {
            lemma_paren_match_from(s@, start + f@.len() - 1, 0);
            lemma_paren_match_after(s@, start + f@.len() - 1);
        }
        let inner = slice_chars(&s, start + f.len(), end);
        let value = trim_exec(&inner);
        if has_float_marker(&value) {
            let text = string_from_chars(&value);
            proof {
                found = found.push(value@);
            }
            out.push(text);
        }
        cursor = end + 1;
    }
    assert(found =~= cast_candidates(s@, f@));
    out
}

/// `v` holds `.`, `e` or `E`.
pub fn has_float_marker(v: &Vec<char>) -> (r: bool)
    ensures
        r == is_float_text(v@),
{
    let mut i: usize = 0;
    while i < v.len()
        invariant
            i <= v.len(),
            forall|k: int| 0 <= k < i ==> v@[k] != '.' && v@[k] != 'e' && v@[k] != 'E',
        decreases v.len() - i,
    {
        if v[i] == '.' || v[i] == 'e' || v[i] == 'E' {
            assert(v@[i as int] == v[i as int]);
            return true;
        }
        i = i + 1;
    }
    false
}

/// Replaces each call of `function` (such as `u32(`) whose argument is a
/// float literal by an integer literal with `suffix`: the `k`-th such call
/// (see `cast_literals`) becomes `literal_values[k]` followed by `suffix`
/// when that entry is `Some`, and stays as written when it is `None`.
/// An entry is `Some(v)` exactly when the literal parses as a finite float
/// without a fractional part, `v` being that float converted to `i64`; that
/// float parsing happens outside this library.
pub fn rewrite_integer_casts(
    source: &str,
    function: &str,
    suffix: &str,
    literal_values: &[Option<i64>],
) -> (r: String)
    requires
        function@.len() > 0,
        literal_values@.len() == cast_candidates(source@, function@).len(),
    ensures
        r@ == cast_rewrite(source@, function@, suffix@, literal_values@),
{
    let s = chars_of(source);
    let f = chars_of(function);
    let suf = chars_of(suffix);
    let mut out: Vec<char> = Vec::new();
    let mut k: usize = 0;
    let mut cursor: usize = 0;
    assert(literal_values@.skip(0) =~= literal_values@);
    while cursor <= s.len()
        invariant
            f@ == function@,
            s@ == source@,
            suf@ == suffix@,
            f@.len() > 0,
            k <= literal_values@.len(),
            literal_values@.len() == cast_candidates(s@, f@).len(),
            cast_candidates_from(s@, f@, cursor as int).len() == literal_values@.len() - k,
            out@ + cast_rewrite_from(s@, f@, suf@, literal_values@.skip(k as int), cursor as int)
                == cast_rewrite(s@, f@, suf@, literal_values@),
        decreases s.len() + 1 - cursor,
    {
        proof {
            lemma_find_from_bounds(s@, f@, cursor as int);
        }
        let ghost before = out@;
        let ghost vals = literal_values@.skip(k as int);
        let start = match find_from_exec(&s, &f, cursor) {
            None => {
                push_range(&mut out, &s, cursor, s.len());
                assert(out@ =~= cast_rewrite(s@, f@, suf@, literal_values@));
                return string_from_chars(&out);
            },
            Some(start) => start,
        };
        let end = match matching_paren_exec(&s, start + f.len() - 1) {
            None => {
                push_range(&mut out, &s, cursor, s.len());
                assert(out@ =~= cast_rewrite(s@, f@, suf@, literal_values@));
                return string_from_chars(&out);
            },
            Some(end) => end,
        };
        proof {
            lemma_paren_match_from(s@, start + f@.len() - 1, 0);
            lemma_paren_match_after(s@, start + f@.len() - 1);
        }
        let inner = slice_chars(&s, start + f.len(), end);
        let value = trim_exec(&inner);
        if has_float_marker(&value) {
            assert(vals.len() > 0);
            let entry = literal_values[k];
            assert(entry == vals[0]);
            assert(rest_of(vals) =~= literal_values@.skip(k + 1));
            match entry {
                Some(v) => {
                    push_range(&mut out, &s, cursor, start);
                    push_decimal(&mut out, v);
                    push_all(&mut out, &suf);
                },
                None => {
                    push_range(&mut out, &s, cursor, end + 1);
                },
            }
            k = k + 1;
        } else {
            push_range(&mut out, &s, cursor, end + 1);
        }
        cursor = end + 1;
    }
    assert(out@ =~= cast_rewrite(s@, f@, suf@, literal_values@));
    string_from_chars(&out)
}


/// `diagnostic(`
pub open spec fn diagnostic_open() -> Seq<char> {
    seq!['d', 'i', 'a', 'g', 'n', 'o', 's', 't', 'i', 'c', '(']
}

/// A line that, after leading white space, starts a `diagnostic(` directive.
pub open spec fn is_directive_line(line: Seq<char>) -> bool {
    starts_with(trim_start(line), diagnostic_open())
}

/// The lines that are not diagnostic directives, in order.
pub open spec fn kept_lines(lines: Seq<Seq<char>>) -> Seq<Seq<char>>
    decreases lines.len(),
{
    if lines.len() == 0 {
        Seq::empty()
    } else if is_directive_line(lines.last()) {
        kept_lines(lines.drop_last())
    } else {
        kept_lines(lines.drop_last()).push(lines.last())
    }
}

/// `s` with its diagnostic-directive lines removed, the remaining lines
/// joined by `\n`.
pub open spec fn strip_directives(s: Seq<char>) -> Seq<char> {
    join_lines(kept_lines(lines(s)))
}

proof fn lemma_join_push(pieces: Seq<Seq<char>>, last: Seq<char>)
    ensures
        join_lines(pieces.push(last)) == if pieces.len() == 0 {
            last
        } else {
            join_lines(pieces) + seq!['\n'] + last
        },
{
    assert(pieces.push(last).drop_last() =~= pieces);
}

/// Drops the lines that start (after white space) with `diagnostic(` and
/// joins the remaining lines with `\n`.
pub fn strip_diagnostic_directives(source: &str) -> (r: String)
    ensures
        r@ == strip_directives(source@),
{
    let s = chars_of(source);
    let newline = vec!['\n'];
    assert(newline@ =~= seq!['\n']);
    let directive = vec!['d', 'i', 'a', 'g', 'n', 'o', 's', 't', 'i', 'c', '('];
    assert(directive@ =~= diagnostic_open());
    let mut out: Vec<char> = Vec::new();
    let mut any = false;
    let ghost mut done: Seq<Seq<char>> = Seq::empty();
    let mut cursor: usize = 0;
    while cursor < s.len()
        invariant
            s@ == source@,
            newline@ == seq!['\n'],
            directive@ == diagnostic_open(),
            done + lines_from(s@, cursor as int) == lines(s@),
            out@ == join_lines(kept_lines(done)),
            any == (kept_lines(done).len() > 0),
        decreases s.len() - cursor,
    {
        proof {
            lemma_find_from_bounds(s@, seq!['\n'], cursor as int);
        }
        let (line, next) = match find_from_exec(&s, &newline, cursor) {
            None => (slice_chars(&s, cursor, s.len()), s.len()),
            Some(i) => {
                let raw = slice_chars(&s, cursor, i);
                let line = if raw.len() > 0 && raw[raw.len() - 1] == '\r' {
                    slice_chars(&raw, 0, raw.len() - 1)
                } else {
                    raw
                };
                (line, i + 1)
            },
        };
        assert(lines_from(s@, cursor as int) =~= seq![line@] + lines_from(s@, next as int));
        let trimmed = trim_start_exec(&line);
        if !matches_at_exec(&trimmed, &directive, 0) {
            proof {
                lemma_join_push(kept_lines(done), line@);
            }
            if any {
                out.push('\n');
            }
            push_all(&mut out, &line);
            any = true;
        }
        proof {
            assert(done.push(line@).drop_last() =~= done);
            done = done.push(line@);
        }
        cursor = next;
    }
    assert(lines_from(s@, cursor as int) =~= Seq::<Seq<char>>::empty());
    assert(done =~= lines(s@));
    string_from_chars(&out)
}

/// `texture_external`
pub open spec fn texture_external() -> Seq<char> {
    seq!['t', 'e', 'x', 't', 'u', 'r', 'e', '_', 'e', 'x', 't', 'e', 'r', 'n', 'a', 'l']
}

/// `texture_2d<f32>`
pub open spec fn texture_2d_f32() -> Seq<char> {
    seq!['t', 'e', 'x', 't', 'u', 'r', 'e', '_', '2', 'd', '<', 'f', '3', '2', '>']
}

/// `textureSampleBaseClampToEdge`
pub open spec fn sample_clamp_to_edge() -> Seq<char> {
    seq![
        't', 'e', 'x', 't', 'u', 'r', 'e', 'S', 'a', 'm', 'p', 'l', 'e', 'B', 'a', 's', 'e', 'C',
        'l', 'a', 'm', 'p', 'T', 'o', 'E', 'd', 'g', 'e',
    ]
}

/// `textureSample`
pub open spec fn texture_sample() -> Seq<char> {
    seq!['t', 'e', 'x', 't', 'u', 'r', 'e', 'S', 'a', 'm', 'p', 'l', 'e']
}

/// Every rewrite of the shader sanitiser that needs no float parsing:
/// directives dropped, `textureLoad` levels made signed, external textures
/// and their sampling function mapped to their 2D counterparts.
pub open spec fn sanitize_structure(s: Seq<char>) -> Seq<char> {
    replace_all(
        replace_all(texture_loads(strip_directives(s)), texture_external(), texture_2d_f32()),
        sample_clamp_to_edge(),
        texture_sample(),
    )
}

/// Applies the rewrites of `sanitize_structure`; the integer-cast
/// normalisation (`normalize_integer_cast` for `u32(` with suffix `u`, then
/// for `i32(` with suffix `i`) completes the sanitiser.
pub fn sanitize_wgsl_structure(source: &str) -> (r: String)
    ensures
        r@ == sanitize_structure(source@),
{
    let stripped = strip_diagnostic_directives(source);
    let s = chars_of(stripped.as_str());
    let loads = texture_loads_exec(&s);
    let from1 = vec![
        't', 'e', 'x', 't', 'u', 'r', 'e', '_', 'e', 'x', 't', 'e', 'r', 'n', 'a', 'l',
    ];
    assert(from1@ =~= texture_external());
    let to1 = vec!['t', 'e', 'x', 't', 'u', 'r', 'e', '_', '2', 'd', '<', 'f', '3', '2', '>'];
    assert(to1@ =~= texture_2d_f32());
    let step = replace_all_exec(&loads, &from1, &to1);
    let from2 = vec![
        't', 'e', 'x', 't', 'u', 'r', 'e', 'S', 'a', 'm', 'p', 'l', 'e', 'B', 'a', 's', 'e', 'C',
        'l', 'a', 'm', 'p', 'T', 'o', 'E', 'd', 'g', 'e',
    ];
    assert(from2@ =~= sample_clamp_to_edge());
    let to2 = vec!['t', 'e', 'x', 't', 'u', 'r', 'e', 'S', 'a', 'm', 'p', 'l', 'e'];
    assert(to2@ =~= texture_sample());
    let done = replace_all_exec(&step, &from2, &to2);
    string_from_chars(&done)
}


/// `f` can answer `value` for `literal`.
pub open spec fn value_from<F: Fn(&str) -> Option<i64>>(f: F, literal: Seq<char>, value: Option<i64>) -> bool {
    exists|s: &str| s@ == literal && #[trigger] f.ensures((s,), value)
}

/// `values` holds, literal by literal, an answer of `f`.
pub open spec fn values_from<F: Fn(&str) -> Option<i64>>(
    f: F,
    literals: Seq<Seq<char>>,
    values: Seq<Option<i64>>,
) -> bool {
    &&& values.len() == literals.len()
    &&& forall|k: int| 0 <= k < values.len() ==> #[trigger] value_from(f, literals[k], values[k])
}

/// The text of each string.
pub open spec fn texts(strings: Seq<String>) -> Seq<Seq<char>> {
    strings.map_values(|t: String| t@)
}

/// Asks `integral_value` for the integer value of each literal, in order.
pub fn literal_values<F: Fn(&str) -> Option<i64>>(literals: &Vec<String>, integral_value: &F) -> (r: Vec<
    Option<i64>,
>)
    requires
        forall|s: &str| #[trigger] integral_value.requires((s,)),
    ensures
        values_from(*integral_value, texts(literals@), r@),
{
    let mut out: Vec<Option<i64>> = Vec::new();
    let mut k: usize = 0;
    while k < literals.len()
        invariant
            k <= literals@.len(),
            out@.len() == k,
            forall|s: &str| #[trigger] integral_value.requires((s,)),
            forall|j: int| 0 <= j < k ==> #[trigger] value_from(*integral_value, literals@[j]@, out@[j]),
        decreases literals.len() - k,
    {
        let text = literals[k].as_str();
        let value = integral_value(text);
        proof {
            assert(value_from(*integral_value, literals@[k as int]@, value));
        }
        out.push(value);
        k = k + 1;
    }
    proof {
        assert forall|j: int| 0 <= j < out@.len() implies #[trigger] value_from(
            *integral_value,
            texts(literals@)[j],
            out@[j],
        ) by {
            assert(texts(literals@)[j] == literals@[j]@);
        }
    }
    out
}

/// Replaces each call of `function` (such as `u32(`) whose argument looks
/// like a float literal (it holds `.`, `e` or `E`) by an integer literal
/// followed by `suffix`, when `integral_value` gives the literal's integer
/// value; calls it answers `None` for stay as written. `integral_value`
/// stands for float parsing: `Some(v)` when the literal is a finite float
/// without a fractional part, `v` being that float converted to `i64`.
pub fn normalize_integer_cast<F: Fn(&str) -> Option<i64>>(
    source: &str,
    function: &str,
    suffix: &str,
    integral_value: &F,
) -> (r: String)
    requires
        function@.len() > 0,
        forall|s: &str| #[trigger] integral_value.requires((s,)),
    ensures
        exists|values: Seq<Option<i64>>|
            values_from(*integral_value, cast_candidates(source@, function@), values) && r@
                == #[trigger] cast_rewrite(source@, function@, suffix@, values),
{
    let literals = cast_literals(source, function);
    proof {
        assert(texts(literals@) =~= cast_candidates(source@, function@));
    }
    let values = literal_values(&literals, integral_value);
    let r = rewrite_integer_casts(source, function, suffix, values.as_slice());
    proof {
        assert(values_from(*integral_value, cast_candidates(source@, function@), values@));
    }
    r
}

/// The two integer-cast passes of the sanitiser: `u32(..)` literals get the
/// suffix `u`, then `i32(..)` literals the suffix `i`.
pub open spec fn cast_passes<F: Fn(&str) -> Option<i64>>(
    f: F,
    s: Seq<char>,
    unsigned: Seq<Option<i64>>,
    signed: Seq<Option<i64>>,
    r: Seq<char>,
) -> bool {
    let first = cast_rewrite(s, u32_open(), seq!['u'], unsigned);
    &&& values_from(f, cast_candidates(s, u32_open()), unsigned)
    &&& values_from(f, cast_candidates(first, i32_open()), signed)
    &&& r == cast_rewrite(first, i32_open(), seq!['i'], signed)
}

/// Turns integral float literals in `u32(..)` and `i32(..)` casts into
/// integer literals (`u32(1.0)` becomes `1u`, `i32(2.0)` becomes `2i`).
pub fn normalize_abstract_integer_casts<F: Fn(&str) -> Option<i64>>(
    source: &str,
    integral_value: &F,
) -> (r: String)
    requires
        forall|s: &str| #[trigger] integral_value.requires((s,)),
    ensures
        exists|unsigned: Seq<Option<i64>>, signed: Seq<Option<i64>>|
            #[trigger] cast_passes(*integral_value, source@, unsigned, signed, r@),
{
    let u32_call = "u32(";
    let i32_call = "i32(";
    let u_suffix = "u";
    let i_suffix = "i";
    proof {
        reveal_strlit("u32(");
        reveal_strlit("i32(");
        reveal_strlit("u");
        reveal_strlit("i");
        assert(u32_call@ =~= u32_open());
        assert(i32_call@ =~= i32_open());
        assert(u_suffix@ =~= seq!['u']);
        assert(i_suffix@ =~= seq!['i']);
    }
    let first = normalize_integer_cast(source, u32_call, u_suffix, integral_value);
    let r = normalize_integer_cast(first.as_str(), i32_call, i_suffix, integral_value);
    proof {
        let unsigned = choose|values: Seq<Option<i64>>|
            values_from(*integral_value, cast_candidates(source@, u32_open()), values) && first@
                == #[trigger] cast_rewrite(source@, u32_open(), seq!['u'], values);
        let signed = choose|values: Seq<Option<i64>>|
            values_from(*integral_value, cast_candidates(first@, i32_open()), values) && r@
                == #[trigger] cast_rewrite(first@, i32_open(), seq!['i'], values);
        assert(cast_passes(*integral_value, source@, unsigned, signed, r@));
    }
    r
}

/// Rewrites a Three.js-generated WGSL shader so that the native shader
/// compiler accepts it: the rewrites of `sanitize_structure`, then the two
/// integer-cast passes.
pub fn sanitize_wgsl<F: Fn(&str) -> Option<i64>>(source: &str, integral_value: &F) -> (r: String)
    requires
        forall|s: &str| #[trigger] integral_value.requires((s,)),
    ensures
        exists|unsigned: Seq<Option<i64>>, signed: Seq<Option<i64>>|
            #[trigger] cast_passes(*integral_value, sanitize_structure(source@), unsigned, signed, r@),
{
    let structured = sanitize_wgsl_structure(source);
    normalize_abstract_integer_casts(structured.as_str(), integral_value)
}

} // verus!

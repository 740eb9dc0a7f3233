//! Character-level helpers shared by the credential-file and helper-output
//! parsers: escaped quoted strings, literal matching, lexicographic order,
//! trimming and path joining. Every executable function returns exactly what
//! its specification-level counterpart computes.
use vstd::prelude::*;
use vstd::string::StrSliceExecFns;
use vstd::string::StringExecFns;

verus! {

/// Relies on String::push: appends the given character to the end of the string.
#[verifier::external_body]
pub(crate) fn push_char(s: &mut String, c: char)
    ensures
        final(s)@ == old(s)@.push(c),
{
    s.push(c)
}

// ---------------------------------------------------------------------------
// Lexicographic order on character sequences (by unicode scalar value).
// ---------------------------------------------------------------------------
pub open spec fn lex_lt(a: Seq<char>, b: Seq<char>) -> bool
    decreases a.len(),
{
    if b.len() == 0 {
        false
    } else if a.len() == 0 {
        true
    } else if a[0] != b[0] {
        (a[0] as u32) < (b[0] as u32)
    } else {
        lex_lt(a.skip(1), b.skip(1))
    }
}

/// `a` comes no later than `b`: strictly smaller, or equal.
pub open spec fn lex_le(a: Seq<char>, b: Seq<char>) -> bool {
    a == b || lex_lt(a, b)
}

pub fn str_lt(a: &str, b: &str) -> (r: bool)
    ensures
        r == lex_lt(a@, b@),
    decreases a@.len(),
{
    let alen = a.unicode_len();
    let blen = b.unicode_len();
    if blen == 0 {
        false
    } else if alen == 0 {
        true
    } else {
        let ca = a.get_char(0);
        let cb = b.get_char(0);
        if ca != cb {
            (ca as u32) < (cb as u32)
        } else {
            let r = str_lt(a.substring_char(1, alen), b.substring_char(1, blen));
            proof {
                assert(a@.subrange(1, alen as int) =~= a@.skip(1));
                assert(b@.subrange(1, blen as int) =~= b@.skip(1));
            }
            r
        }
    }
}

// ---------------------------------------------------------------------------
// Literal matching: consume an expected prefix, hand back the remainder.
// ---------------------------------------------------------------------------
pub open spec fn spec_parse_lit(s: Seq<char>, lit: Seq<char>) -> Option<Seq<char>>
    decreases lit.len(),
{
    if lit.len() == 0 {
        Some(s)
    } else if s.len() == 0 {
        None
    } else if s[0] == lit[0] {
        spec_parse_lit(s.skip(1), lit.skip(1))
    } else {
        None
    }
}

pub fn parse_lit<'a>(s: &'a str, lit: &str) -> (r: Option<&'a str>)
    ensures
        match r {
            Some(rest) => spec_parse_lit(s@, lit@) == Some(rest@),
            None => spec_parse_lit(s@, lit@) is None,
        },
    decreases lit@.len(),
{
    let litlen = lit.unicode_len();
    if litlen == 0 {
        Some(s)
    } else {
        let slen = s.unicode_len();
        if slen == 0 {
            None
        } else if s.get_char(0) == lit.get_char(0) {
            let r = parse_lit(s.substring_char(1, slen), lit.substring_char(1, litlen));
            proof {
                assert(s@.subrange(1, slen as int) =~= s@.skip(1));
                assert(lit@.subrange(1, litlen as int) =~= lit@.skip(1));
            }
            r
        } else {
            None
        }
    }
}

/// Matching a literal against itself followed by anything strips the literal.
pub proof fn lemma_parse_lit_prefix(lit: Seq<char>, rest: Seq<char>)
    ensures
        spec_parse_lit(lit + rest, lit) == Some(rest),
    decreases lit.len(),
{
    let s = lit + rest;
    if lit.len() == 0 {
        assert(s =~= rest);
    } else {
        assert(s[0] == lit[0]);
        assert(s.skip(1) =~= lit.skip(1) + rest);
        lemma_parse_lit_prefix(lit.skip(1), rest);
    }
}

// ---------------------------------------------------------------------------
// Escaped strings. A value is written between double quotes; the characters
// backslash, double quote and newline are escaped as \\ , \" and \n, every
// other character stands for itself.
// ---------------------------------------------------------------------------
pub open spec fn spec_escape_char(c: char) -> Seq<char> {
    if c == '\\' {
        seq!['\\', '\\']
    } else if c == '"' {
        seq!['\\', '"']
    } else if c == '\n' {
        seq!['\\', 'n']
    } else {
        seq![c]
    }
}

pub open spec fn spec_escape(s: Seq<char>) -> Seq<char>
    decreases s.len(),
{
    if s.len() == 0 {
        Seq::empty()
    } else {
        spec_escape_char(s[0]) + spec_escape(s.skip(1))
    }
}

pub open spec fn spec_unescape_char(c: char) -> Option<char> {
    if c == '\\' {
        Some('\\')
    } else if c == '"' {
        Some('"')
    } else if c == 'n' {
        Some('\n')
    } else {
        None
    }
}

/// Reads an escaped value up to and beyond its closing double quote; the
/// opening quote must already have been consumed. Returns the decoded value
/// and the remainder after the closing quote.
pub open spec fn spec_parse_quoted(s: Seq<char>) -> Option<(Seq<char>, Seq<char>)>
    decreases s.len(),
{
    if s.len() == 0 {
        None
    } else if s[0] == '"' {
        Some((Seq::empty(), s.skip(1)))
    } else if s[0] == '\n' {
        None
    } else if s[0] == '\\' {
        if s.len() < 2 {
            None
        } else {
            match spec_unescape_char(s[1]) {
                None => None,
                Some(c) => match spec_parse_quoted(s.skip(2)) {
                    None => None,
                    Some((v, rest)) => Some((seq![c] + v, rest)),
                },
            }
        }
    } else {
        match spec_parse_quoted(s.skip(1)) {
            None => None,
            Some((v, rest)) => Some((seq![s[0]] + v, rest)),
        }
    }
}

pub fn parse_quoted<'a>(s: &'a str) -> (r: Option<(String, &'a str)>)
    ensures
        match r {
            Some(p) => spec_parse_quoted(s@) == Some((p.0@, p.1@)),
            None => spec_parse_quoted(s@) is None,
        },
    decreases s@.len(),
{
    let slen = s.unicode_len();
    if slen == 0 {
        None
    } else {
        let c0 = s.get_char(0);
        if c0 == '"' {
            let rest = s.substring_char(1, slen);
            proof {
                assert(s@.subrange(1, slen as int) =~= s@.skip(1));
            }
            Some((String::new(), rest))
        } else if c0 == '\n' {
            None
        } else if c0 == '\\' {
            if slen < 2 {
                None
            } else {
                let c1 = s.get_char(1);
                let dec = if c1 == '\\' {
                    Some('\\')
                } else if c1 == '"' {
                    Some('"')
                } else if c1 == 'n' {
                    Some('\n')
                } else {
                    None
                };
                match dec {
                    None => None,
                    Some(c) => {
                        proof {
                            assert(s@.subrange(2, slen as int) =~= s@.skip(2));
                        }
                        match parse_quoted(s.substring_char(2, slen)) {
                            None => None,
                            Some((v, rest)) => {
                                let mut out = String::new();
                                push_char(&mut out, c);
                                out.append(v.as_str());
                                proof {
                                    assert(out@ =~= seq![c] + v@);
                                }
                                Some((out, rest))
                            },
                        }
                    },
                }
            }
        } else {
            proof {
                assert(s@.subrange(1, slen as int) =~= s@.skip(1));
            }
            match parse_quoted(s.substring_char(1, slen)) {
                None => None,
                Some((v, rest)) => {
                    let mut out = String::new();
                    push_char(&mut out, c0);
                    out.append(v.as_str());
                    proof {
                        assert(out@ =~= seq![c0] + v@);
                    }
                    Some((out, rest))
                },
            }
        }
    }
}

/// Parsing the escaped form of `v`, followed by the closing quote and any
/// remainder, decodes exactly `v` and leaves exactly the remainder.
pub proof fn lemma_parse_quoted_escape(v: Seq<char>, rest: Seq<char>)
    ensures
        spec_parse_quoted(spec_escape(v) + seq!['"'] + rest) == Some((v, rest)),
    decreases v.len(),
{
    let s = spec_escape(v) + seq!['"'] + rest;
    if v.len() == 0 {
        assert(spec_escape(v) =~= Seq::<char>::empty());
        assert(s[0] == '"');
        assert(s.skip(1) =~= rest);
    } else {
        let c = v[0];
        let tail = spec_escape(v.skip(1)) + seq!['"'] + rest;
        assert(spec_escape(v) == spec_escape_char(c) + spec_escape(v.skip(1)));
        lemma_parse_quoted_escape(v.skip(1), rest);
        if c == '\\' {
            assert(s[0] == '\\' && s[1] == '\\');
            assert(s.skip(2) =~= tail);
            assert(seq!['\\'] + v.skip(1) =~= v);
        } else if c == '"' {
            assert(s[0] == '\\' && s[1] == '"');
            assert(s.skip(2) =~= tail);
            assert(seq!['"'] + v.skip(1) =~= v);
        } else if c == '\n' {
            assert(s[0] == '\\' && s[1] == 'n');
            assert(s.skip(2) =~= tail);
            assert(seq!['\n'] + v.skip(1) =~= v);
        } else {
            assert(s[0] == c);
            assert(s.skip(1) =~= tail);
            assert(seq![c] + v.skip(1) =~= v);
        }
    }
}

/// Escapes a value for writing between double quotes.
pub fn escape_str(v: &str) -> (r: String)
    ensures
        r@ == spec_escape(v@),
    decreases v@.len(),
{
    let vlen = v.unicode_len();
    if vlen == 0 {
        let r = String::new();
        proof {
            assert(r@ =~= spec_escape(v@));
        }
        r
    } else {
        let c = v.get_char(0);
        proof {
            assert(v@.subrange(1, vlen as int) =~= v@.skip(1));
        }
        let tail = escape_str(v.substring_char(1, vlen));
        let mut out = String::new();
        if c == '\\' {
            push_char(&mut out, '\\');
            push_char(&mut out, '\\');
        } else if c == '"' {
            push_char(&mut out, '\\');
            push_char(&mut out, '"');
        } else if c == '\n' {
            push_char(&mut out, '\\');
            push_char(&mut out, 'n');
        } else {
            push_char(&mut out, c);
        }
        proof {
            assert(out@ =~= spec_escape_char(v@[0]));
        }
        out.append(tail.as_str());
        out
    }
}

// ---------------------------------------------------------------------------
// Whitespace trimming and path joining, used to resolve the pointer file.
// ---------------------------------------------------------------------------
pub open spec fn is_space(c: char) -> bool {
    c == ' ' || c == '\t' || c == '\r' || c == '\n'
}

pub open spec fn spec_trim_front(s: Seq<char>) -> Seq<char>
    decreases s.len(),
{
    if s.len() > 0 && is_space(s[0]) {
        spec_trim_front(s.skip(1))
    } else {
        s
    }
}

pub open spec fn spec_trim_back(s: Seq<char>) -> Seq<char>
    decreases s.len(),
{
    if s.len() > 0 && is_space(s.last()) {
        spec_trim_back(s.take(s.len() - 1))
    } else {
        s
    }
}

/// The sequence with leading and trailing whitespace removed.
pub open spec fn spec_trim(s: Seq<char>) -> Seq<char> {
    spec_trim_back(spec_trim_front(s))
}

fn trim_front<'a>(s: &'a str) -> (r: &'a str)
    ensures
        r@ == spec_trim_front(s@),
    decreases s@.len(),
{
    let slen = s.unicode_len();
    if slen > 0 {
        let c = s.get_char(0);
        if c == ' ' || c == '\t' || c == '\r' || c == '\n' {
            proof {
                assert(s@.subrange(1, slen as int) =~= s@.skip(1));
            }
            trim_front(s.substring_char(1, slen))
        } else {
            s
        }
    } else {
        s
    }
}

fn trim_back<'a>(s: &'a str) -> (r: &'a str)
    ensures
        r@ == spec_trim_back(s@),
    decreases s@.len(),
{
    let slen = s.unicode_len();
    if slen > 0 {
        let c = s.get_char(slen - 1);
        if c == ' ' || c == '\t' || c == '\r' || c == '\n' {
            proof {
                assert(s@.subrange(0, slen - 1 as int) =~= s@.take(s@.len() - 1));
            }
            trim_back(s.substring_char(0, slen - 1))
        } else {
            s
        }
    } else {
        s
    }
}

/// Removes leading and trailing whitespace.
pub fn trim<'a>(s: &'a str) -> (r: &'a str)
    ensures
        r@ == spec_trim(s@),
{
    trim_back(trim_front(s))
}

/// Joining a file name onto a base directory with a single separator; an
/// empty base yields the name alone.
pub open spec fn spec_join(base: Seq<char>, name: Seq<char>) -> Seq<char> {
    if base.len() == 0 {
        name
    } else {
        base + seq!['/'] + name
    }
}

pub fn join_path(base: &str, name: &str) -> (r: String)
    ensures
        r@ == spec_join(base@, name@),
{
    if base.unicode_len() == 0 {
        String::from_str(name)
    } else {
        let mut out = String::from_str(base);
        push_char(&mut out, '/');
        out.append(name);
        proof {
            assert(out@ =~= spec_join(base@, name@));
        }
        out
    }
}

} // verus!

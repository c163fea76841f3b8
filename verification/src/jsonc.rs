//! Removing `//` and `/* */` comments from JSON text, so that a strict JSON
//! parser accepts configuration files written with comments.

use vstd::prelude::*;
use vstd::std_specs::iter::IteratorSpec;
use crate::text::push_char;

verus! {

/// What the text at a position is part of.
pub enum Lexical {
    /// Outside any string literal and any comment.
    Code,
    /// Inside a string literal.
    Text,
    /// Inside a string literal, directly after a backslash.
    Escaped,
    /// Inside a `//` comment.
    LineComment,
    /// Inside a `/* */` comment.
    BlockComment,
}

/// Whether the character after position `i` of `s` is `d`.
pub open spec fn followed_by(s: Seq<char>, i: int, d: char) -> bool {
    i + 1 < s.len() && s[i + 1] == d
}

/// What is left of `s` from position `i` on, read in `mode`, once comments are
/// removed.
///
/// A string literal runs from a `"` to the next `"` that no backslash
/// escapes, and is kept whole. Outside literals, `//` opens a comment that
/// ends before the next line feed (the line feed stays), and `/*` opens a
/// comment that ends with the next `*/` or, without one, at the end of the
/// text. A `/` followed by anything else is kept.
pub open spec fn strip_from(s: Seq<char>, i: int, mode: Lexical) -> Seq<char>
    decreases s.len() - i,
{
    if i < 0 || i >= s.len() {
        Seq::empty()
    } else {
        let c = s[i];
        match mode {
            Lexical::Code => {
                if c == '"' {
                    seq![c] + strip_from(s, i + 1, Lexical::Text)
                } else if c == '/' && followed_by(s, i, '/') {
                    strip_from(s, i + 2, Lexical::LineComment)
                } else if c == '/' && followed_by(s, i, '*') {
                    strip_from(s, i + 2, Lexical::BlockComment)
                } else {
                    seq![c] + strip_from(s, i + 1, Lexical::Code)
                }
            },
            Lexical::Text => {
                if c == '\\' {
                    seq![c] + strip_from(s, i + 1, Lexical::Escaped)
                } else if c == '"' {
                    seq![c] + strip_from(s, i + 1, Lexical::Code)
                } else {
                    seq![c] + strip_from(s, i + 1, Lexical::Text)
                }
            },
            Lexical::Escaped => seq![c] + strip_from(s, i + 1, Lexical::Text),
            Lexical::LineComment => {
                if c == '\n' {
                    seq![c] + strip_from(s, i + 1, Lexical::Code)
                } else {
                    strip_from(s, i + 1, Lexical::LineComment)
                }
            },
            Lexical::BlockComment => {
                if c == '*' && followed_by(s, i, '/') {
                    strip_from(s, i + 2, Lexical::Code)
                } else {
                    strip_from(s, i + 1, Lexical::BlockComment)
                }
            },
        }
    }
}

/// The text `s` without its comments.
pub open spec fn stripped(s: Seq<char>) -> Seq<char> {
    strip_from(s, 0, Lexical::Code)
}

/// From any place on, and in any mode, what is left is no longer than the
/// text from that place on.
proof fn lemma_strip_from_is_short(s: Seq<char>, i: int, mode: Lexical)
    requires
        0 <= i <= s.len(),
    ensures
        strip_from(s, i, mode).len() <= s.len() - i,
    decreases s.len() - i,
{
    if i < s.len() {
        lemma_strip_from_is_short(s, i + 1, Lexical::Code);
        lemma_strip_from_is_short(s, i + 1, Lexical::Text);
        lemma_strip_from_is_short(s, i + 1, Lexical::Escaped);
        lemma_strip_from_is_short(s, i + 1, Lexical::LineComment);
        lemma_strip_from_is_short(s, i + 1, Lexical::BlockComment);
        if i + 1 < s.len() {
            lemma_strip_from_is_short(s, i + 2, Lexical::Code);
            lemma_strip_from_is_short(s, i + 2, Lexical::LineComment);
            lemma_strip_from_is_short(s, i + 2, Lexical::BlockComment);
        }
    }
}

/// Removing comments only removes: the result is never longer than the
/// text.
pub proof fn stripping_never_adds(s: Seq<char>)
    ensures
        stripped(s).len() <= s.len(),
{
    lemma_strip_from_is_short(s, 0, Lexical::Code);
}

/// Without a slash, no comment opens: outside comments, what is left from a
/// place on is the text from that place on.
proof fn lemma_no_slash_no_comment(s: Seq<char>, i: int, mode: Lexical)
    requires
        0 <= i <= s.len(),
        !s.contains('/'),
        mode is Code || mode is Text || mode is Escaped,
    ensures
        strip_from(s, i, mode) == s.skip(i),
    decreases s.len() - i,
{
    if i < s.len() {
        assert(s.contains(s[i]));
        lemma_no_slash_no_comment(s, i + 1, Lexical::Code);
        lemma_no_slash_no_comment(s, i + 1, Lexical::Text);
        lemma_no_slash_no_comment(s, i + 1, Lexical::Escaped);
        assert(s.skip(i) =~= seq![s[i]] + s.skip(i + 1));
    } else {
        assert(s.skip(i) =~= Seq::<char>::empty());
    }
}

/// A text without a slash holds no comment, and is left as it is.
pub proof fn text_without_slash_is_unchanged(s: Seq<char>)
    requires
        !s.contains('/'),
    ensures
        stripped(s) == s,
{
    lemma_no_slash_no_comment(s, 0, Lexical::Code);
    assert(s.skip(0) =~= s);
}

/// The state of the one-pass scanner: a lexical mode, or one of the two
/// places where the next character decides what the last one meant.
enum Scan {
    Code,
    /// A `/` was read in code and not yet written.
    Slash,
    Text,
    Escaped,
    Line,
    Block,
    /// A `*` was read inside a block comment.
    BlockStar,
}

/// What the scanner still owes the output when it has read `i` characters of
/// `s` and stands in `scan`.
spec fn owed(s: Seq<char>, i: int, scan: Scan) -> Seq<char> {
    match scan {
        Scan::Code => strip_from(s, i, Lexical::Code),
        Scan::Slash => strip_from(s, i - 1, Lexical::Code),
        Scan::Text => strip_from(s, i, Lexical::Text),
        Scan::Escaped => strip_from(s, i, Lexical::Escaped),
        Scan::Line => strip_from(s, i, Lexical::LineComment),
        Scan::Block => strip_from(s, i, Lexical::BlockComment),
        Scan::BlockStar => strip_from(s, i - 1, Lexical::BlockComment),
    }
}

/// What the scanner knows of the character before position `i`.
spec fn behind(s: Seq<char>, i: int, scan: Scan) -> bool {
    match scan {
        Scan::Slash => i >= 1 && s[i - 1] == '/',
        Scan::BlockStar => i >= 1 && s[i - 1] == '*',
        _ => true,
    }
}

/// The scanner's move on reading `c` in `scan`: the next state and what is
/// written.
spec fn scan_step(scan: Scan, c: char) -> (Scan, Seq<char>) {
    match scan {
        Scan::Code => {
            if c == '/' {
                (Scan::Slash, Seq::empty())
            } else if c == '"' {
                (Scan::Text, seq![c])
            } else {
                (Scan::Code, seq![c])
            }
        },
        Scan::Slash => {
            if c == '/' {
                (Scan::Line, Seq::empty())
            } else if c == '*' {
                (Scan::Block, Seq::empty())
            } else if c == '"' {
                (Scan::Text, seq!['/', c])
            } else {
                (Scan::Code, seq!['/', c])
            }
        },
        Scan::Text => {
            if c == '\\' {
                (Scan::Escaped, seq![c])
            } else if c == '"' {
                (Scan::Code, seq![c])
            } else {
                (Scan::Text, seq![c])
            }
        },
        Scan::Escaped => (Scan::Text, seq![c]),
        Scan::Line => {
            if c == '\n' {
                (Scan::Code, seq![c])
            } else {
                (Scan::Line, Seq::empty())
            }
        },
        Scan::Block => {
            if c == '*' {
                (Scan::BlockStar, Seq::empty())
            } else {
                (Scan::Block, Seq::empty())
            }
        },
        Scan::BlockStar => {
            if c == '/' {
                (Scan::Code, Seq::empty())
            } else if c == '*' {
                (Scan::BlockStar, Seq::empty())
            } else {
                (Scan::Block, Seq::empty())
            }
        },
    }
}

/// One move of the scanner pays what it owes for the character it read.
proof fn lemma_scan_step(s: Seq<char>, i: int, scan: Scan)
    requires
        0 <= i < s.len(),
        behind(s, i, scan),
    ensures
        behind(s, i + 1, scan_step(scan, s[i]).0),
        owed(s, i, scan) == scan_step(scan, s[i]).1 + owed(s, i + 1, scan_step(scan, s[i]).0),
{
    let c = s[i];
    let (after, written) = scan_step(scan, c);
    match scan {
        Scan::Slash => {
            assert(owed(s, i, scan) == strip_from(s, i - 1, Lexical::Code));
            if c != '/' && c != '*' {
                assert(strip_from(s, i - 1, Lexical::Code) == seq!['/'] + strip_from(
                    s,
                    i,
                    Lexical::Code,
                ));
                assert(seq!['/'] + (seq![c] + owed(s, i + 1, after)) =~= seq!['/', c] + owed(
                    s,
                    i + 1,
                    after,
                ));
            }
        },
        Scan::BlockStar => {
            assert(owed(s, i, scan) == strip_from(s, i - 1, Lexical::BlockComment));
            if c != '/' {
                assert(strip_from(s, i - 1, Lexical::BlockComment) == strip_from(
                    s,
                    i,
                    Lexical::BlockComment,
                ));
            }
        },
        _ => {},
    }
    assert(owed(s, i, scan) =~= written + owed(s, i + 1, after));
}

/// At the end of the text the scanner owes a `/` it held back, and nothing
/// else.
proof fn lemma_scan_end(s: Seq<char>, scan: Scan)
    requires
        behind(s, s.len() as int, scan),
    ensures
        owed(s, s.len() as int, scan) == if scan is Slash {
            seq!['/']
        } else {
            Seq::<char>::empty()
        },
{
    let n = s.len() as int;
    assert(strip_from(s, n, Lexical::Code) =~= Seq::<char>::empty());
    assert(strip_from(s, n, Lexical::BlockComment) =~= Seq::<char>::empty());
    match scan {
        Scan::Slash => {
            assert(strip_from(s, n - 1, Lexical::Code) =~= seq!['/']);
        },
        Scan::BlockStar => {
            assert(strip_from(s, n - 1, Lexical::BlockComment) =~= Seq::<char>::empty());
        },
        _ => {},
    }
}

/// Strips `//` and `/* */` comments from JSON text and leaves string
/// literals untouched.
pub fn strip_json_comments(input: &str) -> (result: String)
    ensures
        result@ == stripped(input@),
{
    let ghost s = input@;
    let mut result = String::new();
    let mut scan = Scan::Code;
    let mut chars = input.chars();
    let ghost mut i: int = 0;
    loop
        invariant
            s == input@,
            0 <= i <= s.len(),
            chars.obeys_prophetic_iter_laws(),
            chars.remaining() == s.skip(i),
            behind(s, i, scan),
            stripped(s) == result@ + owed(s, i, scan),
        decreases s.len() - i,
    {
        let next = chars.next();
        match next {
            None => {
                proof {
                    lemma_scan_end(s, scan);
                }
                match scan {
                    Scan::Slash => {
                        push_char(&mut result, '/');
                    },
                    _ => {},
                }
                assert(result@ =~= stripped(s));
                return result;
            },
            Some(c) => {
                assert(c == s[i]);
                assert(s.skip(i).drop_first() =~= s.skip(i + 1));
                let ghost before = result@;
                let ghost scan_before = scan;
                proof {
                    lemma_scan_step(s, i, scan);
                }
                match scan {
                    Scan::Code => {
                        if c == '/' {
                            scan = Scan::Slash;
                        } else {
                            push_char(&mut result, c);
                            if c == '"' {
                                scan = Scan::Text;
                            }
                        }
                    },
                    Scan::Slash => {
                        if c == '/' {
                            scan = Scan::Line;
                        } else if c == '*' {
                            scan = Scan::Block;
                        } else {
                            push_char(&mut result, '/');
                            push_char(&mut result, c);
                            if c == '"' {
                                scan = Scan::Text;
                            } else {
                                scan = Scan::Code;
                            }
                        }
                    },
                    Scan::Text => {
                        push_char(&mut result, c);
                        if c == '\\' {
                            scan = Scan::Escaped;
                        } else if c == '"' {
                            scan = Scan::Code;
                        }
                    },
                    Scan::Escaped => {
                        push_char(&mut result, c);
                        scan = Scan::Text;
                    },
                    Scan::Line => {
                        if c == '\n' {
                            push_char(&mut result, c);
                            scan = Scan::Code;
                        }
                    },
                    Scan::Block => {
                        if c == '*' {
                            scan = Scan::BlockStar;
                        }
                    },
                    Scan::BlockStar => {
                        if c == '/' {
                            scan = Scan::Code;
                        } else if c != '*' {
                            scan = Scan::Block;
                        }
                    },
                }
                proof {
                    assert(scan == scan_step(scan_before, c).0);
                    assert(result@ =~= before + scan_step(scan_before, c).1);
                    i = i + 1;
                    assert(stripped(s) =~= result@ + owed(s, i, scan));
                }
            },
        }
    }
}

} // verus!

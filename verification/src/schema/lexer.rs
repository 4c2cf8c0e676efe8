//! The notation of a permission tree, from text to tokens.
//!
//! Tokens are names, made of ASCII letters, digits and `_` and not beginning
//! with a digit; the signs `=>`, `;`, `{` and `}`; and texts between double
//! quotes, in which `\"`, `\\`, `\n` and `\t` stand for a double quote, a
//! backslash, a line feed and a tab. Spaces, tabs and line ends separate
//! tokens and mean nothing else.

use vstd::prelude::*;
use vstd::string::StringExecFns;
use crate::error::Error;
use crate::schema::node::Tree;
use crate::schema::notation::{parse_tree, tree_of, TokenView, TreeToken};

verus! {

/// Whether `c` separates tokens.
pub open spec fn is_space(c: char) -> bool {
    c == ' ' || c == '\t' || c == '\n' || c == '\r'
}

/// Whether a name can begin with `c`.
pub open spec fn starts_name(c: char) -> bool {
    ('a' <= c && c <= 'z') || ('A' <= c && c <= 'Z') || c == '_'
}

/// Whether a name can go on with `c`.
pub open spec fn continues_name(c: char) -> bool {
    starts_name(c) || ('0' <= c && c <= '9')
}

/// What `\` and `c` stand for in a text, if anything.
pub open spec fn escaped(c: char) -> Option<char> {
    if c == '"' {
        Some('"')
    } else if c == '\\' {
        Some('\\')
    } else if c == 'n' {
        Some('\n')
    } else if c == 't' {
        Some('\t')
    } else {
        None
    }
}

/// The position behind the name characters that stand from `from` on.
pub open spec fn name_end(text: Seq<char>, from: int) -> int
    decreases text.len() - from,
{
    if 0 <= from < text.len() && continues_name(text[from]) {
        name_end(text, from + 1)
    } else {
        from
    }
}

/// The text that goes on at `from`, behind its opening quote, and the
/// position behind its closing quote; or the position where it goes wrong:
/// that of a character that no `\` can stand before, or the end where the
/// closing quote is missing.
pub open spec fn quoted_from(text: Seq<char>, from: int) -> Result<(Seq<char>, int), int>
    decreases text.len() - from,
{
    if from < 0 || from >= text.len() {
        Err(text.len() as int)
    } else if text[from] == '"' {
        Ok((Seq::empty(), from + 1))
    } else if text[from] == '\\' {
        if from + 1 < text.len() && escaped(text[from + 1]) is Some {
            match quoted_from(text, from + 2) {
                Ok((rest, end)) => Ok((seq![escaped(text[from + 1])->0] + rest, end)),
                Err(at) => Err(at),
            }
        } else {
            Err(from + 1)
        }
    } else {
        match quoted_from(text, from + 1) {
            Ok((rest, end)) => Ok((seq![text[from]] + rest, end)),
            Err(at) => Err(at),
        }
    }
}

/// `token` before the tokens that follow, or the failure of those.
pub open spec fn before(token: TokenView, rest: Result<Seq<TokenView>, int>) -> Result<
    Seq<TokenView>,
    int,
> {
    match rest {
        Ok(tokens) => Ok(seq![token] + tokens),
        Err(at) => Err(at),
    }
}

/// The tokens of `text` from `from` on, or the position of the first
/// character that begins no token.
pub open spec fn tokens_from(text: Seq<char>, from: int) -> Result<Seq<TokenView>, int>
    decreases text.len() - from,
{
    if from < 0 || from >= text.len() {
        Ok(Seq::empty())
    } else {
        let c = text[from];
        if is_space(c) {
            tokens_from(text, from + 1)
        } else if c == ';' {
            before(TokenView::Semicolon, tokens_from(text, from + 1))
        } else if c == '{' {
            before(TokenView::Open, tokens_from(text, from + 1))
        } else if c == '}' {
            before(TokenView::Close, tokens_from(text, from + 1))
        } else if c == '=' {
            if from + 1 < text.len() && text[from + 1] == '>' {
                before(TokenView::Arrow, tokens_from(text, from + 2))
            } else {
                Err(from)
            }
        } else if c == '"' {
            match quoted_from(text, from + 1) {
                Ok((content, end)) => {
                    if from < end <= text.len() {
                        before(TokenView::Text(content), tokens_from(text, end))
                    } else {
                        Err(end)
                    }
                },
                Err(at) => Err(at),
            }
        } else if starts_name(c) {
            let end = name_end(text, from + 1);
            if from < end <= text.len() {
                before(TokenView::Ident(text.subrange(from, end)), tokens_from(text, end))
            } else {
                Err(end)
            }
        } else {
            Err(from)
        }
    }
}

/// The end of a name lies behind its beginning and within the text.
pub proof fn lemma_name_end_bounds(text: Seq<char>, from: int)
    requires
        0 <= from <= text.len(),
    ensures
        from <= name_end(text, from) <= text.len(),
    decreases text.len() - from,
{
    if from < text.len() && continues_name(text[from]) {
        lemma_name_end_bounds(text, from + 1);
    }
}

/// The end of a text lies behind its beginning and within the text.
pub proof fn lemma_quoted_bounds(text: Seq<char>, from: int)
    requires
        0 <= from <= text.len(),
    ensures
        match quoted_from(text, from) {
            Ok((_, end)) => from < end <= text.len(),
            Err(at) => from <= at <= text.len(),
        },
    decreases text.len() - from,
{
    if from < text.len() && text[from] != '"' {
        if text[from] == '\\' {
            if from + 1 < text.len() && escaped(text[from + 1]) is Some {
                lemma_quoted_bounds(text, from + 2);
            }
        } else {
            lemma_quoted_bounds(text, from + 1);
        }
    }
}

/// Whether a name can begin with `c`.
fn may_start_name(c: char) -> (r: bool)
    ensures
        r == starts_name(c),
{
    (c >= 'a' && c <= 'z') || (c >= 'A' && c <= 'Z') || c == '_'
}

/// Whether a name can go on with `c`.
fn may_continue_name(c: char) -> (r: bool)
    ensures
        r == continues_name(c),
{
    may_start_name(c) || (c >= '0' && c <= '9')
}

/// The position behind the name characters that stand from `from` on.
fn scan_name(text: &str, from: usize) -> (r: usize)
    requires
        from <= text@.len(),
    ensures
        r == name_end(text@, from as int),
        from <= r <= text@.len(),
{
    let total = text.unicode_len();
    let mut at = from;
    while at < total && may_continue_name(text.get_char(at))
        invariant
            from <= at <= total,
            total == text@.len(),
            name_end(text@, from as int) == name_end(text@, at as int),
        decreases total - at,
    {
        at += 1;
    }
    at
}

/// Reads the text that goes on at `from`, behind its opening quote.
fn scan_quoted(text: &str, from: usize) -> (r: Result<(String, usize), usize>)
    requires
        from <= text@.len(),
    ensures
        match quoted_from(text@, from as int) {
            Ok((content, end)) => r matches Ok((read, stop)) && read@ == content && stop == end,
            Err(at) => r matches Err(stop) && stop == at,
        },
{
    proof {
        reveal_strlit("\"");
        reveal_strlit("\\");
        reveal_strlit("\n");
        reveal_strlit("\t");
    }
    let total = text.unicode_len();
    let mut out = String::new();
    let mut at = from;
    loop
        invariant
            from <= at <= total,
            total == text@.len(),
            "\""@ == seq!['"'],
            "\\"@ == seq!['\\'],
            "\n"@ == seq!['\n'],
            "\t"@ == seq!['\t'],
            quoted_from(text@, from as int) == match quoted_from(text@, at as int) {
                Ok((rest, end)) => Ok::<(Seq<char>, int), int>((out@ + rest, end)),
                Err(stop) => Err::<(Seq<char>, int), int>(stop),
            },
        decreases total - at,
    {
        if at >= total {
            return Err(total);
        }
        let c = text.get_char(at);
        if c == '"' {
            assert(out@ + Seq::<char>::empty() =~= out@);
            return Ok((out, at + 1));
        }
        let ghost before = out@;
        if c == '\\' {
            if at + 1 >= total {
                return Err(at + 1);
            }
            let d = text.get_char(at + 1);
            if d == '"' {
                out.append("\"");
            } else if d == '\\' {
                out.append("\\");
            } else if d == 'n' {
                out.append("\n");
            } else if d == 't' {
                out.append("\t");
            } else {
                return Err(at + 1);
            }
            proof {
                let value = escaped(d)->0;
                assert(out@ =~= before + seq![value]);
                match quoted_from(text@, at + 2) {
                    Ok((rest, end)) => {
                        assert(before + (seq![value] + rest) =~= out@ + rest);
                    },
                    Err(_) => {},
                }
            }
            at += 2;
        } else {
            out.append(text.substring_char(at, at + 1));
            proof {
                assert(text@.subrange(at as int, at + 1) =~= seq![c]);
                assert(out@ =~= before + seq![c]);
                match quoted_from(text@, at + 1) {
                    Ok((rest, end)) => {
                        assert(before + (seq![c] + rest) =~= out@ + rest);
                    },
                    Err(_) => {},
                }
            }
            at += 1;
        }
    }
}

/// Reads `text` as tokens.
///
/// Fails with `UnexpectedToken`, carrying the position of the first character
/// that begins no token: a sign that the notation does not have, a character
/// that no `\` can stand before, or the end of `text` where a closing quote is
/// missing.
pub fn tokenize(text: &str) -> (r: Result<Vec<TreeToken>, Error>)
    ensures
        match tokens_from(text@, 0) {
            Ok(tokens) => r matches Ok(read) && read.deep_view() == tokens,
            Err(at) => r matches Err(Error::UnexpectedToken(stop)) && stop == at,
        },
{
    let total = text.unicode_len();
    let mut out: Vec<TreeToken> = Vec::new();
    let mut at: usize = 0;
    assert(out.deep_view() =~= Seq::<TokenView>::empty());
    while at < total
        invariant
            at <= total,
            total == text@.len(),
            tokens_from(text@, 0) == match tokens_from(text@, at as int) {
                Ok(rest) => Ok::<Seq<TokenView>, int>(out.deep_view() + rest),
                Err(stop) => Err::<Seq<TokenView>, int>(stop),
            },
        decreases total - at,
    {
        let c = text.get_char(at);
        let ghost before = out.deep_view();
        let ghost start = at as int;
        let (token, next) = if c == ' ' || c == '\t' || c == '\n' || c == '\r' {
            at += 1;
            continue ;
        } else if c == ';' {
            (TreeToken::Semicolon, at + 1)
        } else if c == '{' {
            (TreeToken::Open, at + 1)
        } else if c == '}' {
            (TreeToken::Close, at + 1)
        } else if c == '=' {
            if at + 1 < total && text.get_char(at + 1) == '>' {
                (TreeToken::Arrow, at + 2)
            } else {
                return Err(Error::UnexpectedToken(at));
            }
        } else if c == '"' {
            proof {
                lemma_quoted_bounds(text@, at + 1);
            }
            match scan_quoted(text, at + 1) {
                Ok((content, end)) => (TreeToken::Text(content), end),
                Err(stop) => {
                    return Err(Error::UnexpectedToken(stop));
                },
            }
        } else if may_start_name(c) {
            let end = scan_name(text, at + 1);
            (TreeToken::Ident(String::from_str(text.substring_char(at, end))), end)
        } else {
            return Err(Error::UnexpectedToken(at));
        };
        proof {
            assert(tokens_from(text@, start) == self::before(token@, tokens_from(text@, next as int)));
        }
        out.push(token);
        proof {
            assert(out.deep_view() =~= before + seq![token@]);
            match tokens_from(text@, next as int) {
                Ok(rest) => {
                    assert(before + (seq![token@] + rest) =~= out.deep_view() + rest);
                },
                Err(_) => {},
            }
        }
        at = next;
    }
    assert(out.deep_view() + Seq::<TokenView>::empty() =~= out.deep_view());
    Ok(out)
}

/// What `text` is the notation of: its tokens, read as a tree.
pub open spec fn tree_of_text(text: Seq<char>) -> Result<(Seq<char>, Seq<crate::schema::node::NodeView>), int> {
    match tokens_from(text, 0) {
        Ok(tokens) => tree_of(tokens),
        Err(at) => Err(at),
    }
}

impl Tree {
    /// Reads a tree from the text of its notation.
    ///
    /// Fails with `UnexpectedToken`: with the position of a character where
    /// `text` cannot be read as tokens, else with the position of a token
    /// where the tokens are no tree.
    pub fn parse(text: &str) -> (r: Result<Tree, Error>)
        ensures
            match tree_of_text(text@) {
                Ok((name, nodes)) => r matches Ok(tree) && tree.name@ == name && tree@ == nodes,
                Err(stop) => r matches Err(Error::UnexpectedToken(at)) && at == stop,
            },
    {
        match tokenize(text) {
            Ok(tokens) => parse_tree(&tokens),
            Err(error) => Err(error),
        }
    }
}

} // verus!

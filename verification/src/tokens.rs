use vstd::prelude::*;

verus! {

/// Delimiter of a token group.
#[derive(Clone, Copy, Debug, PartialEq, Eq, Structural)]
pub enum Delim {
    /// `( ... )`
    Paren,
    /// `[ ... ]`
    Bracket,
    /// `{ ... }`
    Brace,
    /// An invisible group, as macro expansion can introduce.
    Invisible,
}

/// One node of the attribute token grammar: the library's own form of a
/// macro token tree, carrying exactly what the option grammar reads.
#[derive(Debug, PartialEq, Eq)]
pub enum TokenNode {
    /// A word: an identifier or a keyword.
    Ident { text: String },
    /// A punctuation character; `joint` says that the next token follows
    /// with no space, so that multi-character operators can be told apart.
    Punct { ch: char, joint: bool },
    /// A literal, held as its source text (`"foo"`, `42`).
    Lit { text: String },
    /// A delimited group holding a nested token sequence.
    Group { delim: Delim, tokens: Vec<TokenNode> },
}

/// A string literal, held as its source text with the quotes kept
/// (`"A"`).
#[derive(Debug, PartialEq, Eq)]
pub struct StrLit {
    repr: String,
}

impl View for StrLit {
    type V = Seq<char>;

    closed spec fn view(&self) -> Seq<char> {
        self.repr@
    }
}

impl StrLit {
    /// Wrap a literal's source text.
    pub fn from_repr(repr: String) -> (r: Self)
        ensures
            r@ == repr@,
    {
        StrLit { repr }
    }

    /// The literal's source text, quotes kept.
    pub fn repr(&self) -> (r: &str)
        ensures
            r@ == self@,
    {
        self.repr.as_str()
    }
}

/// Does the text open a raw string after its `r`: zero or more `#`
/// marks, then a double quote?
pub open spec fn is_raw_str_tail(s: Seq<char>) -> bool
    decreases s.len(),
{
    s.len() > 0 && (s[0] == '"' || (s[0] == '#' && is_raw_str_tail(s.skip(1))))
}

/// The source text of a string literal opens with a double quote, or with
/// `r`, `#` marks and a double quote for the raw form.
pub open spec fn is_str_repr(s: Seq<char>) -> bool {
    s.len() > 0 && (s[0] == '"' || (s[0] == 'r' && is_raw_str_tail(s.skip(1))))
}

/// Is `t` a literal token whose source text opens like a string literal,
/// plain or raw?
pub open spec fn is_str_lit(t: TokenNode) -> bool {
    t matches TokenNode::Lit { text } && is_str_repr(text@)
}

/// Does the text open a raw string from position `from` on?
fn raw_str_tail_check(text: &str, from: usize) -> (r: bool)
    requires
        from <= text@.len(),
    ensures
        r == is_raw_str_tail(text@.skip(from as int)),
    decreases text@.len() - from,
{
    if from >= text.unicode_len() {
        return false;
    }
    let c = text.get_char(from);
    proof {
        assert(text@.skip(from as int)[0] == text@[from as int]);
        assert(text@.skip(from as int).skip(1) =~= text@.skip(from + 1));
    }
    if c == '"' {
        true
    } else if c == '#' {
        raw_str_tail_check(text, from + 1)
    } else {
        false
    }
}

/// Is `c` a decimal digit?
pub open spec fn is_dec_digit(c: char) -> bool {
    '0' <= c && c <= '9'
}

/// The value of a decimal digit.
pub open spec fn digit_val(c: char) -> nat {
    (c as int - '0' as int) as nat
}

/// The source text of a decimal integer literal: a digit first, then
/// digits with optional `_` separators.
pub open spec fn is_int_repr(s: Seq<char>) -> bool {
    s.len() > 0 && is_dec_digit(s[0]) && (forall|i: int|
        0 <= i < s.len() ==> is_dec_digit(#[trigger] s[i]) || s[i] == '_')
}

/// Is `t` a literal token that spells a decimal integer? Other literal
/// bases and suffixed spellings lie outside this grammar.
pub open spec fn is_int_lit(t: TokenNode) -> bool {
    t matches TokenNode::Lit { text } && is_int_repr(text@)
}

/// The source text of a literal node (empty for any other node).
pub open spec fn lit_text_of(t: TokenNode) -> Seq<char> {
    if t is Lit {
        t->Lit_text@
    } else {
        Seq::empty()
    }
}

/// The number that a decimal spelling stands for, `_` separators skipped.
pub open spec fn spec_dec_value(s: Seq<char>) -> nat
    decreases s.len(),
{
    if s.len() == 0 {
        0
    } else {
        let rest = spec_dec_value(s.drop_last());
        if s.last() == '_' {
            rest
        } else {
            rest * 10 + digit_val(s.last())
        }
    }
}

/// A longer decimal spelling never stands for a smaller number.
proof fn lemma_dec_value_monotone(s: Seq<char>, k: int)
    requires
        0 <= k <= s.len(),
    ensures
        spec_dec_value(s) >= spec_dec_value(s.take(k)),
    decreases s.len() - k,
{
    if k < s.len() {
        lemma_dec_value_monotone(s, k + 1);
        assert(s.take(k + 1).drop_last() =~= s.take(k));
        assert(s.take(k + 1).last() == s[k]);
        assert(spec_dec_value(s.take(k + 1)) >= spec_dec_value(s.take(k)));
    } else {
        assert(s.take(k) =~= s);
    }
}

/// Parse a decimal spelling into a 64-bit value, or report that the
/// number does not fit.
pub fn parse_dec_u64(text: &str) -> (r: Option<u64>)
    requires
        is_int_repr(text@),
    ensures
        (match r {
            Some(v) => v == spec_dec_value(text@) && spec_dec_value(text@) <= u64::MAX,
            None => spec_dec_value(text@) > u64::MAX,
        }),
{
    let n = text.unicode_len();
    let mut acc: u64 = 0;
    let mut i: usize = 0;
    proof {
        assert(text@.take(0).len() == 0);
    }
    while i < n
        invariant
            i <= n,
            n == text@.len(),
            is_int_repr(text@),
            acc == spec_dec_value(text@.take(i as int)),
        decreases n - i,
    {
        let c = text.get_char(i);
        proof {
            assert(text@.take(i + 1).drop_last() =~= text@.take(i as int));
            assert(text@.take(i + 1).last() == text@[i as int]);
        }
        if c == '_' {
        } else {
            proof {
                assert(is_dec_digit(text@[i as int]));
            }
            let d: u64 = (c as u32 - '0' as u32) as u64;
            let shifted = match acc.checked_mul(10) {
                Some(x) => x,
                None => {
                    proof {
                        lemma_dec_value_monotone(text@, i + 1);
                        assert(spec_dec_value(text@.take(i + 1)) > u64::MAX);
                    }
                    return None;
                },
            };
            let next = match shifted.checked_add(d) {
                Some(x) => x,
                None => {
                    proof {
                        lemma_dec_value_monotone(text@, i + 1);
                        assert(spec_dec_value(text@.take(i + 1)) > u64::MAX);
                    }
                    return None;
                },
            };
            acc = next;
        }
        i = i + 1;
    }
    proof {
        assert(text@.take(n as int) =~= text@);
    }
    Some(acc)
}

/// Does `t` hold the punctuation character `c`?
pub open spec fn is_punct_ch(t: TokenNode, c: char) -> bool {
    t matches TokenNode::Punct { ch, .. } && ch == c
}

/// Is `t` a parenthesised group?
pub open spec fn is_paren_group(t: TokenNode) -> bool {
    t matches TokenNode::Group { delim, .. } && delim is Paren
}

/// Is `t` a group with the given delimiter?
pub open spec fn is_group_with(t: TokenNode, d: Delim) -> bool {
    t matches TokenNode::Group { delim, .. } && delim == d
}

/// Is `t` the identifier spelled `s`?
pub open spec fn is_ident_text(t: TokenNode, s: Seq<char>) -> bool {
    t matches TokenNode::Ident { text } && text@ == s
}

/// Is `t` an identifier at all?
pub open spec fn is_ident(t: TokenNode) -> bool {
    t is Ident
}

/// Is `t` a punctuation character marked as jointly spaced with what follows?
pub open spec fn is_joint_punct_ch(t: TokenNode, c: char) -> bool {
    t matches TokenNode::Punct { ch, joint } && ch == c && joint
}

/// The spelling of an identifier node (empty for any other node).
pub open spec fn ident_text_of(t: TokenNode) -> Seq<char> {
    if t is Ident {
        t->Ident_text@
    } else {
        Seq::empty()
    }
}

/// Is `t` a group with a visible delimiter?
pub open spec fn is_visible_group(t: TokenNode) -> bool {
    t matches TokenNode::Group { delim, .. } && !(delim is Invisible)
}

/// The nested sequence of a group node (empty for any other node).
pub open spec fn group_contents(t: TokenNode) -> Seq<TokenNode> {
    if t is Group {
        t->tokens@
    } else {
        Seq::empty()
    }
}

/// Relies on `String::push`: appends the given character to the end of
/// the string.
pub assume_specification[ String::push ](s: &mut String, ch: char)
    ensures
        final(s)@ == old(s)@ + seq![ch],
;

/// Is `t` a punctuation token spaced jointly with what follows? Only such
/// a token suppresses the space before the next one.
pub open spec fn tok_is_joint(t: TokenNode) -> bool {
    t matches TokenNode::Punct { joint, .. } && joint
}

/// The display text of one token: identifiers and literals as their text,
/// puncts as their character, groups as their delimiters around their
/// contents, with a brace group keeping spaces inside the braces.
pub open spec fn spec_token_display(t: TokenNode) -> Seq<char>
    decreases t,
{
    match t {
        TokenNode::Ident { text } => text@,
        TokenNode::Punct { ch, .. } => seq![ch],
        TokenNode::Lit { text } => text@,
        TokenNode::Group { delim, tokens } => {
            let inner = spec_stream_display(tokens@);
            match delim {
                Delim::Paren => "("@ + inner + ")"@,
                Delim::Bracket => "["@ + inner + "]"@,
                Delim::Brace => "{ "@ + inner + (if tokens@.len() == 0 {
                    Seq::<char>::empty()
                } else {
                    " "@
                }) + "}"@,
                Delim::Invisible => inner,
            }
        },
    }
}

/// The display text of the tokens after the first one: a space before
/// each token unless a jointly spaced punct came just before it.
pub open spec fn spec_stream_display_from(ts: Seq<TokenNode>, prev_joint: bool) -> Seq<char>
    decreases ts,
{
    if ts.len() == 0 {
        Seq::empty()
    } else {
        (if prev_joint {
            Seq::<char>::empty()
        } else {
            " "@
        }) + spec_token_display(ts[0]) + spec_stream_display_from(ts.skip(1), tok_is_joint(ts[0]))
    }
}

/// The display text of a token sequence.
pub open spec fn spec_stream_display(ts: Seq<TokenNode>) -> Seq<char>
    decreases ts,
{
    if ts.len() == 0 {
        Seq::empty()
    } else {
        spec_token_display(ts[0]) + spec_stream_display_from(ts.skip(1), tok_is_joint(ts[0]))
    }
}

/// Append the display text of one token.
pub fn render_token(t: &TokenNode, out: &mut String)
    ensures
        final(out)@ == old(out)@ + spec_token_display(*t),
    decreases *t,
{
    match t {
        TokenNode::Ident { text } => out.append(text.as_str()),
        TokenNode::Punct { ch, .. } => {
            let mut one = String::new();
            one.push(*ch);
            out.append(one.as_str());
        },
        TokenNode::Lit { text } => out.append(text.as_str()),
        TokenNode::Group { delim, tokens } => {
            let ghost base = out@;
            match delim {
                Delim::Paren => out.append("("),
                Delim::Bracket => out.append("["),
                Delim::Brace => out.append("{ "),
                Delim::Invisible => out.append(""),
            }
            render_stream(tokens, out);
            if matches!(delim, Delim::Brace) && tokens.len() > 0 {
                out.append(" ");
            }
            match delim {
                Delim::Paren => out.append(")"),
                Delim::Bracket => out.append("]"),
                Delim::Brace => out.append("}"),
                Delim::Invisible => out.append(""),
            }
            proof {
                reveal_strlit("");
                assert(""@ =~= Seq::<char>::empty());
                assert(out@ =~= base + spec_token_display(*t));
            }
        },
    }
}

/// Append the display text of a token sequence.
pub fn render_stream(tokens: &Vec<TokenNode>, out: &mut String)
    ensures
        final(out)@ == old(out)@ + spec_stream_display(tokens@),
    decreases *tokens,
{
    let ghost base = out@;
    if tokens.len() == 0 {
        proof {
            assert(out@ =~= base + spec_stream_display(tokens@));
        }
        return ;
    }
    render_token(&tokens[0], out);
    let mut prev_joint = tokens[0].is_any_joint();
    let mut i: usize = 1;
    proof {
        assert(base + spec_stream_display(tokens@) =~= out@ + spec_stream_display_from(
            tokens@.skip(1),
            tok_is_joint(tokens@[0]),
        ));
    }
    while i < tokens.len()
        invariant
            1 <= i <= tokens@.len(),
            prev_joint == (if i == 0 {
                false
            } else {
                tok_is_joint(tokens@[i - 1])
            }),
            base + spec_stream_display(tokens@) =~= out@ + spec_stream_display_from(
                tokens@.skip(i as int),
                prev_joint,
            ),
        decreases tokens@.len() - i,
    {
        let ghost out_before = out@;
        if !prev_joint {
            out.append(" ");
        }
        render_token(&tokens[i], out);
        proof {
            assert(tokens@.skip(i as int).skip(1) =~= tokens@.skip(i + 1));
            assert(out@ =~= out_before + (if prev_joint {
                Seq::<char>::empty()
            } else {
                " "@
            }) + spec_token_display(tokens@[i as int]));
            assert(base + spec_stream_display(tokens@) =~= out@ + spec_stream_display_from(
                tokens@.skip(i + 1),
                tok_is_joint(tokens@[i as int]),
            ));
        }
        prev_joint = tokens[i].is_any_joint();
        i = i + 1;
    }
    proof {
        assert(spec_stream_display_from(tokens@.skip(tokens@.len() as int), prev_joint)
            == Seq::<char>::empty());
        assert(out@ =~= base + spec_stream_display(tokens@));
    }
}

/// The display text of a token sequence, as the token stream printer
/// spells it.
pub fn render_tokens(tokens: &Vec<TokenNode>) -> (r: String)
    ensures
        r@ == spec_stream_display(tokens@),
{
    let mut out = String::new();
    render_stream(tokens, &mut out);
    proof {
        assert(out@ =~= spec_stream_display(tokens@));
    }
    out
}

impl TokenNode {
    /// Is this node a jointly spaced punct of any character?
    pub fn is_any_joint(&self) -> (r: bool)
        ensures
            r == tok_is_joint(*self),
    {
        match self {
            TokenNode::Punct { joint, .. } => *joint,
            _ => false,
        }
    }

    /// Does this node hold the punctuation character `c`?
    pub fn is_punct(&self, c: char) -> (r: bool)
        ensures
            r == is_punct_ch(*self, c),
    {
        match self {
            TokenNode::Punct { ch, .. } => *ch == c,
            _ => false,
        }
    }

    /// Is this node a group with the given delimiter?
    pub fn is_group(&self, d: Delim) -> (r: bool)
        ensures
            r == is_group_with(*self, d),
    {
        match self {
            TokenNode::Group { delim, .. } => *delim == d,
            _ => false,
        }
    }

    /// Is this node a jointly spaced punctuation character `c`?
    pub fn is_joint_punct(&self, c: char) -> (r: bool)
        ensures
            r == is_joint_punct_ch(*self, c),
    {
        match self {
            TokenNode::Punct { ch, joint } => *ch == c && *joint,
            _ => false,
        }
    }

    /// Is this node an identifier?
    pub fn is_ident_node(&self) -> (r: bool)
        ensures
            r == is_ident(*self),
    {
        matches!(self, TokenNode::Ident { .. })
    }

    /// Is this node a string literal, plain or raw?
    pub fn is_str_lit_node(&self) -> (r: bool)
        ensures
            r == is_str_lit(*self),
    {
        match self {
            TokenNode::Lit { text } => {
                if text.as_str().unicode_len() == 0 {
                    false
                } else {
                    let c = text.as_str().get_char(0);
                    proof {
                        assert(text@.skip(1) =~= text@.skip(1));
                    }
                    if c == '"' {
                        true
                    } else if c == 'r' {
                        raw_str_tail_check(text.as_str(), 1)
                    } else {
                        false
                    }
                }
            },
            _ => false,
        }
    }

    /// Is this node a literal that spells a decimal integer?
    #[verifier::loop_isolation(false)]
    pub fn is_int_lit_node(&self) -> (r: bool)
        ensures
            r == is_int_lit(*self),
    {
        match self {
            TokenNode::Lit { text } => {
                let s = text.as_str();
                let n = s.unicode_len();
                if n == 0 {
                    return false;
                }
                let c0 = s.get_char(0);
                if !('0' <= c0 && c0 <= '9') {
                    proof {
                        assert(text@[0] == c0);
                        assert(!is_dec_digit(text@[0]));
                    }
                    return false;
                }
                let mut i: usize = 1;
                while i < n
                    invariant
                        1 <= i <= n,
                        s@ == text@,
                        n == text@.len(),
                        is_dec_digit(text@[0]),
                        forall|j: int|
                            0 <= j < i ==> is_dec_digit(#[trigger] text@[j]) || text@[j] == '_',
                    decreases n - i,
                {
                    let c = s.get_char(i);
                    if !(('0' <= c && c <= '9') || c == '_') {
                        proof {
                            assert(text@[i as int] == c);
                            assert(!(is_dec_digit(text@[i as int]) || text@[i as int] == '_'));
                            assert(!is_int_repr(text@));
                        }
                        return false;
                    }
                    i = i + 1;
                }
                true
            },
            _ => false,
        }
    }

    /// Is this node a literal?
    pub fn is_lit_node(&self) -> (r: bool)
        ensures
            r == (*self is Lit),
    {
        matches!(self, TokenNode::Lit { .. })
    }

    /// Is this node a group with a visible delimiter?
    pub fn is_visible_group_node(&self) -> (r: bool)
        ensures
            r == is_visible_group(*self),
    {
        match self {
            TokenNode::Group { delim, .. } => !matches!(delim, Delim::Invisible),
            _ => false,
        }
    }

    /// Is this node the identifier spelled `name`?
    pub fn is_ident_named(&self, name: &str) -> (r: bool)
        ensures
            r == is_ident_text(*self, name@),
    {
        match self {
            TokenNode::Ident { text } => {
                let other = name.to_owned();
                text.eq(&other)
            },
            _ => false,
        }
    }
}

} // verus!

use crate::token::{token_of, Token};
use vstd::prelude::*;

verus! {

// ------------------------------------------------------------------
// The grammar, as functions over a token sequence.
//
// Parsing is ordered choice with backtracking, so each rule either
// consumes a definite range of tokens or consumes nothing; which of the
// two happens is a function of the tokens and the start position. The
// `*_end` functions below are that function for each rule: `None` means
// the rule rejects the input at `pos`, `Some(p)` means it matches and
// the next rule continues at `p`. The executable parser is proved to
// follow them exactly.
// ------------------------------------------------------------------

/// The tokens of a source text: each character classified by `token_of`.
pub open spec fn tokens_of(text: Seq<char>) -> Seq<Token> {
    text.map(|i: int, c: char| token_of(c))
}

/// The token at `pos`, with end-of-input past either end.
pub open spec fn tok_at(toks: Seq<Token>, pos: int) -> Token {
    if 0 <= pos < toks.len() {
        toks[pos]
    } else {
        Token::EoF
    }
}

/// The position just after the first newline at or after `pos`; `None`
/// when the input ends first.
pub open spec fn scan_newline(toks: Seq<Token>, pos: int) -> Option<int>
    decreases toks.len() - pos,
{
    if pos < 0 || pos >= toks.len() {
        None
    } else if toks[pos] == Token::NewLine {
        Some(pos + 1)
    } else {
        scan_newline(toks, pos + 1)
    }
}

/// Where a `//` comment starting at `pos` ends: two slashes, then
/// everything up to and including the next newline.
pub open spec fn comment_end(toks: Seq<Token>, pos: int) -> Option<int> {
    if tok_at(toks, pos) == Token::Slash && tok_at(toks, pos + 1) == Token::Slash {
        scan_newline(toks, pos + 2)
    } else {
        None
    }
}

/// Where a single newline starting at `pos` ends.
pub open spec fn eol_end(toks: Seq<Token>, pos: int) -> Option<int> {
    if tok_at(toks, pos) == Token::NewLine {
        Some(pos + 1)
    } else {
        None
    }
}

/// Where a single blank (space or tab) starting at `pos` ends.
pub open spec fn white_space_end(toks: Seq<Token>, pos: int) -> Option<int> {
    if tok_at(toks, pos) == Token::WhiteSpace {
        Some(pos + 1)
    } else {
        None
    }
}

/// Where the transparent lexical matter starting at `pos` ends: ordered
/// choice of comment, newline, and blank.
pub open spec fn skip_end(toks: Seq<Token>, pos: int) -> Option<int> {
    if comment_end(toks, pos) is Some {
        comment_end(toks, pos)
    } else if eol_end(toks, pos) is Some {
        eol_end(toks, pos)
    } else {
        white_space_end(toks, pos)
    }
}

/// Where a bare instruction symbol starting at `pos` ends: any single
/// token except the two brackets and end-of-input.
pub open spec fn sym_end(toks: Seq<Token>, pos: int) -> Option<int> {
    match tok_at(toks, pos) {
        Token::RightBracket => None,
        Token::LeftBracket => None,
        Token::EoF => None,
        _ => Some(pos + 1),
    }
}

/// Where an expression starting at `pos` ends: ordered choice of the
/// transparent rules, a bracketed loop, and a bare symbol.
pub open spec fn exp_end(toks: Seq<Token>, pos: int) -> Option<int>
    decreases toks.len() - pos, 3int,
{
    if skip_end(toks, pos) is Some {
        skip_end(toks, pos)
    } else if lp_end(toks, pos) is Some {
        lp_end(toks, pos)
    } else {
        sym_end(toks, pos)
    }
}

/// Where a bracketed loop starting at `pos` ends: `[`, one or more
/// expressions, `]`.
pub open spec fn lp_end(toks: Seq<Token>, pos: int) -> Option<int>
    decreases toks.len() - pos, 2int,
{
    if tok_at(toks, pos) == Token::LeftBracket {
        match exp_list_end(toks, pos + 1) {
            Some(p) => if tok_at(toks, p) == Token::RightBracket {
                Some(p + 1)
            } else {
                None
            },
            None => None,
        }
    } else {
        None
    }
}

/// Where one or more expressions starting at `pos` end; `None` when not
/// even one matches. The bound checks on the first expression's end keep
/// the recursion well-founded; `lemma_exp_end_progress` shows they always
/// pass.
pub open spec fn exp_list_end(toks: Seq<Token>, pos: int) -> Option<int>
    decreases toks.len() - pos, 4int,
{
    match exp_end(toks, pos) {
        None => None,
        Some(p) => if pos < p <= toks.len() {
            Some(star_end(toks, p))
        } else {
            Some(p)
        },
    }
}

/// Where zero or more expressions starting at `pos` end: greedily as far
/// as expressions keep matching. The bound checks keep the recursion
/// well-founded; `lemma_exp_end_progress` shows they always pass.
pub open spec fn star_end(toks: Seq<Token>, pos: int) -> int
    decreases toks.len() - pos, 5int,
{
    match exp_end(toks, pos) {
        None => pos,
        Some(p) => if pos < p <= toks.len() {
            star_end(toks, p)
        } else {
            pos
        },
    }
}

// ------------------------------------------------------------------
// Progress: a rule that matches consumes at least one token and never
// runs past the end of the input.
// ------------------------------------------------------------------

/// A matching scan ends after its start and within the input.
proof fn lemma_scan_newline_bounds(toks: Seq<Token>, pos: int)
    ensures
        scan_newline(toks, pos) matches Some(p) ==> pos < p <= toks.len(),
    decreases toks.len() - pos,
{
    if 0 <= pos < toks.len() && toks[pos] != Token::NewLine {
        lemma_scan_newline_bounds(toks, pos + 1);
    }
}

/// A matching expression ends after its start and within the input.
pub proof fn lemma_exp_end_progress(toks: Seq<Token>, pos: int)
    requires
        0 <= pos <= toks.len(),
    ensures
        exp_end(toks, pos) matches Some(p) ==> pos < p <= toks.len(),
    decreases toks.len() - pos, 3int,
{
    lemma_scan_newline_bounds(toks, pos + 2);
    lemma_lp_end_progress(toks, pos);
}

/// A matching loop ends after its start and within the input.
proof fn lemma_lp_end_progress(toks: Seq<Token>, pos: int)
    requires
        0 <= pos <= toks.len(),
    ensures
        lp_end(toks, pos) matches Some(p) ==> pos < p <= toks.len(),
    decreases toks.len() - pos, 2int,
{
    if tok_at(toks, pos) == Token::LeftBracket {
        lemma_exp_list_end_progress(toks, pos + 1);
    }
}

/// A matching expression list ends after its start and within the input.
proof fn lemma_exp_list_end_progress(toks: Seq<Token>, pos: int)
    requires
        0 <= pos <= toks.len(),
    ensures
        exp_list_end(toks, pos) matches Some(p) ==> pos < p <= toks.len(),
    decreases toks.len() - pos, 4int,
{
    lemma_exp_end_progress(toks, pos);
    match exp_end(toks, pos) {
        Some(p) => lemma_star_end_bounds(toks, p),
        None => (),
    }
}

/// The greedy run of expressions stays within the input, never moves
/// backwards, and stops exactly where no further expression matches.
pub proof fn lemma_star_end_bounds(toks: Seq<Token>, pos: int)
    requires
        0 <= pos <= toks.len(),
    ensures
        pos <= star_end(toks, pos) <= toks.len(),
        exp_end(toks, star_end(toks, pos)) is None,
    decreases toks.len() - pos, 5int,
{
    lemma_exp_end_progress(toks, pos);
    match exp_end(toks, pos) {
        Some(p) => lemma_star_end_bounds(toks, p),
        None => (),
    }
}


// ------------------------------------------------------------------
// The syntax tree, and the shape a parse must give it.
// ------------------------------------------------------------------

/// One node of the syntax tree: a loop with its body, a single
/// instruction, or a `Skip` marker left by consumed-but-empty lexical
/// matter (comments, newlines, blanks).
#[derive(Debug, PartialEq, Eq)]
pub enum Expression {
    Loop(Vec<Expression>),
    Operator(Token),
    Skip,
}

/// Why a parse failed. The `Expression` variant keeps the reasons both
/// remaining alternatives of the expression rule were rejected, so a
/// diagnostic names each rule that refused the input.
#[derive(Debug, PartialEq, Eq)]
pub enum ParseError {
    ExpectedSlash,
    UnterminatedComment,
    ExpectedNewLine,
    ExpectedWhiteSpace,
    ExpectedLeftBracket(Token),
    ExpectedRightBracket(Token),
    ExpectedSymbol(Token),
    ExpectedExpression,
    Expression(Box<ParseError>, Box<ParseError>),
}

/// The shape an expression node must have to be the parse of the tokens
/// at `pos`: which alternative of the ordered choice matched, and, for a
/// loop, how its body lines up with the tokens. Together with `exp_end`
/// this pins the parse tree down.
pub open spec fn exp_shape(toks: Seq<Token>, pos: int, e: Expression) -> bool
    decreases e, 1int,
{
    match e {
        Expression::Skip => skip_end(toks, pos) is Some,
        Expression::Loop(body) => skip_end(toks, pos) is None && lp_shape(toks, pos, body@),
        Expression::Operator(t) => skip_end(toks, pos) is None && lp_end(toks, pos) is None
            && sym_end(toks, pos) is Some && t == tok_at(toks, pos),
    }
}

/// The shape of a loop body parsed from the `[` at `pos`: one or more
/// expressions lined up from `pos + 1` as far as expressions match, then
/// the closing bracket.
pub open spec fn lp_shape(toks: Seq<Token>, pos: int, body: Seq<Expression>) -> bool
    decreases body, body.len() + 2,
{
    &&& tok_at(toks, pos) == Token::LeftBracket
    &&& body.len() > 0
    &&& exp_end(toks, pos + 1) is Some
    &&& exps_match(toks, pos + 1, body, 0, star_end(toks, pos + 1))
    &&& tok_at(toks, star_end(toks, pos + 1)) == Token::RightBracket
}

/// Whether the expressions of `es` from index `k` on are exactly the
/// successive parses of the tokens from `pos` through `end`.
pub open spec fn exps_match(
    toks: Seq<Token>,
    pos: int,
    es: Seq<Expression>,
    k: int,
    end: int,
) -> bool
    decreases es, es.len() - k + 1,
{
    if k < 0 {
        false
    } else if k >= es.len() {
        pos == end
    } else {
        exp_shape(toks, pos, es[k]) && match exp_end(toks, pos) {
            Some(p) => exps_match(toks, p, es, k + 1, end),
            None => false,
        }
    }
}

/// The error the comment rule reports when it fails at `pos`: a slash
/// was missing, or the input ended before the closing newline.
pub open spec fn comment_error(toks: Seq<Token>, pos: int) -> ParseError {
    if tok_at(toks, pos) != Token::Slash || tok_at(toks, pos + 1) != Token::Slash {
        ParseError::ExpectedSlash
    } else {
        ParseError::UnterminatedComment
    }
}

/// The error the loop rule reports when it fails at `pos`: the missing
/// opening bracket, the missing body, or the missing closing bracket,
/// whichever the tokens dictate.
pub open spec fn lp_error(toks: Seq<Token>, pos: int) -> ParseError {
    if tok_at(toks, pos) != Token::LeftBracket {
        ParseError::ExpectedLeftBracket(tok_at(toks, pos))
    } else if exp_end(toks, pos + 1) is None {
        ParseError::ExpectedExpression
    } else {
        ParseError::ExpectedRightBracket(tok_at(toks, star_end(toks, pos + 1)))
    }
}

/// The error the expression rule reports when it fails at `pos`: the
/// composite carrying the reasons both remaining alternatives were
/// rejected — the loop rule's and the symbol rule's.
pub open spec fn exp_error(toks: Seq<Token>, pos: int) -> ParseError {
    ParseError::Expression(
        Box::new(lp_error(toks, pos)),
        Box::new(ParseError::ExpectedSymbol(tok_at(toks, pos))),
    )
}

/// A matched run of expressions, extended by one more parse, is still a
/// matched run.
proof fn lemma_exps_match_push(
    toks: Seq<Token>,
    pos: int,
    es: Seq<Expression>,
    k: int,
    mid: int,
    e: Expression,
    end: int,
)
    requires
        0 <= k <= es.len(),
        exps_match(toks, pos, es, k, mid),
        exp_shape(toks, mid, e),
        exp_end(toks, mid) == Some(end),
    ensures
        exps_match(toks, pos, es.push(e), k, end),
    decreases es.len() - k,
{
    if k >= es.len() {
        assert(es.push(e)[k] == e);
        assert(exps_match(toks, end, es.push(e), k + 1, end));
    } else {
        assert(es.push(e)[k] == es[k]);
        match exp_end(toks, pos) {
            Some(p) => lemma_exps_match_push(toks, p, es, k + 1, mid, e, end),
            None => assert(false),
        }
    }
}

// ------------------------------------------------------------------
// The token cursor.
// ------------------------------------------------------------------

/// A cursor over the tokenized source text: the tokens and a position.
pub struct Source {
    code: Vec<Token>,
    cursor: usize,
}

/// A saved cursor position; restoring it undoes all reads since.
type Snapshot = usize;

impl Source {
    /// The tokens being parsed.
    pub closed spec fn toks(&self) -> Seq<Token> {
        self.code@
    }

    /// The next unread position.
    pub closed spec fn pos(&self) -> int {
        self.cursor as int
    }

    /// The position is within bounds and the stream holds no `EoF`
    /// token: the end of the input is a position, never a stored token.
    pub open spec fn wf(&self) -> bool {
        &&& 0 <= self.pos() <= self.toks().len()
        &&& forall|i: int| 0 <= i < self.toks().len() ==> self.toks()[i] != Token::EoF
    }

    /// Tokenizes a whole source text eagerly; the cursor starts at the
    /// beginning.
    pub fn from(code: &str) -> (source: Source)
        ensures
            source.wf(),
            source.toks() == tokens_of(code@),
            source.pos() == 0,
    {
        let n = code.unicode_len();
        let mut toks: Vec<Token> = Vec::new();
        let mut i: usize = 0;
        while i < n
            invariant
                i <= n,
                n == code@.len(),
                toks@.len() == i,
                forall|j: int| 0 <= j < i ==> toks@[j] == token_of(code@[j]),
            decreases n - i,
        {
            toks.push(Token::from(code.get_char(i)));
            i = i + 1;
        }
        proof {
            assert(toks@ =~= tokens_of(code@));
        }
        Source { code: toks, cursor: 0 }
    }

    /// Reads one token and advances, except at the end of the input,
    /// where it stays put and keeps answering `EoF`.
    fn next_symbol(&mut self) -> (symbol: Token)
        requires
            old(self).wf(),
        ensures
            final(self).wf(),
            final(self).toks() == old(self).toks(),
            symbol == tok_at(old(self).toks(), old(self).pos()),
            symbol != Token::EoF ==> final(self).pos() == old(self).pos() + 1,
            symbol == Token::EoF ==> final(self).pos() == old(self).pos(),
    {
        if self.cursor < self.code.len() {
            let symbol = self.code[self.cursor];
            self.cursor = self.cursor + 1;
            symbol
        } else {
            Token::EoF
        }
    }

    /// The current position, to be restored when a rule fails.
    fn snapshot(&self) -> (snapshot: Snapshot)
        ensures
            snapshot == self.pos(),
    {
        self.cursor
    }

    /// Rewinds to a saved position, undoing all reads since.
    fn restore(&mut self, snapshot: Snapshot)
        requires
            old(self).wf(),
            0 <= snapshot <= old(self).toks().len(),
        ensures
            final(self).wf(),
            final(self).toks() == old(self).toks(),
            final(self).pos() == snapshot,
    {
        self.cursor = snapshot;
    }
}

// ------------------------------------------------------------------
// The parser: one executable function per grammar rule, each proved to
// consume exactly the range its `*_end` function gives, and to consume
// nothing when it fails.
// ------------------------------------------------------------------

/// The comment rule: two slashes, then everything up to and including
/// the next newline. Consumes nothing when it fails.
fn comment(source: &mut Source) -> (r: Result<(), ParseError>)
    requires
        old(source).wf(),
    ensures
        final(source).wf(),
        final(source).toks() == old(source).toks(),
        r is Ok ==> comment_end(old(source).toks(), old(source).pos()) == Some(
            final(source).pos(),
        ),
        r is Err ==> comment_end(old(source).toks(), old(source).pos()) is None && final(source).pos() == old(source).pos(),
        r matches Err(e) ==> e == comment_error(old(source).toks(), old(source).pos()),
{
    let snapshot = source.snapshot();
    let first = source.next_symbol();
    if first != Token::Slash {
        source.restore(snapshot);
        return Err(ParseError::ExpectedSlash);
    }
    let second = source.next_symbol();
    if second != Token::Slash {
        source.restore(snapshot);
        return Err(ParseError::ExpectedSlash);
    }
    loop
        invariant
            source.wf(),
            source.toks() == old(source).toks(),
            snapshot == old(source).pos(),
            old(source).pos() + 2 <= source.pos() <= source.toks().len(),
            tok_at(source.toks(), old(source).pos()) == Token::Slash,
            tok_at(source.toks(), old(source).pos() + 1) == Token::Slash,
            scan_newline(source.toks(), old(source).pos() + 2) == scan_newline(
                source.toks(),
                source.pos(),
            ),
        decreases source.toks().len() - source.pos(),
    {
        let t = source.next_symbol();
        if t == Token::NewLine {
            return Ok(());
        }
        if t == Token::EoF {
            source.restore(snapshot);
            return Err(ParseError::UnterminatedComment);
        }
    }
}

/// The newline rule. Consumes nothing when it fails.
fn eol(source: &mut Source) -> (r: Result<(), ParseError>)
    requires
        old(source).wf(),
    ensures
        final(source).wf(),
        final(source).toks() == old(source).toks(),
        r is Ok ==> eol_end(old(source).toks(), old(source).pos()) == Some(final(source).pos()),
        r is Err ==> eol_end(old(source).toks(), old(source).pos()) is None && final(source).pos() == old(source).pos(),
        r matches Err(e) ==> e == ParseError::ExpectedNewLine,
{
    let snapshot = source.snapshot();
    if source.next_symbol() != Token::NewLine {
        source.restore(snapshot);
        return Err(ParseError::ExpectedNewLine);
    }
    Ok(())
}

/// The blank rule: one space or tab. Consumes nothing when it fails.
fn white_space(source: &mut Source) -> (r: Result<(), ParseError>)
    requires
        old(source).wf(),
    ensures
        final(source).wf(),
        final(source).toks() == old(source).toks(),
        r is Ok ==> white_space_end(old(source).toks(), old(source).pos()) == Some(
            final(source).pos(),
        ),
        r is Err ==> white_space_end(old(source).toks(), old(source).pos()) is None && final(source).pos() == old(source).pos(),
        r matches Err(e) ==> e == ParseError::ExpectedWhiteSpace,
{
    let snapshot = source.snapshot();
    if source.next_symbol() != Token::WhiteSpace {
        source.restore(snapshot);
        return Err(ParseError::ExpectedWhiteSpace);
    }
    Ok(())
}

/// The transparent-matter rule: ordered choice of comment, newline, and
/// blank; reports whether one of them matched.
fn skip(source: &mut Source) -> (matched: bool)
    requires
        old(source).wf(),
    ensures
        final(source).wf(),
        final(source).toks() == old(source).toks(),
        matched ==> skip_end(old(source).toks(), old(source).pos()) == Some(final(source).pos()),
        !matched ==> skip_end(old(source).toks(), old(source).pos()) is None && final(source).pos() == old(source).pos(),
{
    if comment(source).is_ok() {
        return true;
    }
    if eol(source).is_ok() {
        return true;
    }
    if white_space(source).is_ok() {
        return true;
    }
    false
}

/// The bare-symbol rule: any single token except the two brackets and
/// end-of-input becomes an `Operator` node. Consumes nothing when it
/// fails.
fn sym(source: &mut Source) -> (r: Result<Expression, ParseError>)
    requires
        old(source).wf(),
    ensures
        final(source).wf(),
        final(source).toks() == old(source).toks(),
        r matches Ok(e) ==> sym_end(old(source).toks(), old(source).pos()) == Some(
            final(source).pos(),
        ) && e == Expression::Operator(tok_at(old(source).toks(), old(source).pos())),
        r is Err ==> sym_end(old(source).toks(), old(source).pos()) is None && final(source).pos() == old(source).pos(),
        r matches Err(e) ==> e == ParseError::ExpectedSymbol(
            tok_at(old(source).toks(), old(source).pos()),
        ),
{
    let snapshot = source.snapshot();
    let symbol = source.next_symbol();
    match symbol {
        Token::RightBracket | Token::LeftBracket | Token::EoF => {
            source.restore(snapshot);
            Err(ParseError::ExpectedSymbol(symbol))
        },
        _ => Ok(Expression::Operator(symbol)),
    }
}

/// The expression rule: ordered choice of the transparent rules (giving
/// `Skip`), a loop, and a bare symbol; when both of the latter fail, the
/// error keeps both reasons. Consumes nothing when it fails.
fn exp(source: &mut Source) -> (r: Result<Expression, ParseError>)
    requires
        old(source).wf(),
    ensures
        final(source).wf(),
        final(source).toks() == old(source).toks(),
        r matches Ok(e) ==> exp_end(old(source).toks(), old(source).pos()) == Some(
            final(source).pos(),
        ) && exp_shape(old(source).toks(), old(source).pos(), e),
        r is Err ==> exp_end(old(source).toks(), old(source).pos()) is None && final(source).pos() == old(source).pos(),
        r matches Err(e) ==> e == exp_error(old(source).toks(), old(source).pos()),
    decreases old(source).toks().len() - old(source).pos(), 3int,
{
    if skip(source) {
        return Ok(Expression::Skip);
    }
    let lp_err = match lp(source) {
        Ok(e) => return Ok(e),
        Err(e) => e,
    };
    let sym_err = match sym(source) {
        Ok(e) => return Ok(e),
        Err(e) => e,
    };
    Err(ParseError::Expression(Box::new(lp_err), Box::new(sym_err)))
}

/// The loop rule: `[`, one or more expressions, `]`. Consumes nothing
/// when it fails.
fn lp(source: &mut Source) -> (r: Result<Expression, ParseError>)
    requires
        old(source).wf(),
    ensures
        final(source).wf(),
        final(source).toks() == old(source).toks(),
        r matches Ok(e) ==> lp_end(old(source).toks(), old(source).pos()) == Some(
            final(source).pos(),
        ) && (e matches Expression::Loop(body) && lp_shape(
            old(source).toks(),
            old(source).pos(),
            body@,
        )),
        r is Err ==> lp_end(old(source).toks(), old(source).pos()) is None && final(source).pos() == old(source).pos(),
        r matches Err(e) ==> e == lp_error(old(source).toks(), old(source).pos()),
    decreases old(source).toks().len() - old(source).pos(), 2int,
{
    let snapshot = source.snapshot();
    let symbol = source.next_symbol();
    if symbol != Token::LeftBracket {
        source.restore(snapshot);
        return Err(ParseError::ExpectedLeftBracket(symbol));
    }
    let body = match exp_list(source) {
        Ok(v) => v,
        Err(e) => {
            source.restore(snapshot);
            return Err(e);
        },
    };
    let close = source.next_symbol();
    if close != Token::RightBracket {
        source.restore(snapshot);
        return Err(ParseError::ExpectedRightBracket(close));
    }
    Ok(Expression::Loop(body))
}

/// The one-or-more-expressions rule: expressions as long as they keep
/// matching; fails, consuming nothing, when not even one does.
fn exp_list(source: &mut Source) -> (r: Result<Vec<Expression>, ParseError>)
    requires
        old(source).wf(),
    ensures
        final(source).wf(),
        final(source).toks() == old(source).toks(),
        r matches Ok(v) ==> ({
            &&& exp_list_end(old(source).toks(), old(source).pos()) == Some(final(source).pos())
            &&& final(source).pos() == star_end(old(source).toks(), old(source).pos())
            &&& exps_match(old(source).toks(), old(source).pos(), v@, 0, final(source).pos())
            &&& v@.len() >= 1
        }),
        r is Err ==> exp_end(old(source).toks(), old(source).pos()) is None && exp_list_end(
            old(source).toks(),
            old(source).pos(),
        ) is None && final(source).pos() == old(source).pos(),
        r matches Err(e) ==> e == ParseError::ExpectedExpression,
    decreases old(source).toks().len() - old(source).pos(), 4int,
{
    let ghost toks = old(source).toks();
    let ghost pos0 = old(source).pos();
    let mut result: Vec<Expression> = Vec::new();
    loop
        invariant
            toks == old(source).toks(),
            pos0 == old(source).pos(),
            source.wf(),
            source.toks() == toks,
            0 <= pos0 <= source.pos() <= toks.len(),
            exps_match(toks, pos0, result@, 0, source.pos()),
            star_end(toks, pos0) == star_end(toks, source.pos()),
            result@.len() == 0 ==> source.pos() == pos0,
        ensures
            toks == old(source).toks(),
            pos0 == old(source).pos(),
            source.wf(),
            source.toks() == toks,
            0 <= pos0 <= source.pos() <= toks.len(),
            exps_match(toks, pos0, result@, 0, source.pos()),
            star_end(toks, pos0) == star_end(toks, source.pos()),
            result@.len() == 0 ==> source.pos() == pos0,
            exp_end(toks, source.pos()) is None,
        decreases toks.len() - source.pos(),
    {
        let ghost cur = source.pos();
        match exp(source) {
            Ok(e) => {
                proof {
                    lemma_exp_end_progress(toks, cur);
                    lemma_exps_match_push(toks, pos0, result@, 0, cur, e, source.pos());
                }
                result.push(e);
            },
            Err(_) => {
                break;
            },
        }
    }
    if result.len() == 0 {
        Err(ParseError::ExpectedExpression)
    } else {
        proof {
            lemma_exp_end_progress(toks, pos0);
            lemma_star_end_bounds(toks, pos0);
        }
        Ok(result)
    }
}

// ------------------------------------------------------------------
// The program.
// ------------------------------------------------------------------

/// A parsed program: the root sequence of expression nodes.
pub struct Program {
    pub ast: Vec<Expression>,
}

impl Program {
    /// Parses a whole source text: tokenizes it, then parses the token
    /// stream as `try_from` does.
    pub fn parse(source_text: &str) -> (r: Result<Program, ParseError>)
        ensures
            r is Ok <==> star_end(tokens_of(source_text@), 0) == tokens_of(source_text@).len(),
            r matches Ok(program) ==> exps_match(
                tokens_of(source_text@),
                0,
                program.ast@,
                0,
                tokens_of(source_text@).len() as int,
            ),
            r matches Err(e) ==> e == exp_error(
                tokens_of(source_text@),
                star_end(tokens_of(source_text@), 0),
            ),
    {
        Program::try_from(Source::from(source_text))
    }

    /// Parses a whole token stream: expressions until nothing more
    /// matches, succeeding exactly when that point is the end of the
    /// input. A token no expression rule accepts (a stray `]`, say)
    /// therefore fails the whole parse, carrying the composite reason of
    /// the last unsuccessful expression attempt.
    #[verifier::loop_isolation(false)]
    pub fn try_from(source: Source) -> (r: Result<Program, ParseError>)
        requires
            source.wf(),
        ensures
            r is Ok <==> star_end(source.toks(), source.pos()) == source.toks().len(),
            r matches Ok(program) ==> exps_match(
                source.toks(),
                source.pos(),
                program.ast@,
                0,
                source.toks().len() as int,
            ),
            r matches Err(e) ==> e == exp_error(
                source.toks(),
                star_end(source.toks(), source.pos()),
            ),
    {
        let ghost toks = source.toks();
        let ghost pos0 = source.pos();
        let mut source = source;
        let mut ast: Vec<Expression> = Vec::new();
        loop
            invariant
                source.wf(),
                source.toks() == toks,
                0 <= pos0 <= source.pos() <= toks.len(),
                exps_match(toks, pos0, ast@, 0, source.pos()),
                star_end(toks, pos0) == star_end(toks, source.pos()),
            decreases toks.len() - source.pos(),
        {
            let ghost cur = source.pos();
            match exp(&mut source) {
                Ok(e) => {
                    proof {
                        lemma_exp_end_progress(toks, cur);
                        lemma_exps_match_push(toks, pos0, ast@, 0, cur, e, source.pos());
                    }
                    ast.push(e);
                },
                Err(e) => {
                    let symbol = source.next_symbol();
                    if symbol == Token::EoF {
                        return Ok(Program { ast });
                    } else {
                        return Err(e);
                    }
                },
            }
        }
    }
}

} // verus!

//! Code-mode keyboard action planning.
//!
//! Editors auto-complete brackets and quotes and auto-indent new lines. The
//! planner reasons only about the source text: it types openers and content,
//! drops source indentation at line starts, and replaces a source closer that
//! the editor has already generated by a cursor movement over it.
use vstd::prelude::*;

use crate::text::TextAtom;

verus! {

/// One keyboard action in Code mode.
///
/// `CursorRight` passes over a closing delimiter or quote that the destination
/// editor generated after the corresponding opener. The planner only reasons
/// about the source text; it never reads destination content. Triple-quoted
/// delimiters are emitted as ordinary atoms because editors do not reliably
/// synthesize a skippable three-character closing delimiter. Markdown
/// triple-backtick fences, and backticks in general, are emitted as literal
/// atoms.
#[derive(Clone, Copy, PartialEq, Eq, Structural)]
pub enum CodeAction {
    Atom(TextAtom),
    CursorRight,
    /// Consumes a matching closer that the editor placed on its own generated
    /// line: the platform first crosses the existing line boundary, then moves
    /// to the line end past the editor's indentation and closer.
    CursorRightToLineEnd,
}

impl CodeAction {
    /// Content-free diagnostic text.
    pub fn debug_text(self) -> (r: String)
        ensures
            r@ == match self {
                CodeAction::Atom(TextAtom::Scalar(_)) => "Atom(Scalar([REDACTED]))"@,
                CodeAction::Atom(TextAtom::LineBreak) => "Atom(LineBreak)"@,
                CodeAction::Atom(TextAtom::Tab) => "Atom(Tab)"@,
                CodeAction::CursorRight => "CursorRight"@,
                CodeAction::CursorRightToLineEnd => "CursorRightToLineEnd"@,
            },
    {
        match self {
            CodeAction::Atom(TextAtom::Scalar(_)) => "Atom(Scalar([REDACTED]))".to_owned(),
            CodeAction::Atom(TextAtom::LineBreak) => "Atom(LineBreak)".to_owned(),
            CodeAction::Atom(TextAtom::Tab) => "Atom(Tab)".to_owned(),
            CodeAction::CursorRight => "CursorRight".to_owned(),
            CodeAction::CursorRightToLineEnd => "CursorRightToLineEnd".to_owned(),
        }
    }
}

/// A string delimiter: a single quote character or a run of three.
#[derive(Clone, Copy, PartialEq, Eq, Structural)]
pub enum QuoteKind {
    Single(char),
    Triple(char),
}

impl QuoteKind {
    pub open spec fn delimiter(self) -> char {
        match self {
            QuoteKind::Single(d) => d,
            QuoteKind::Triple(d) => d,
        }
    }

    pub open spec fn length(self) -> nat {
        match self {
            QuoteKind::Single(_) => 1,
            QuoteKind::Triple(_) => 3,
        }
    }

    fn exec_delimiter(self) -> (r: char)
        ensures
            r == self.delimiter(),
    {
        match self {
            QuoteKind::Single(d) => d,
            QuoteKind::Triple(d) => d,
        }
    }

    fn exec_length(self) -> (r: usize)
        ensures
            r == self.length(),
    {
        match self {
            QuoteKind::Single(_) => 1,
            QuoteKind::Triple(_) => 3,
        }
    }
}

/// A delimiter pair the editor is assumed to have completed.
#[derive(Clone, Copy, PartialEq, Eq, Structural)]
pub enum Pair {
    Bracket { closer: char, line_separated: bool },
    Quote(QuoteKind),
}

pub open spec fn matches_bracket(p: Pair, v: char) -> bool {
    match p {
        Pair::Bracket { closer, .. } => closer == v,
        _ => false,
    }
}

fn exec_matches_bracket(p: Pair, v: char) -> (r: bool)
    ensures
        r == matches_bracket(p, v),
{
    match p {
        Pair::Bracket { closer, .. } => closer == v,
        _ => false,
    }
}

/// Lexical context of the source text.
#[derive(Clone, Copy, PartialEq, Eq, Structural)]
pub enum CodeLexState {
    Normal,
    LineComment,
    BlockComment { closing: bool },
    Str { quote: QuoteKind, escaped: bool },
}

/// The closer an editor generates for an opening bracket.
pub open spec fn opening_pair(v: char) -> Option<char> {
    if v == '(' {
        Some(')')
    } else if v == '[' {
        Some(']')
    } else if v == '{' {
        Some('}')
    } else {
        None
    }
}

fn exec_opening_pair(v: char) -> (r: Option<char>)
    ensures
        r == opening_pair(v),
{
    if v == '(' {
        Some(')')
    } else if v == '[' {
        Some(']')
    } else if v == '{' {
        Some('}')
    } else {
        None
    }
}

/// Quote characters the editor auto-pairs.
pub open spec fn is_quote_char(v: char) -> bool {
    v == '\'' || v == '"'
}

pub open spec fn is_code_indentation(a: TextAtom) -> bool {
    a == TextAtom::Scalar(' ') || a == TextAtom::Tab
}

/// Whether `atoms[start..start + length]` exists and consists of `Scalar(v)`.
pub open spec fn has_scalar_run(atoms: Seq<TextAtom>, start: int, v: char, length: int) -> bool {
    &&& 0 <= start
    &&& start + length <= atoms.len()
    &&& forall|k: int| start <= k < start + length ==> atoms[k] == TextAtom::Scalar(v)
}

fn exec_has_scalar_run(atoms: &[TextAtom], start: usize, v: char, length: usize) -> (r: bool)
    ensures
        r == has_scalar_run(atoms@, start as int, v, length as int),
{
    if start > atoms.len() || length > atoms.len() - start {
        return false;
    }
    let mut k: usize = 0;
    while k < length
        invariant
            start <= atoms@.len(),
            atoms@.len() <= usize::MAX,
            start + length <= atoms@.len(),
            k <= length,
            forall|m: int| start <= m < start + k ==> atoms@[m] == TextAtom::Scalar(v),
        decreases length - k,
    {
        if atoms[start + k] != TextAtom::Scalar(v) {
            return false;
        }
        k = k + 1;
    }
    true
}

/// Number of consecutive `Scalar(v)` atoms starting at `start`.
pub open spec fn scalar_run_length(atoms: Seq<TextAtom>, start: int, v: char) -> nat
    decreases atoms.len() - start,
{
    if 0 <= start < atoms.len() && atoms[start] == TextAtom::Scalar(v) {
        1 + scalar_run_length(atoms, start + 1, v)
    } else {
        0
    }
}

fn exec_scalar_run_length(atoms: &[TextAtom], start: usize, v: char) -> (r: usize)
    ensures
        r == scalar_run_length(atoms@, start as int, v),
        start + r <= atoms@.len() || r == 0,
{
    let mut end = start;
    while end < atoms.len() && atoms[end] == TextAtom::Scalar(v)
        invariant
            start <= end,
            end <= atoms@.len() || end == start,
            scalar_run_length(atoms@, start as int, v) == (end - start) + scalar_run_length(
                atoms@,
                end as int,
                v,
            ),
        decreases atoms@.len() - end,
    {
        end = end + 1;
    }
    end - start
}

/// A markdown fence: three or more backticks, typed literally.
pub open spec fn markdown_fence_length(atoms: Seq<TextAtom>, start: int, v: char) -> Option<nat> {
    if v == '`' && scalar_run_length(atoms, start, v) >= 3 {
        Some(scalar_run_length(atoms, start, v))
    } else {
        None
    }
}

/// The string delimiter starting at `start`, if `v` is a quote character.
pub open spec fn quote_kind_at(atoms: Seq<TextAtom>, start: int, v: char) -> Option<QuoteKind> {
    if !is_quote_char(v) {
        None
    } else if has_scalar_run(atoms, start, v, 3) {
        Some(QuoteKind::Triple(v))
    } else {
        Some(QuoteKind::Single(v))
    }
}

/// Every bracket pair becomes separated from its opener's line.
pub open spec fn mark_separated(pairs: Seq<Pair>) -> Seq<Pair> {
    pairs.map_values(
        |p: Pair|
            match p {
                Pair::Bracket { closer, .. } => Pair::Bracket { closer, line_separated: true },
                q => q,
            },
    )
}

/// Index of the first atom at or after `i` that is not indentation.
pub open spec fn skip_indentation(atoms: Seq<TextAtom>, i: int) -> int
    decreases atoms.len() - i,
{
    if 0 <= i < atoms.len() && is_code_indentation(atoms[i]) {
        skip_indentation(atoms, i + 1)
    } else {
        i
    }
}

/// How many pairs, from the top of `pairs` down, are closed by the scalars
/// starting at `j`, having already matched `c` of them.
pub open spec fn closer_run(atoms: Seq<TextAtom>, j: int, pairs: Seq<Pair>, c: nat) -> nat
    decreases pairs.len() - c,
{
    if c < pairs.len() && 0 <= j + c < atoms.len() && (atoms[j + c] matches TextAtom::Scalar(v)
        && matches_bracket(pairs[pairs.len() - 1 - c], v)) {
        closer_run(atoms, j, pairs, c + 1)
    } else {
        c
    }
}

/// Number of bracket pairs at the top of the stack.
pub open spec fn top_brackets(pairs: Seq<Pair>) -> nat
    decreases pairs.len(),
{
    if pairs.len() > 0 && pairs.last() is Bracket {
        1 + top_brackets(pairs.drop_last())
    } else {
        0
    }
}

pub open spec fn repeat_action(a: CodeAction, n: nat) -> Seq<CodeAction> {
    Seq::new(n, |_k: int| a)
}

/// Planner state: lexical context, editor-completed pairs still open, whether
/// the next atom starts a line, and the position in the source.
#[verifier::ext_equal]
pub struct CodeScan {
    pub lex: CodeLexState,
    pub pairs: Seq<Pair>,
    pub line_start: bool,
    pub index: int,
}

pub open spec fn scan_start() -> CodeScan {
    CodeScan { lex: CodeLexState::Normal, pairs: seq![], line_start: true, index: 0 }
}

/// The source line break is typed and every open bracket now spans lines.
pub open spec fn line_break_step(st: CodeScan, lex: CodeLexState) -> (Seq<CodeAction>, CodeScan) {
    (
        seq![CodeAction::Atom(TextAtom::LineBreak)],
        CodeScan { lex, pairs: mark_separated(st.pairs), line_start: true, index: st.index + 1 },
    )
}

/// The atom is typed as it is.
pub open spec fn literal_step(st: CodeScan, atom: TextAtom, lex: CodeLexState, line_start: bool) -> (Seq<CodeAction>, CodeScan) {
    (
        seq![CodeAction::Atom(atom)],
        CodeScan { lex, pairs: st.pairs, line_start, index: st.index + 1 },
    )
}

/// One planning step in ordinary code.
pub open spec fn normal_step(atoms: Seq<TextAtom>, st: CodeScan) -> (Seq<CodeAction>, CodeScan) {
    let i = st.index;
    let atom = atoms[i];
    let next = if i + 1 < atoms.len() { Some(atoms[i + 1]) } else { None };
    let pairs = st.pairs;
    if st.line_start && is_code_indentation(atom) {
        (seq![], CodeScan { index: i + 1, ..st })
    } else {
        match atom {
            TextAtom::LineBreak => {
                let j = skip_indentation(atoms, i + 1);
                let c = closer_run(atoms, j, pairs, 0);
                if pairs.len() > 0 && pairs.last() is Bracket && c > 0 {
                    let separated = pairs.last()->line_separated;
                    let head: Seq<CodeAction> = if separated {
                        seq![]
                    } else {
                        seq![CodeAction::Atom(TextAtom::LineBreak)]
                    };
                    let kept = if separated { pairs } else { mark_separated(pairs) };
                    (
                        head.push(CodeAction::CursorRightToLineEnd),
                        CodeScan {
                            lex: CodeLexState::Normal,
                            pairs: kept.take(kept.len() - c),
                            line_start: false,
                            index: j + c,
                        },
                    )
                } else {
                    line_break_step(st, CodeLexState::Normal)
                }
            },
            TextAtom::Tab => literal_step(st, atom, CodeLexState::Normal, false),
            TextAtom::Scalar(v) => {
                if v == '/' && next == Some(TextAtom::Scalar('/')) {
                    literal_step(st, atom, CodeLexState::LineComment, false)
                } else if v == '/' && next == Some(TextAtom::Scalar('*')) {
                    literal_step(st, atom, CodeLexState::BlockComment { closing: false }, false)
                } else if markdown_fence_length(atoms, i, v) is Some {
                    let n = markdown_fence_length(atoms, i, v)->0;
                    (
                        repeat_action(CodeAction::Atom(atom), n),
                        CodeScan { lex: CodeLexState::Normal, pairs, line_start: false, index: i + n },
                    )
                } else if quote_kind_at(atoms, i, v) is Some {
                    let q = quote_kind_at(atoms, i, v)->0;
                    (
                        repeat_action(CodeAction::Atom(TextAtom::Scalar(q.delimiter())), q.length()),
                        CodeScan {
                            lex: CodeLexState::Str { quote: q, escaped: false },
                            pairs: pairs.push(Pair::Quote(q)),
                            line_start: false,
                            index: i + q.length(),
                        },
                    )
                } else if opening_pair(v) is Some {
                    (
                        seq![CodeAction::Atom(atom)],
                        CodeScan {
                            lex: CodeLexState::Normal,
                            pairs: pairs.push(
                                Pair::Bracket { closer: opening_pair(v)->0, line_separated: false },
                            ),
                            line_start: false,
                            index: i + 1,
                        },
                    )
                } else if pairs.len() > 0 && matches_bracket(pairs.last(), v) {
                    (
                        seq![CodeAction::CursorRight],
                        CodeScan {
                            lex: CodeLexState::Normal,
                            pairs: pairs.drop_last(),
                            line_start: false,
                            index: i + 1,
                        },
                    )
                } else {
                    literal_step(st, atom, CodeLexState::Normal, false)
                }
            },
        }
    }
}

/// One planning step inside a line comment. The comment ends at its line
/// break, which is then read as in ordinary code: a following line that
/// starts with generated closers is crossed rather than typed.
pub open spec fn line_comment_step(atoms: Seq<TextAtom>, st: CodeScan) -> (Seq<CodeAction>, CodeScan) {
    let atom = atoms[st.index];
    if atom == TextAtom::LineBreak {
        normal_step(atoms, CodeScan { lex: CodeLexState::Normal, ..st })
    } else {
        literal_step(st, atom, CodeLexState::LineComment, st.line_start)
    }
}

/// One planning step inside a block comment.
pub open spec fn block_comment_step(atoms: Seq<TextAtom>, st: CodeScan, closing: bool) -> (Seq<CodeAction>, CodeScan) {
    let i = st.index;
    let atom = atoms[i];
    let next = if i + 1 < atoms.len() { Some(atoms[i + 1]) } else { None };
    match atom {
        TextAtom::Scalar(v) => if closing && v == '/' {
            literal_step(st, atom, CodeLexState::Normal, false)
        } else if !closing && v == '*' && next == Some(TextAtom::Scalar('/')) {
            literal_step(st, atom, CodeLexState::BlockComment { closing: true }, false)
        } else {
            literal_step(st, atom, st.lex, false)
        },
        TextAtom::LineBreak => line_break_step(st, st.lex),
        TextAtom::Tab => literal_step(st, atom, st.lex, false),
    }
}

/// One planning step inside a string literal.
pub open spec fn string_step(atoms: Seq<TextAtom>, st: CodeScan, q: QuoteKind, escaped: bool) -> (Seq<CodeAction>, CodeScan) {
    let i = st.index;
    let atom = atoms[i];
    let pairs = st.pairs;
    let triple = q is Triple;
    match atom {
        TextAtom::Scalar(v) => if escaped {
            literal_step(st, atom, CodeLexState::Str { quote: q, escaped: false }, false)
        } else if v == '\\' {
            literal_step(st, atom, CodeLexState::Str { quote: q, escaped: true }, false)
        } else if triple && v == q.delimiter() && has_scalar_run(atoms, i, v, q.length() as int) {
            let kept = if pairs.len() > 0 && pairs.last() == Pair::Quote(q) {
                pairs.drop_last()
            } else {
                pairs
            };
            (
                repeat_action(CodeAction::Atom(TextAtom::Scalar(q.delimiter())), q.length()),
                CodeScan { lex: CodeLexState::Normal, pairs: kept, line_start: false, index: i + q.length() },
            )
        } else if !triple && opening_pair(v) is Some {
            (
                seq![CodeAction::Atom(atom)],
                CodeScan {
                    lex: st.lex,
                    pairs: pairs.push(Pair::Bracket { closer: opening_pair(v)->0, line_separated: false }),
                    line_start: false,
                    index: i + 1,
                },
            )
        } else if !triple && pairs.len() > 0 && matches_bracket(pairs.last(), v) {
            (
                seq![CodeAction::CursorRight],
                CodeScan { lex: st.lex, pairs: pairs.drop_last(), line_start: false, index: i + 1 },
            )
        } else if !triple && v == q.delimiter() {
            let n = top_brackets(pairs);
            let rest = pairs.take(pairs.len() - n);
            let flushed = repeat_action(CodeAction::CursorRight, n);
            if rest.len() > 0 && rest.last() == Pair::Quote(q) {
                (
                    flushed.push(CodeAction::CursorRight),
                    CodeScan { lex: CodeLexState::Normal, pairs: rest.drop_last(), line_start: false, index: i + 1 },
                )
            } else {
                (
                    flushed.push(CodeAction::Atom(atom)),
                    CodeScan { lex: CodeLexState::Normal, pairs: rest, line_start: false, index: i + 1 },
                )
            }
        } else {
            literal_step(st, atom, st.lex, false)
        },
        TextAtom::LineBreak => line_break_step(st, st.lex),
        TextAtom::Tab => literal_step(st, atom, st.lex, false),
    }
}

/// One planning step at `st.index`.
pub open spec fn code_step(atoms: Seq<TextAtom>, st: CodeScan) -> (Seq<CodeAction>, CodeScan) {
    match st.lex {
        CodeLexState::Normal => normal_step(atoms, st),
        CodeLexState::LineComment => line_comment_step(atoms, st),
        CodeLexState::BlockComment { closing } => block_comment_step(atoms, st, closing),
        CodeLexState::Str { quote, escaped } => string_step(atoms, st, quote, escaped),
    }
}

/// The actions planned from `st` to the end of the source.
pub open spec fn code_run(atoms: Seq<TextAtom>, st: CodeScan) -> Seq<CodeAction>
    decreases atoms.len() - st.index,
{
    if st.index < 0 || st.index >= atoms.len() {
        seq![]
    } else {
        let (acts, next) = code_step(atoms, st);
        if st.index < next.index <= atoms.len() {
            acts + code_run(atoms, next)
        } else {
            acts
        }
    }
}

/// The Code-mode actions for a whole normalized source.
pub open spec fn code_actions(atoms: Seq<TextAtom>) -> Seq<CodeAction> {
    code_run(atoms, scan_start())
}


/// Executable planner state.
struct Scanner {
    lex: CodeLexState,
    pairs: Vec<Pair>,
    line_start: bool,
    index: usize,
}

impl View for Scanner {
    type V = CodeScan;

    closed spec fn view(&self) -> CodeScan {
        CodeScan { lex: self.lex, pairs: self.pairs@, line_start: self.line_start, index: self.index as int }
    }
}

fn exec_skip_indentation(atoms: &[TextAtom], i: usize) -> (r: usize)
    requires
        i <= atoms@.len(),
    ensures
        r == skip_indentation(atoms@, i as int),
        i <= r <= atoms@.len(),
{
    let mut k = i;
    while k < atoms.len() && (atoms[k] == TextAtom::Scalar(' ') || atoms[k] == TextAtom::Tab)
        invariant
            i <= k <= atoms@.len(),
            skip_indentation(atoms@, i as int) == skip_indentation(atoms@, k as int),
        decreases atoms@.len() - k,
    {
        k = k + 1;
    }
    k
}

fn closes_at(atoms: &[TextAtom], k: usize, p: Pair) -> (r: bool)
    requires
        k < atoms@.len(),
    ensures
        r == (atoms@[k as int] matches TextAtom::Scalar(v) && matches_bracket(p, v)),
{
    match atoms[k] {
        TextAtom::Scalar(v) => exec_matches_bracket(p, v),
        _ => false,
    }
}

fn exec_closer_run(atoms: &[TextAtom], j: usize, pairs: &Vec<Pair>) -> (r: usize)
    requires
        j <= atoms@.len(),
    ensures
        r == closer_run(atoms@, j as int, pairs@, 0),
        r <= pairs@.len(),
        j + r <= atoms@.len(),
{
    let n = atoms.len();
    let mut c: usize = 0;
    while c < pairs.len() && j + c < n && closes_at(atoms, j + c, pairs[pairs.len() - 1 - c])
        invariant
            n == atoms@.len(),
            c <= pairs@.len(),
            j + c <= atoms@.len(),
            closer_run(atoms@, j as int, pairs@, 0) == closer_run(atoms@, j as int, pairs@, c as nat),
        decreases pairs@.len() - c,
    {
        c = c + 1;
    }
    c
}

fn is_bracket(p: Pair) -> (r: bool)
    ensures
        r == (p is Bracket),
{
    match p {
        Pair::Bracket { .. } => true,
        Pair::Quote(_) => false,
    }
}

fn exec_top_brackets(pairs: &Vec<Pair>) -> (r: usize)
    ensures
        r == top_brackets(pairs@),
        r <= pairs@.len(),
{
    let mut n: usize = 0;
    assert(pairs@.take(pairs@.len() as int) =~= pairs@);
    while n < pairs.len() && is_bracket(pairs[pairs.len() - 1 - n])
        invariant
            n <= pairs@.len(),
            top_brackets(pairs@) == n + top_brackets(pairs@.take(pairs@.len() - n)),
        decreases pairs@.len() - n,
    {
        let ghost prefix = pairs@.take(pairs@.len() - n);
        assert(prefix.last() == pairs@[pairs@.len() - 1 - n]);
        assert(prefix.drop_last() =~= pairs@.take(pairs@.len() - (n + 1)));
        n = n + 1;
    }
    if n < pairs.len() {
        let ghost prefix = pairs@.take(pairs@.len() - n);
        assert(prefix.last() == pairs@[pairs@.len() - 1 - n]);
    } else {
        assert(pairs@.take(0) =~= Seq::<Pair>::empty());
    }
    n
}

fn exec_mark_separated(pairs: &mut Vec<Pair>)
    ensures
        final(pairs)@ == mark_separated(old(pairs)@),
{
    let ghost original = pairs@;
    let mut k: usize = 0;
    while k < pairs.len()
        invariant
            pairs@.len() == original.len(),
            k <= pairs@.len(),
            forall|m: int| 0 <= m < k ==> pairs@[m] == mark_separated(original)[m],
            forall|m: int| k <= m < pairs@.len() ==> pairs@[m] == original[m],
        decreases pairs@.len() - k,
    {
        let p = pairs[k];
        if let Pair::Bracket { closer, .. } = p {
            pairs.set(k, Pair::Bracket { closer, line_separated: true });
        }
        k = k + 1;
    }
    assert(pairs@ =~= mark_separated(original));
}

fn push_repeated(actions: &mut Vec<CodeAction>, a: CodeAction, n: usize)
    ensures
        final(actions)@ == old(actions)@ + repeat_action(a, n as nat),
{
    let mut k: usize = 0;
    while k < n
        invariant
            k <= n,
            actions@ == old(actions)@ + repeat_action(a, k as nat),
        decreases n - k,
    {
        actions.push(a);
        k = k + 1;
        assert(actions@ =~= old(actions)@ + repeat_action(a, k as nat));
    }
}

fn exec_line_break(sc: &mut Scanner, actions: &mut Vec<CodeAction>, lex: CodeLexState)
    requires
        old(sc).index < usize::MAX,
    ensures
        final(actions)@ == old(actions)@ + line_break_step(old(sc)@, lex).0,
        final(sc)@ == line_break_step(old(sc)@, lex).1,
{
    actions.push(CodeAction::Atom(TextAtom::LineBreak));
    exec_mark_separated(&mut sc.pairs);
    sc.lex = lex;
    sc.line_start = true;
    sc.index = sc.index + 1;
}

fn exec_literal(sc: &mut Scanner, actions: &mut Vec<CodeAction>, atom: TextAtom, lex: CodeLexState, line_start: bool)
    requires
        old(sc).index < usize::MAX,
    ensures
        final(actions)@ == old(actions)@ + literal_step(old(sc)@, atom, lex, line_start).0,
        final(sc)@ == literal_step(old(sc)@, atom, lex, line_start).1,
{
    actions.push(CodeAction::Atom(atom));
    sc.lex = lex;
    sc.line_start = line_start;
    sc.index = sc.index + 1;
}


fn is_indentation_atom(a: TextAtom) -> (r: bool)
    ensures
        r == is_code_indentation(a),
{
    a == TextAtom::Scalar(' ') || a == TextAtom::Tab
}

/// Whether the atom after `i` is `Scalar(v)`.
fn next_is(atoms: &[TextAtom], i: usize, v: char) -> (r: bool)
    requires
        i < atoms@.len(),
    ensures
        r == ((if i + 1 < atoms@.len() { Some(atoms@[i + 1]) } else { None }) == Some(
            TextAtom::Scalar(v),
        )),
{
    let n = atoms.len();
    i + 1 < n && atoms[i + 1] == TextAtom::Scalar(v)
}

/// A source line break in ordinary code.
fn exec_normal_line_break(atoms: &[TextAtom], sc: &mut Scanner, actions: &mut Vec<CodeAction>)
    requires
        old(sc).index < atoms@.len(),
        old(sc).lex == CodeLexState::Normal,
        !(old(sc).line_start && is_code_indentation(atoms@[old(sc).index as int])),
        atoms@[old(sc).index as int] == TextAtom::LineBreak,
    ensures
        final(actions)@ == old(actions)@ + normal_step(atoms@, old(sc)@).0,
        final(sc)@ == normal_step(atoms@, old(sc)@).1,
        old(sc).index < final(sc).index <= atoms@.len(),
{
    let len = atoms.len();
    let i = sc.index;
    let j = exec_skip_indentation(atoms, i + 1);
    let c = exec_closer_run(atoms, j, &sc.pairs);
    let n = sc.pairs.len();
    if n > 0 && c > 0 {
        if let Pair::Bracket { line_separated, .. } = sc.pairs[n - 1] {
            if !line_separated {
                actions.push(CodeAction::Atom(TextAtom::LineBreak));
                exec_mark_separated(&mut sc.pairs);
            }
            sc.pairs.truncate(n - c);
            actions.push(CodeAction::CursorRightToLineEnd);
            sc.lex = CodeLexState::Normal;
            sc.line_start = false;
            sc.index = j + c;
            return;
        }
    }
    exec_line_break(sc, actions, CodeLexState::Normal);
}

/// A scalar in ordinary code.
fn exec_normal_scalar(atoms: &[TextAtom], sc: &mut Scanner, actions: &mut Vec<CodeAction>, v: char)
    requires
        old(sc).index < atoms@.len(),
        old(sc).lex == CodeLexState::Normal,
        !(old(sc).line_start && is_code_indentation(atoms@[old(sc).index as int])),
        atoms@[old(sc).index as int] == TextAtom::Scalar(v),
    ensures
        final(actions)@ == old(actions)@ + normal_step(atoms@, old(sc)@).0,
        final(sc)@ == normal_step(atoms@, old(sc)@).1,
        old(sc).index < final(sc).index <= atoms@.len(),
{
    let len = atoms.len();
    let i = sc.index;
    let atom = TextAtom::Scalar(v);
    if v == '/' && next_is(atoms, i, '/') {
        exec_literal(sc, actions, atom, CodeLexState::LineComment, false);
        return;
    }
    if v == '/' && next_is(atoms, i, '*') {
        exec_literal(sc, actions, atom, CodeLexState::BlockComment { closing: false }, false);
        return;
    }
    if v == '`' {
        let n = exec_scalar_run_length(atoms, i, v);
        if n >= 3 {
            push_repeated(actions, CodeAction::Atom(atom), n);
            sc.line_start = false;
            sc.index = i + n;
            return;
        }
    }
    if v == '\'' || v == '"' {
        let q = if exec_has_scalar_run(atoms, i, v, 3) {
            QuoteKind::Triple(v)
        } else {
            QuoteKind::Single(v)
        };
        let len = q.exec_length();
        push_repeated(actions, CodeAction::Atom(TextAtom::Scalar(v)), len);
        sc.pairs.push(Pair::Quote(q));
        sc.lex = CodeLexState::Str { quote: q, escaped: false };
        sc.line_start = false;
        sc.index = i + len;
        return;
    }
    if let Some(closer) = exec_opening_pair(v) {
        actions.push(CodeAction::Atom(atom));
        sc.pairs.push(Pair::Bracket { closer, line_separated: false });
        sc.line_start = false;
        sc.index = i + 1;
        return;
    }
    let n = sc.pairs.len();
    if n > 0 && exec_matches_bracket(sc.pairs[n - 1], v) {
        sc.pairs.pop();
        actions.push(CodeAction::CursorRight);
        sc.line_start = false;
        sc.index = i + 1;
        return;
    }
    exec_literal(sc, actions, atom, CodeLexState::Normal, false);
}

fn exec_normal_step(atoms: &[TextAtom], sc: &mut Scanner, actions: &mut Vec<CodeAction>)
    requires
        old(sc).index < atoms@.len(),
        old(sc).lex == CodeLexState::Normal,
    ensures
        final(actions)@ == old(actions)@ + normal_step(atoms@, old(sc)@).0,
        final(sc)@ == normal_step(atoms@, old(sc)@).1,
        old(sc).index < final(sc).index <= atoms@.len(),
{
    let i = sc.index;
    let atom = atoms[i];
    if sc.line_start && is_indentation_atom(atom) {
        sc.index = i + 1;
        assert(actions@ =~= old(actions)@ + normal_step(atoms@, old(sc)@).0);
        return;
    }
    match atom {
        TextAtom::LineBreak => exec_normal_line_break(atoms, sc, actions),
        TextAtom::Tab => exec_literal(sc, actions, atom, CodeLexState::Normal, false),
        TextAtom::Scalar(v) => exec_normal_scalar(atoms, sc, actions, v),
    }
}

fn exec_line_comment_step(atoms: &[TextAtom], sc: &mut Scanner, actions: &mut Vec<CodeAction>)
    requires
        old(sc).index < atoms@.len(),
        old(sc).lex == CodeLexState::LineComment,
    ensures
        final(actions)@ == old(actions)@ + line_comment_step(atoms@, old(sc)@).0,
        final(sc)@ == line_comment_step(atoms@, old(sc)@).1,
        old(sc).index < final(sc).index <= atoms@.len(),
{
    let len = atoms.len();
    let atom = atoms[sc.index];
    if atom == TextAtom::LineBreak {
        sc.lex = CodeLexState::Normal;
        exec_normal_line_break(atoms, sc, actions);
    } else {
        let line_start = sc.line_start;
        exec_literal(sc, actions, atom, CodeLexState::LineComment, line_start);
    }
}

fn exec_block_comment_step(atoms: &[TextAtom], sc: &mut Scanner, actions: &mut Vec<CodeAction>, closing: bool)
    requires
        old(sc).index < atoms@.len(),
        old(sc).lex == (CodeLexState::BlockComment { closing }),
    ensures
        final(actions)@ == old(actions)@ + block_comment_step(atoms@, old(sc)@, closing).0,
        final(sc)@ == block_comment_step(atoms@, old(sc)@, closing).1,
        old(sc).index < final(sc).index <= atoms@.len(),
{
    let len = atoms.len();
    let i = sc.index;
    let atom = atoms[i];
    let lex = sc.lex;
    match atom {
        TextAtom::Scalar(v) => {
            if closing && v == '/' {
                exec_literal(sc, actions, atom, CodeLexState::Normal, false);
            } else if !closing && v == '*' && next_is(atoms, i, '/') {
                exec_literal(sc, actions, atom, CodeLexState::BlockComment { closing: true }, false);
            } else {
                exec_literal(sc, actions, atom, lex, false);
            }
        },
        TextAtom::LineBreak => exec_line_break(sc, actions, lex),
        TextAtom::Tab => exec_literal(sc, actions, atom, lex, false),
    }
}

/// Moves over every editor-generated bracket closer at the top of the stack.
fn exec_flush_brackets(sc: &mut Scanner, actions: &mut Vec<CodeAction>) -> (n: usize)
    ensures
        n == top_brackets(old(sc).pairs@),
        final(sc).pairs@ == old(sc).pairs@.take(old(sc).pairs@.len() - n),
        final(actions)@ == old(actions)@ + repeat_action(CodeAction::CursorRight, n as nat),
        final(sc).lex == old(sc).lex,
        final(sc).line_start == old(sc).line_start,
        final(sc).index == old(sc).index,
{
    let n = exec_top_brackets(&sc.pairs);
    let keep = sc.pairs.len() - n;
    sc.pairs.truncate(keep);
    push_repeated(actions, CodeAction::CursorRight, n);
    n
}

/// A scalar inside a string literal.
fn exec_string_scalar(
    atoms: &[TextAtom],
    sc: &mut Scanner,
    actions: &mut Vec<CodeAction>,
    q: QuoteKind,
    escaped: bool,
    v: char,
)
    requires
        old(sc).index < atoms@.len(),
        old(sc).lex == (CodeLexState::Str { quote: q, escaped }),
        atoms@[old(sc).index as int] == TextAtom::Scalar(v),
    ensures
        final(actions)@ == old(actions)@ + string_step(atoms@, old(sc)@, q, escaped).0,
        final(sc)@ == string_step(atoms@, old(sc)@, q, escaped).1,
        old(sc).index < final(sc).index <= atoms@.len(),
{
    let len = atoms.len();
    let i = sc.index;
    let atom = TextAtom::Scalar(v);
    let lex = sc.lex;
    let triple = match q {
        QuoteKind::Triple(_) => true,
        QuoteKind::Single(_) => false,
    };
    let d = q.exec_delimiter();
    if escaped {
        exec_literal(sc, actions, atom, CodeLexState::Str { quote: q, escaped: false }, false);
        return;
    }
    if v == '\\' {
        exec_literal(sc, actions, atom, CodeLexState::Str { quote: q, escaped: true }, false);
        return;
    }
    if triple && v == d && exec_has_scalar_run(atoms, i, v, q.exec_length()) {
        let n = sc.pairs.len();
        if n > 0 && sc.pairs[n - 1] == Pair::Quote(q) {
            sc.pairs.pop();
        }
        let ql = q.exec_length();
        push_repeated(actions, CodeAction::Atom(TextAtom::Scalar(d)), ql);
        sc.lex = CodeLexState::Normal;
        sc.line_start = false;
        sc.index = i + ql;
        return;
    }
    if !triple {
        if let Some(closer) = exec_opening_pair(v) {
            actions.push(CodeAction::Atom(atom));
            sc.pairs.push(Pair::Bracket { closer, line_separated: false });
            sc.line_start = false;
            sc.index = i + 1;
            return;
        }
        let n = sc.pairs.len();
        if n > 0 && exec_matches_bracket(sc.pairs[n - 1], v) {
            sc.pairs.pop();
            actions.push(CodeAction::CursorRight);
            sc.line_start = false;
            sc.index = i + 1;
            return;
        }
        if v == d {
            exec_flush_brackets(sc, actions);
            let m = sc.pairs.len();
            if m > 0 && sc.pairs[m - 1] == Pair::Quote(q) {
                sc.pairs.pop();
                actions.push(CodeAction::CursorRight);
            } else {
                actions.push(CodeAction::Atom(atom));
            }
            sc.lex = CodeLexState::Normal;
            sc.line_start = false;
            sc.index = i + 1;
            return;
        }
    }
    exec_literal(sc, actions, atom, lex, false);
}

fn exec_string_step(
    atoms: &[TextAtom],
    sc: &mut Scanner,
    actions: &mut Vec<CodeAction>,
    q: QuoteKind,
    escaped: bool,
)
    requires
        old(sc).index < atoms@.len(),
        old(sc).lex == (CodeLexState::Str { quote: q, escaped }),
    ensures
        final(actions)@ == old(actions)@ + string_step(atoms@, old(sc)@, q, escaped).0,
        final(sc)@ == string_step(atoms@, old(sc)@, q, escaped).1,
        old(sc).index < final(sc).index <= atoms@.len(),
{
    let len = atoms.len();
    let atom = atoms[sc.index];
    let lex = sc.lex;
    match atom {
        TextAtom::Scalar(v) => exec_string_scalar(atoms, sc, actions, q, escaped, v),
        TextAtom::LineBreak => exec_line_break(sc, actions, lex),
        TextAtom::Tab => exec_literal(sc, actions, atom, lex, false),
    }
}

fn exec_code_step(atoms: &[TextAtom], sc: &mut Scanner, actions: &mut Vec<CodeAction>)
    requires
        old(sc).index < atoms@.len(),
    ensures
        final(actions)@ == old(actions)@ + code_step(atoms@, old(sc)@).0,
        final(sc)@ == code_step(atoms@, old(sc)@).1,
        old(sc).index < final(sc).index <= atoms@.len(),
{
    match sc.lex {
        CodeLexState::Normal => exec_normal_step(atoms, sc, actions),
        CodeLexState::LineComment => exec_line_comment_step(atoms, sc, actions),
        CodeLexState::BlockComment { closing } => exec_block_comment_step(atoms, sc, actions, closing),
        CodeLexState::Str { quote, escaped } => exec_string_step(atoms, sc, actions, quote, escaped),
    }
}

/// Plans the Code-mode keyboard actions for normalized source atoms.
pub fn build_code_actions(atoms: &[TextAtom]) -> (r: Vec<CodeAction>)
    ensures
        r@ == code_actions(atoms@),
{
    let mut actions: Vec<CodeAction> = Vec::new();
    let mut sc = Scanner { lex: CodeLexState::Normal, pairs: Vec::new(), line_start: true, index: 0 };
    assert(sc@ =~= scan_start());
    while sc.index < atoms.len()
        invariant
            sc.index <= atoms@.len(),
            actions@ + code_run(atoms@, sc@) == code_actions(atoms@),
        decreases atoms@.len() - sc.index,
    {
        let ghost before = sc@;
        let ghost done = actions@;
        exec_code_step(atoms, &mut sc, &mut actions);
        assert(code_run(atoms@, before) == code_step(atoms@, before).0 + code_run(atoms@, sc@));
        assert(actions@ + code_run(atoms@, sc@) =~= done + code_run(atoms@, before));
    }
    assert(code_run(atoms@, sc@) =~= Seq::<CodeAction>::empty());
    assert(actions@ + code_run(atoms@, sc@) =~= actions@);
    actions
}

} // verus!

//! Inlay type hints: the binding sites that a syntax tree yields, and their
//! projection onto positions of the current text.

use vstd::prelude::*;

use crate::error::ServerError;
use crate::position::{Position, Range};
use crate::syntax::{
    Expression, ExpressionKind, FunctionDecl, FunctionDeclView, FunctionKind, LiteralKind, Span,
    Statement, SyntaxTree,
};
use crate::text_buffer::{offset_to_position, position_at, TextBuffer};

verus! {

/// A local binding of a literal: the span of the bound expression and the kind
/// of literal that it is.
#[derive(Clone, Copy, Debug, PartialEq, Eq, Structural)]
pub struct BindingSite {
    pub span: Span,
    pub kind: LiteralKind,
}

/// A decoration anchored at a position of a document.
#[derive(Clone, Debug, PartialEq, Eq)]
pub struct Hint {
    pub position: Position,
    pub label: String,
    pub uri: String,
    pub range: Range,
}

/// The mathematical value of a [`Hint`].
pub ghost struct HintView {
    pub position: Position,
    pub label: Seq<char>,
    pub uri: Seq<char>,
    pub range: Range,
}

impl View for Hint {
    type V = HintView;

    open spec fn view(&self) -> HintView {
        HintView { position: self.position, label: self.label@, uri: self.uri@, range: self.range }
    }
}

/// The values of a list of hints, in order.
pub open spec fn hint_views(hints: Seq<Hint>) -> Seq<HintView> {
    hints.map_values(|h: Hint| h@)
}

/// How far before the bound expression a hint is anchored. With one space on
/// either side of the `=` of a binding, this is the place right after the
/// name that is bound.
pub const ANCHOR_BACK_OFFSET: u32 = 2;

/// The text that labels a literal of the given kind.
pub open spec fn label_text(kind: LiteralKind) -> Seq<char> {
    match kind {
        LiteralKind::Array => ": array"@,
        LiteralKind::Bool => ": bool"@,
        LiteralKind::Integer => ": integer"@,
        LiteralKind::Str => ": string"@,
    }
}

/// The range that every hint's label links to.
pub open spec fn label_range() -> Range {
    Range {
        start: Position { line: 0, character: 4 },
        end: Position { line: 0, character: 5 },
    }
}

/// The binding site that a statement yields: one for a local binding of a
/// literal, none for any other statement.
pub open spec fn statement_site(statement: Statement) -> Option<BindingSite> {
    match statement {
        Statement::Let(Expression { kind: ExpressionKind::Literal(kind), span }) => Some(
            BindingSite { span, kind },
        ),
        _ => None,
    }
}

/// The binding sites of a sequence of statements: the sites that the
/// statements yield, in the order of the statements.
pub open spec fn body_sites(body: Seq<Statement>) -> Seq<BindingSite> {
    body.filter_map(|statement: Statement| statement_site(statement))
}

/// The binding sites of a function: those of its body for an ordinary
/// function, none for any other.
pub open spec fn function_sites(function: FunctionDeclView) -> Seq<BindingSite> {
    if function.kind == FunctionKind::Normal {
        body_sites(function.body)
    } else {
        Seq::empty()
    }
}

/// The binding sites of a sequence of functions: those of each function, one
/// function after the other in the order of the functions.
pub open spec fn tree_sites(functions: Seq<FunctionDeclView>) -> Seq<BindingSite> {
    functions.map_values(|function: FunctionDeclView| function_sites(function)).flatten()
}

/// The offset at which the hint of a site is anchored.
pub open spec fn anchor_offset(site: BindingSite) -> int {
    site.span.start - ANCHOR_BACK_OFFSET
}

/// The hint that a site yields against the text `text` of document `uri`:
/// none where its anchor does not lie within the text.
pub open spec fn site_hint(text: Seq<char>, uri: Seq<char>, site: BindingSite) -> Option<HintView> {
    match position_at(text, anchor_offset(site)) {
        Some(position) => Some(
            HintView { position, label: label_text(site.kind), uri, range: label_range() },
        ),
        None => None,
    }
}

/// The hints of a list of sites: the hints that the sites yield, in the order
/// of the sites. A site without a hint leaves no trace.
pub open spec fn projected_hints(text: Seq<char>, uri: Seq<char>, sites: Seq<BindingSite>) -> Seq<
    HintView,
> {
    sites.filter_map(|site: BindingSite| site_hint(text, uri, site))
}

impl LiteralKind {
    /// The text that labels a literal of this kind.
    pub fn label(self) -> (label: String)
        ensures
            label@ == label_text(self),
    {
        match self {
            LiteralKind::Array => ": array".to_owned(),
            LiteralKind::Bool => ": bool".to_owned(),
            LiteralKind::Integer => ": integer".to_owned(),
            LiteralKind::Str => ": string".to_owned(),
        }
    }
}

impl Expression {
    /// The kind of literal that this expression is, if it is one.
    pub fn literal_kind(&self) -> (kind: Option<LiteralKind>)
        ensures
            kind == match self.kind {
                ExpressionKind::Literal(kind) => Some(kind),
                ExpressionKind::Other => None,
            },
    {
        match self.kind {
            ExpressionKind::Literal(kind) => Some(kind),
            ExpressionKind::Other => None,
        }
    }
}

impl Statement {
    /// The binding site that this statement yields, if any.
    pub fn binding_site(&self) -> (site: Option<BindingSite>)
        ensures
            site == statement_site(*self),
    {
        match self {
            Statement::Let(expression) => match expression.literal_kind() {
                Some(kind) => Some(BindingSite { span: expression.span, kind }),
                None => None,
            },
            Statement::Other => None,
        }
    }
}

/// The binding sites of `tree`: for each ordinary function in declaration
/// order, and each local binding of a literal in statement order, one site.
pub fn extract_binding_sites(tree: &SyntaxTree) -> (sites: Vec<BindingSite>)
    ensures
        sites@ == tree_sites(tree@.functions),
{
    let mut sites: Vec<BindingSite> = Vec::new();
    let mut i: usize = 0;
    while i < tree.functions.len()
        invariant
            i <= tree.functions.len(),
            sites@ == tree_sites(tree@.functions.take(i as int)),
        decreases tree.functions.len() - i,
    {
        let function: &FunctionDecl = &tree.functions[i];
        let ghost before = sites@;
        match function.kind {
            FunctionKind::Normal => {
                let mut j: usize = 0;
                while j < function.body.len()
                    invariant
                        j <= function.body.len(),
                        sites@ == before + body_sites(function.body@.take(j as int)),
                    decreases function.body.len() - j,
                {
                    proof {
                        assert(function.body@.take(j + 1).drop_last() == function.body@.take(
                            j as int,
                        ));
                    }
                    match function.body[j].binding_site() {
                        Some(site) => {
                            sites.push(site);
                        },
                        None => {},
                    }
                    j += 1;
                }
                proof {
                    assert(function.body@.take(function.body.len() as int) == function.body@);
                }
            },
            _ => {},
        }
        proof {
            assert(tree@.functions.take(i + 1) == tree@.functions.take(i as int).push(function@));
            lemma_tree_sites_push(tree@.functions.take(i as int), function@);
        }
        i += 1;
    }
    proof {
        assert(tree@.functions.take(tree.functions.len() as int) == tree@.functions);
    }
    sites
}

/// The hint of one site against the current text of document `uri`. The
/// anchor lies `ANCHOR_BACK_OFFSET` characters before the bound expression;
/// where that is not an offset of the text, the site has no hint.
pub fn project_site(site: &BindingSite, buffer: &TextBuffer, uri: &str) -> (r: Result<
    Hint,
    ServerError,
>)
    ensures
        match r {
            Ok(hint) => site_hint(buffer@, uri@, *site) == Some(hint@),
            Err(e) => e == ServerError::PositionOutOfRange && site_hint(buffer@, uri@, *site)
                is None,
        },
{
    if site.span.start < ANCHOR_BACK_OFFSET {
        return Err(ServerError::PositionOutOfRange);
    }
    let anchor: usize = (site.span.start - ANCHOR_BACK_OFFSET) as usize;
    match offset_to_position(anchor, buffer) {
        Some(position) => Ok(
            Hint {
                position,
                label: site.kind.label(),
                uri: uri.to_owned(),
                range: Range::new(Position::new(0, 4), Position::new(0, 5)),
            },
        ),
        None => Err(ServerError::PositionOutOfRange),
    }
}

/// The hints of `sites` against the current text of document `uri`, in the
/// order of the sites. A site whose anchor lies outside the text is dropped;
/// the others keep their hints.
pub fn project_hints(sites: &Vec<BindingSite>, buffer: &TextBuffer, uri: &str) -> (hints: Vec<Hint>)
    ensures
        hint_views(hints@) == projected_hints(buffer@, uri@, sites@),
{
    let mut hints: Vec<Hint> = Vec::new();
    let mut i: usize = 0;
    while i < sites.len()
        invariant
            i <= sites.len(),
            hint_views(hints@) == projected_hints(buffer@, uri@, sites@.take(i as int)),
        decreases sites.len() - i,
    {
        proof {
            assert(sites@.take(i + 1).drop_last() == sites@.take(i as int));
        }
        match project_site(&sites[i], buffer, uri) {
            Ok(hint) => {
                let ghost before = hints@;
                hints.push(hint);
                proof {
                    assert(hint_views(hints@) == hint_views(before).push(hint@));
                }
            },
            Err(_) => {},
        }
        i += 1;
    }
    proof {
        assert(sites@.take(sites.len() as int) == sites@);
    }
    hints
}

/// The sites of a sequence of functions with one more function at its end
/// are the sites of the sequence followed by those of that function.
pub proof fn lemma_tree_sites_push(functions: Seq<FunctionDeclView>, function: FunctionDeclView)
    ensures
        tree_sites(functions.push(function)) == tree_sites(functions) + function_sites(function),
{
    let per_function = |function: FunctionDeclView| function_sites(function);
    assert(functions.push(function).map_values(per_function) == functions.map_values(
        per_function,
    ).push(function_sites(function)));
    functions.map_values(per_function).lemma_flatten_push(function_sites(function));
}

/// What is kept of a sequence and mapped, one part after the other, is what
/// is kept of the first part followed by what is kept of the second.
proof fn lemma_filter_map_concat<A, B>(a: Seq<A>, b: Seq<A>, f: spec_fn(A) -> Option<B>)
    ensures
        (a + b).filter_map(f) == a.filter_map(f) + b.filter_map(f),
    decreases b.len(),
{
    if b.len() == 0 {
        assert(a + b == a);
    } else {
        assert((a + b).drop_last() == a + b.drop_last());
        lemma_filter_map_concat(a, b.drop_last(), f);
    }
}

/// Order within a body: the sites of two stretches of statements, one after
/// the other, are the sites of the first followed by the sites of the second.
/// So the sites stand in the order of their statements.
pub proof fn lemma_body_sites_concat(a: Seq<Statement>, b: Seq<Statement>)
    ensures
        body_sites(a + b) == body_sites(a) + body_sites(b),
{
    lemma_filter_map_concat(a, b, |statement: Statement| statement_site(statement));
}

/// Order among functions: the sites of two stretches of functions, one after
/// the other, are the sites of the first followed by the sites of the second.
pub proof fn lemma_tree_sites_concat(a: Seq<FunctionDeclView>, b: Seq<FunctionDeclView>)
    ensures
        tree_sites(a + b) == tree_sites(a) + tree_sites(b),
    decreases b.len(),
{
    if b.len() == 0 {
        assert(a + b == a);
        assert(tree_sites(b) == Seq::<BindingSite>::empty());
    } else {
        assert(a + b == (a + b.drop_last()).push(b.last()));
        assert(b == b.drop_last().push(b.last()));
        lemma_tree_sites_concat(a, b.drop_last());
        lemma_tree_sites_push(a + b.drop_last(), b.last());
        lemma_tree_sites_push(b.drop_last(), b.last());
    }
}

/// Count: a body yields as many sites as it has local bindings of literals.
pub proof fn lemma_body_sites_len(body: Seq<Statement>)
    ensures
        body_sites(body).len() == body.filter(
            |statement: Statement| statement_site(statement) is Some,
        ).len(),
    decreases body.len(),
{
    reveal(Seq::filter);
    if body.len() > 0 {
        lemma_body_sites_len(body.drop_last());
    }
}

/// Each site stands for its statement: the site at index `k` is the one that
/// the `k`-th local binding of a literal yields.
pub proof fn lemma_body_sites_index(body: Seq<Statement>, k: int)
    requires
        0 <= k < body_sites(body).len(),
    ensures
        k < body.filter(|statement: Statement| statement_site(statement) is Some).len(),
        statement_site(
            body.filter(|statement: Statement| statement_site(statement) is Some)[k],
        ) == Some(body_sites(body)[k]),
    decreases body.len(),
{
    reveal(Seq::filter);
    lemma_body_sites_len(body);
    if body.len() > 0 {
        lemma_body_sites_len(body.drop_last());
        if k < body_sites(body.drop_last()).len() {
            lemma_body_sites_index(body.drop_last(), k);
        }
    }
}

/// A site without a hint does not disturb the others: the hints of two
/// stretches of sites, one after the other, are the hints of the first
/// followed by the hints of the second.
pub proof fn lemma_projected_hints_concat(
    text: Seq<char>,
    uri: Seq<char>,
    a: Seq<BindingSite>,
    b: Seq<BindingSite>,
)
    ensures
        projected_hints(text, uri, a + b) == projected_hints(text, uri, a) + projected_hints(
            text,
            uri,
            b,
        ),
{
    lemma_filter_map_concat(a, b, |site: BindingSite| site_hint(text, uri, site));
}

/// A site whose anchor lies outside the text yields no hint and leaves the
/// hints of the sites around it as they are.
pub proof fn lemma_stale_site_dropped(
    text: Seq<char>,
    uri: Seq<char>,
    a: Seq<BindingSite>,
    stale: BindingSite,
    b: Seq<BindingSite>,
)
    requires
        !(0 <= anchor_offset(stale) <= text.len()),
    ensures
        projected_hints(text, uri, a.push(stale) + b) == projected_hints(text, uri, a + b),
{
    lemma_projected_hints_concat(text, uri, a.push(stale), b);
    lemma_projected_hints_concat(text, uri, a, b);
    assert(a.push(stale).drop_last() == a);
}

} // verus!

//! The layout engine: a stack of open containers, and the display list that
//! the widgets fill during one pass over the screen.

use vstd::prelude::*;
use crate::layout::{Cont, ContType, Container};
use crate::vec2::{GridVector, Vec2};

verus! {

/// The colour pair of ordinary text.
pub const REGULAR_PAIR: i16 = 0;

/// The colour pair of highlighted text, ordinary text in reverse video.
pub const HIGHLIGHT_PAIR: i16 = 1;

/// What a [`DrawText`] stands for in contracts.
pub struct DrawnText {
    pub pos: GridVector,
    pub pair: i16,
    pub text: Seq<char>,
}

/// One entry of the display list: `text` in colour pair `pair`, its first
/// character at `pos`.
#[derive(Debug, PartialEq, Eq)]
pub struct DrawText {
    pub pos: Vec2,
    pub pair: i16,
    pub text: String,
}

impl View for DrawText {
    type V = DrawnText;

    open spec fn view(&self) -> DrawnText {
        DrawnText { pos: self.pos@, pair: self.pair, text: self.text@ }
    }
}

/// The four operations that open and close scopes.
pub enum ScopeOp {
    /// Opens the root container of a pass.
    Begin,
    /// Opens a child of the innermost open container.
    Open,
    /// Closes the innermost child.
    Close,
    /// Closes the root container.
    End,
}

impl ScopeOp {
    /// Whether the operation may be applied with `depth` containers open.
    /// A pass has one root, children need a parent, the root is closed by
    /// `End` alone, and only once every child is closed.
    pub open spec fn allowed(self, depth: nat) -> bool {
        match self {
            ScopeOp::Begin => depth == 0,
            ScopeOp::Open => depth >= 1,
            ScopeOp::Close => depth >= 2,
            ScopeOp::End => depth == 1,
        }
    }

    /// The number of open containers after the operation.
    pub open spec fn depth_after(self, depth: nat) -> nat {
        match self {
            ScopeOp::Begin | ScopeOp::Open => depth + 1,
            ScopeOp::Close | ScopeOp::End => (depth - 1) as nat,
        }
    }
}

/// The number of open containers after the operations `ops` were applied in
/// order, starting with `depth` open; `None` where one of them was not
/// allowed when its turn came.
pub open spec fn run_scopes(ops: Seq<ScopeOp>, depth: nat) -> Option<nat>
    decreases ops.len(),
{
    if ops.len() == 0 {
        Some(depth)
    } else {
        match run_scopes(ops.drop_last(), depth) {
            Some(d) => if ops.last().allowed(d) {
                Some(ops.last().depth_after(d))
            } else {
                None
            },
            None => None,
        }
    }
}

/// The operations open and close children only.
pub open spec fn children_only(ops: Seq<ScopeOp>) -> bool {
    forall|i: int| 0 <= i < ops.len() ==> (#[trigger] ops[i] is Open || ops[i] is Close)
}

/// How many more children the operations open than they close.
pub open spec fn net_opened(ops: Seq<ScopeOp>) -> int
    decreases ops.len(),
{
    if ops.len() == 0 {
        0
    } else {
        net_opened(ops.drop_last()) + match ops.last() {
            ScopeOp::Begin | ScopeOp::Open => 1int,
            ScopeOp::Close | ScopeOp::End => -1int,
        }
    }
}

/// Every close has its open before it, and every open its close.
pub open spec fn balanced(ops: Seq<ScopeOp>) -> bool {
    &&& forall|k: int| 0 <= k <= ops.len() ==> net_opened(#[trigger] ops.take(k)) >= 0
    &&& net_opened(ops) == 0
}

/// A whole pass: the root is opened, `body` runs in it, the root is closed.
pub open spec fn pass(body: Seq<ScopeOp>) -> Seq<ScopeOp> {
    seq![ScopeOp::Begin] + body + seq![ScopeOp::End]
}

/// `n` times the same operation.
pub open spec fn repeat(op: ScopeOp, n: nat) -> Seq<ScopeOp> {
    Seq::new(n, |i: int| op)
}

/// One operation alone succeeds where it is allowed.
pub proof fn lemma_run_one(op: ScopeOp, depth: nat)
    ensures
        run_scopes(seq![op], depth) == if op.allowed(depth) {
            Some(op.depth_after(depth))
        } else {
            None
        },
{
    reveal_with_fuel(run_scopes, 2);
}

/// Operations that run one after the other: the second sequence starts
/// where the first one ended, and fails where the first one failed.
pub proof fn lemma_run_scopes_concat(a: Seq<ScopeOp>, b: Seq<ScopeOp>, depth: nat)
    ensures
        run_scopes(a + b, depth) == match run_scopes(a, depth) {
            Some(d) => run_scopes(b, d),
            None => None,
        },
    decreases b.len(),
{
    if b.len() > 0 {
        assert((a + b).drop_last() =~= a + b.drop_last());
        lemma_run_scopes_concat(a, b.drop_last(), depth);
    }
}

/// Inside a pass, opening and closing children succeeds as long as no
/// close comes without an open child, and then leaves open what the
/// operations opened and did not close.
pub proof fn lemma_run_children(body: Seq<ScopeOp>, depth: nat)
    requires
        children_only(body),
        depth >= 1,
    ensures
        run_scopes(body, depth) == if forall|k: int|
            0 <= k <= body.len() ==> depth + net_opened(#[trigger] body.take(k)) >= 1 {
            Some((depth + net_opened(body)) as nat)
        } else {
            None
        },
    decreases body.len(),
{
    assert(body.take(body.len() as int) =~= body);
    if body.len() > 0 {
        let front = body.drop_last();
        lemma_run_children(front, depth);
        assert forall|k: int| 0 <= k <= front.len() implies #[trigger] front.take(k)
            =~= body.take(k) by {}
        if !(forall|k: int|
            0 <= k <= body.len() ==> depth + net_opened(#[trigger] body.take(k)) >= 1) {
            let k = choose|k: int|
                0 <= k <= body.len() && !(depth + net_opened(#[trigger] body.take(k)) >= 1);
            if k <= front.len() {
                assert(front.take(k) == body.take(k));
            }
        }
    }
}

/// After `Begin`, children opened to any depth and closed again let `End`
/// succeed, and the pass leaves no container open: with `n` opens and `n`
/// closes the pass runs through.
pub proof fn lemma_nested_pass_succeeds(n: nat)
    ensures
        run_scopes(pass(repeat(ScopeOp::Open, n) + repeat(ScopeOp::Close, n)), 0) == Some(0nat),
{
    let body = repeat(ScopeOp::Open, n) + repeat(ScopeOp::Close, n);
    assert forall|k: int| 0 <= k <= body.len() implies net_opened(#[trigger] body.take(k))
        == if k <= n {
        k
    } else {
        2 * n - k
    } by {
        lemma_net_of_nested(n, k);
    }
    lemma_pass_succeeds_iff_balanced(body);
}

/// What `k` operations of `n` opens followed by `n` closes leave open.
proof fn lemma_net_of_nested(n: nat, k: int)
    requires
        0 <= k <= 2 * n,
    ensures
        net_opened((repeat(ScopeOp::Open, n) + repeat(ScopeOp::Close, n)).take(k)) == if k <= n {
            k
        } else {
            2 * n - k
        },
    decreases k,
{
    let body = repeat(ScopeOp::Open, n) + repeat(ScopeOp::Close, n);
    if k > 0 {
        lemma_net_of_nested(n, k - 1);
        assert(body.take(k).drop_last() =~= body.take(k - 1));
    }
}

/// A pass whose body opens and closes children runs through if and only
/// if the body is balanced, and then it leaves no container open. So a
/// close too many, and an open child at `End`, both make the pass fail.
pub proof fn lemma_pass_succeeds_iff_balanced(body: Seq<ScopeOp>)
    requires
        children_only(body),
    ensures
        balanced(body) ==> run_scopes(pass(body), 0) == Some(0nat),
        !balanced(body) ==> run_scopes(pass(body), 0) is None,
{
    let begin = seq![ScopeOp::Begin];
    let end = seq![ScopeOp::End];
    lemma_run_one(ScopeOp::Begin, 0);
    lemma_run_scopes_concat(begin, body, 0);
    lemma_run_scopes_concat(begin + body, end, 0);
    lemma_run_children(body, 1);
    match run_scopes(body, 1) {
        Some(d) => {
            lemma_run_one(ScopeOp::End, d);
        },
        None => {},
    }
}

/// While a pass is open, whatever children are open in it, a second
/// `Begin` fails, and nothing that follows it can mend that.
pub proof fn lemma_nested_begin_fails(body: Seq<ScopeOp>, rest: Seq<ScopeOp>)
    requires
        children_only(body),
    ensures
        run_scopes(seq![ScopeOp::Begin] + body + seq![ScopeOp::Begin] + rest, 0) is None,
{
    let begin = seq![ScopeOp::Begin];
    lemma_run_one(ScopeOp::Begin, 0);
    lemma_run_scopes_concat(begin, body, 0);
    lemma_run_scopes_concat(begin + body, begin, 0);
    lemma_run_scopes_concat(begin + body + begin, rest, 0);
    lemma_run_children(body, 1);
    match run_scopes(body, 1) {
        Some(d) => {
            lemma_run_one(ScopeOp::Begin, d);
        },
        None => {},
    }
}

/// The layout engine. `containers` holds the open scopes, innermost last;
/// `draws` is the display list, in drawing order.
#[derive(Debug)]
pub struct UI {
    pub containers: Vec<Cont>,
    pub draws: Vec<DrawText>,
}

impl Default for UI {
    fn default() -> (ui: UI)
        ensures
            ui.stack() == Seq::<Container>::empty(),
            ui.drawn() == Seq::<DrawnText>::empty(),
    {
        UI { containers: Vec::new(), draws: Vec::new() }
    }
}

impl UI {
    /// The open containers, innermost last.
    pub open spec fn stack(&self) -> Seq<Container> {
        self.containers@.map_values(|c: Cont| c@)
    }

    /// The display list so far.
    pub open spec fn drawn(&self) -> Seq<DrawnText> {
        self.draws@.map_values(|d: DrawText| d@)
    }

    /// The number of open containers.
    pub open spec fn depth(&self) -> nat {
        self.stack().len()
    }

    /// The stack after a child of the innermost container was opened.
    pub open spec fn opened(stack: Seq<Container>, kind: ContType) -> Seq<Container> {
        stack.push(Container::empty(kind, stack.last().next_slot()))
    }

    /// The stack after the innermost container was closed and its size
    /// folded into its parent.
    pub open spec fn closed(stack: Seq<Container>) -> Seq<Container> {
        let parent = stack[stack.len() - 2];
        stack.take(stack.len() - 2).push(parent.add_extent(stack.last().accumulated_size))
    }

    /// Opens the root container of a pass at `pos`.
    pub fn begin(&mut self, pos: Vec2, kind: ContType)
        requires
            ScopeOp::Begin.allowed(old(self).depth()),
        ensures
            final(self).stack() == seq![Container::empty(kind, pos@)],
            final(self).depth() == ScopeOp::Begin.depth_after(old(self).depth()),
            final(self).draws == old(self).draws,
    {
        self.containers.push(Cont { kind, pos, size: Vec2::new(0, 0) });
    }

    /// Opens a child container at the next free position of the innermost
    /// open container.
    pub fn begin_container(&mut self, kind: ContType)
        requires
            ScopeOp::Open.allowed(old(self).depth()),
            old(self).stack().last().next_slot().fits(),
        ensures
            final(self).stack() == UI::opened(old(self).stack(), kind),
            final(self).depth() == ScopeOp::Open.depth_after(old(self).depth()),
            final(self).draws == old(self).draws,
    {
        let n = self.containers.len();
        let pos = self.containers[n - 1].available_pos();
        self.containers.push(Cont { kind, pos, size: Vec2::new(0, 0) });
    }

    /// Closes the innermost child and lets its parent take up its size.
    pub fn end_container(&mut self)
        requires
            ScopeOp::Close.allowed(old(self).depth()),
            old(self).stack()[old(self).depth() - 2].folded_size(
                old(self).stack().last().accumulated_size,
            ).fits(),
        ensures
            final(self).stack() == UI::closed(old(self).stack()),
            final(self).depth() == ScopeOp::Close.depth_after(old(self).depth()),
            final(self).draws == old(self).draws,
    {
        let child = self.containers.pop().unwrap();
        let n = self.containers.len();
        self.containers[n - 1].add_widget(child.size);
    }

    /// Closes the root container, which ends the pass.
    pub fn end(&mut self)
        requires
            ScopeOp::End.allowed(old(self).depth()),
        ensures
            final(self).stack() == Seq::<Container>::empty(),
            final(self).depth() == ScopeOp::End.depth_after(old(self).depth()),
            final(self).draws == old(self).draws,
    {
        self.containers.pop();
    }
}

} // verus!

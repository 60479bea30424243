//! Terminal operations, as values: the library decides them, the caller performs them.
use vstd::prelude::*;

verus! {

/// One operation on the terminal.
#[derive(Debug)]
pub enum TermOp {
    Print(String),
    MoveUp(u16),
    MoveDown(u16),
    MoveToColumn(u16),
    ClearCurrentLine,
    ClearFromCursorDown,
    SavePosition,
    RestorePosition,
}

/// Mathematical value of a [`TermOp`].
pub enum TermOpView {
    Print(Seq<char>),
    MoveUp(u16),
    MoveDown(u16),
    MoveToColumn(u16),
    ClearCurrentLine,
    ClearFromCursorDown,
    SavePosition,
    RestorePosition,
}

impl View for TermOp {
    type V = TermOpView;

    open spec fn view(&self) -> TermOpView {
        match self {
            TermOp::Print(s) => TermOpView::Print(s@),
            TermOp::MoveUp(n) => TermOpView::MoveUp(*n),
            TermOp::MoveDown(n) => TermOpView::MoveDown(*n),
            TermOp::MoveToColumn(n) => TermOpView::MoveToColumn(*n),
            TermOp::ClearCurrentLine => TermOpView::ClearCurrentLine,
            TermOp::ClearFromCursorDown => TermOpView::ClearFromCursorDown,
            TermOp::SavePosition => TermOpView::SavePosition,
            TermOp::RestorePosition => TermOpView::RestorePosition,
        }
    }
}

/// The values of a sequence of operations.
pub open spec fn ops_view(ops: Seq<TermOp>) -> Seq<TermOpView> {
    ops.map_values(|o: TermOp| o@)
}

/// Appends one operation.
pub fn push_op(ops: &mut Vec<TermOp>, op: TermOp)
    ensures
        ops_view(final(ops)@) == ops_view(old(ops)@).push(op@),
{
    let ghost before = ops@;
    ops.push(op);
    assert(ops_view(ops@) =~= ops_view(before).push(op@));
}

} // verus!

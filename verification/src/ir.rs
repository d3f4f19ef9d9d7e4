//! The intermediate representation the walker visits: basic blocks of
//! statements ended by terminators, places built from projections,
//! value-producing expressions, and the call patterns the walker
//! recognizes.  Collaborator-resolved facts — the labeled type of an
//! assignment's value side, the identity of a callee — stand in the
//! representation as plain values.

use vstd::prelude::*;
use crate::ty::{lty_view, LTy, LTyView, ty_view, Ty, TyView};

verus! {

/// A program point: a statement or terminator's position within a basic
/// block.  The index one past the last statement addresses the
/// terminator.
#[derive(Clone, Copy, PartialEq, Eq, Structural, Debug)]
pub struct Location {
    pub block: usize,
    pub statement_index: usize,
}

/// Mutability of a borrow or raw-borrow.
#[derive(Clone, Copy, PartialEq, Eq, Structural, Debug)]
pub enum Mutability {
    Not,
    Mut,
}

/// The kind of borrow a reference expression takes.
#[derive(Clone, Copy, PartialEq, Eq, Structural, Debug)]
pub enum BorrowKind {
    Shared,
    Shallow,
    Unique,
    Mut,
}

/// One projection step of an addressable location.
#[derive(Clone, Copy, PartialEq, Eq, Structural, Debug)]
pub enum PlaceElem {
    /// Dereference the pointer the base holds.
    Deref,
    /// Select the named field of the base, by index.
    Field(usize),
    /// Index into the base with a variable.
    Index,
    /// Index into the base with a constant.
    ConstantIndex,
    /// Take a subslice of the base.
    Subslice,
    /// View the base as one variant of its enum; structurally a no-op.
    Downcast,
}

/// An addressable location: a root variable and a chain of projections.
#[derive(Debug, PartialEq, Eq)]
pub struct Place {
    pub local: usize,
    pub projection: Vec<PlaceElem>,
}

/// Mathematical model of a place.
#[verifier::ext_equal]
pub struct PlaceView {
    pub local: usize,
    pub projection: Seq<PlaceElem>,
}

impl View for Place {
    type V = PlaceView;

    open spec fn view(&self) -> PlaceView {
        PlaceView { local: self.local, projection: self.projection@ }
    }
}

/// An operand of a value expression or call.
#[derive(Debug, PartialEq, Eq)]
pub enum Operand {
    /// Read a place, leaving it live.
    Copy(Place),
    /// Move out of a place.
    Move(Place),
    /// A constant; the walker only ever asks whether it is a literal
    /// zero.
    Constant { zero: bool },
}

/// Mathematical model of an operand.
#[verifier::ext_equal]
pub enum OperandView {
    Copy(PlaceView),
    Move(PlaceView),
    Constant { zero: bool },
}

impl View for Operand {
    type V = OperandView;

    open spec fn view(&self) -> OperandView {
        match *self {
            Operand::Copy(pl) => OperandView::Copy(pl@),
            Operand::Move(pl) => OperandView::Move(pl@),
            Operand::Constant { zero } => OperandView::Constant { zero },
        }
    }
}

impl Operand {
    /// The place the operand reads, if any.
    pub open spec fn spec_place(self) -> Option<PlaceView> {
        match self {
            Operand::Copy(pl) => Some(pl@),
            Operand::Move(pl) => Some(pl@),
            Operand::Constant { .. } => None,
        }
    }

    /// The place the operand reads, if any.
    pub fn place(&self) -> (r: Option<&Place>)
        ensures
            match r {
                Some(pl) => self.spec_place() == Some(pl@),
                None => self.spec_place() is None,
            },
    {
        match self {
            Operand::Copy(pl) => Some(pl),
            Operand::Move(pl) => Some(pl),
            Operand::Constant { .. } => None,
        }
    }

    /// Whether the operand is a literal zero constant.
    pub fn is_null_const(&self) -> (r: bool)
        ensures
            r == (self@ matches OperandView::Constant { zero } && zero),
    {
        match self {
            Operand::Constant { zero } => *zero,
            _ => false,
        }
    }
}

pub open spec fn operand_place_view(op: OperandView) -> Option<PlaceView> {
    match op {
        OperandView::Copy(pl) => Some(pl),
        OperandView::Move(pl) => Some(pl),
        OperandView::Constant { .. } => None,
    }
}

/// A value-producing expression.
pub enum Rvalue {
    /// Use an operand as-is.
    Use(Operand),
    /// Repeat an operand to fill an array.
    Repeat(Operand),
    /// Take a reference to a place.
    Ref { kind: BorrowKind, place: Place },
    /// Reference a thread-local; not rewritten.
    ThreadLocalRef,
    /// Take a raw borrow of a place.
    AddressOf { mutbl: Mutability, place: Place },
    /// The length of the array or slice a place holds.
    Len(Place),
    /// Cast an operand to the given type.
    Cast { op: Operand, ty: Ty },
    /// A binary operation.
    BinaryOp(Operand, Operand),
    /// A binary operation with an overflow flag.
    CheckedBinaryOp(Operand, Operand),
    /// An operation without operands.
    NullaryOp,
    /// A unary operation.
    UnaryOp(Operand),
    /// Read the discriminant of the enum a place holds.
    Discriminant(Place),
    /// Build an aggregate from operands.
    Aggregate(Vec<Operand>),
    /// Allocate a box holding the operand.
    ShallowInitBox(Operand),
    /// Copy a place for a later dereference.
    CopyForDeref(Place),
}

/// Mathematical model of a value expression.
#[verifier::ext_equal]
pub enum RvalueView {
    Use(OperandView),
    Repeat(OperandView),
    Ref { kind: BorrowKind, place: PlaceView },
    ThreadLocalRef,
    AddressOf { mutbl: Mutability, place: PlaceView },
    Len(PlaceView),
    Cast { op: OperandView, ty: TyView },
    BinaryOp(OperandView, OperandView),
    CheckedBinaryOp(OperandView, OperandView),
    NullaryOp,
    UnaryOp(OperandView),
    Discriminant(PlaceView),
    Aggregate(Seq<OperandView>),
    ShallowInitBox(OperandView),
    CopyForDeref(PlaceView),
}

/// The views of a list of operands.
pub open spec fn operands_view(ops: Seq<Operand>) -> Seq<OperandView>
    decreases ops,
{
    if ops.len() == 0 {
        Seq::empty()
    } else {
        operands_view(ops.drop_last()).push(ops.last()@)
    }
}

pub proof fn lemma_operands_view(ops: Seq<Operand>)
    ensures
        operands_view(ops).len() == ops.len(),
        forall|i: int| 0 <= i < ops.len() ==> operands_view(ops)[i] == ops[i]@,
    decreases ops,
{
    if ops.len() > 0 {
        lemma_operands_view(ops.drop_last());
        assert(forall|i: int| 0 <= i < ops.len() - 1 ==> ops.drop_last()[i] == ops[i]);
    }
}

impl View for Rvalue {
    type V = RvalueView;

    open spec fn view(&self) -> RvalueView {
        match self {
            Rvalue::Use(op) => RvalueView::Use(op@),
            Rvalue::Repeat(op) => RvalueView::Repeat(op@),
            Rvalue::Ref { kind, place } => RvalueView::Ref { kind: *kind, place: place@ },
            Rvalue::ThreadLocalRef => RvalueView::ThreadLocalRef,
            Rvalue::AddressOf { mutbl, place } => RvalueView::AddressOf {
                mutbl: *mutbl,
                place: place@,
            },
            Rvalue::Len(pl) => RvalueView::Len(pl@),
            Rvalue::Cast { op, ty } => RvalueView::Cast { op: op@, ty: ty_view(*ty) },
            Rvalue::BinaryOp(a, b) => RvalueView::BinaryOp(a@, b@),
            Rvalue::CheckedBinaryOp(a, b) => RvalueView::CheckedBinaryOp(a@, b@),
            Rvalue::NullaryOp => RvalueView::NullaryOp,
            Rvalue::UnaryOp(op) => RvalueView::UnaryOp(op@),
            Rvalue::Discriminant(pl) => RvalueView::Discriminant(pl@),
            Rvalue::Aggregate(ops) => RvalueView::Aggregate(operands_view(ops@)),
            Rvalue::ShallowInitBox(op) => RvalueView::ShallowInitBox(op@),
            Rvalue::CopyForDeref(pl) => RvalueView::CopyForDeref(pl@),
        }
    }
}

/// The identity of a call's callee, as the signature-resolution
/// collaborator reports it.
pub enum Callee {
    /// A pointer-offset call.
    PtrOffset,
    /// A decay of a slice or array to a raw pointer over the given
    /// element type.
    SliceAsPtr { elem_ty: Ty },
    /// A call to another analyzed function, identified by number.
    LocalDef { def_id: u64 },
    /// A bulk copy between two pointers with a byte count.
    Memcpy,
    /// A bulk fill of a pointer with a byte value and a byte count.
    Memset,
    /// A null test on a pointer.
    IsNull,
    /// A null-pointer constant.
    Null,
    /// A single- or byte-count allocation.
    Malloc,
    /// A counted, zeroed allocation.
    Calloc,
    /// A release of an allocation.
    Free,
    /// A resize of an allocation.
    Realloc,
    /// Anything else; not rewritten.
    Other,
}

/// Mathematical model of a callee identity.
#[verifier::ext_equal]
pub enum CalleeView {
    PtrOffset,
    SliceAsPtr { elem_ty: TyView },
    LocalDef { def_id: u64 },
    Memcpy,
    Memset,
    IsNull,
    Null,
    Malloc,
    Calloc,
    Free,
    Realloc,
    Other,
}

impl View for Callee {
    type V = CalleeView;

    open spec fn view(&self) -> CalleeView {
        match self {
            Callee::PtrOffset => CalleeView::PtrOffset,
            Callee::SliceAsPtr { elem_ty } => CalleeView::SliceAsPtr { elem_ty: ty_view(*elem_ty) },
            Callee::LocalDef { def_id } => CalleeView::LocalDef { def_id: *def_id },
            Callee::Memcpy => CalleeView::Memcpy,
            Callee::Memset => CalleeView::Memset,
            Callee::IsNull => CalleeView::IsNull,
            Callee::Null => CalleeView::Null,
            Callee::Malloc => CalleeView::Malloc,
            Callee::Calloc => CalleeView::Calloc,
            Callee::Free => CalleeView::Free,
            Callee::Realloc => CalleeView::Realloc,
            Callee::Other => CalleeView::Other,
        }
    }
}

/// One statement of a basic block.  The labeled type of an assignment's
/// value side is supplied by the collaborator type-inference pass and
/// travels with the statement.
pub enum StatementKind {
    Assign { place: Place, rvalue: Rvalue, rv_lty: LTy },
    FakeRead,
    SetDiscriminant,
    Deinit,
    StorageLive,
    StorageDead,
    Retag,
    AscribeUserType,
    Coverage,
    CopyNonOverlapping,
    Nop,
}

/// Mathematical model of a statement.
#[verifier::ext_equal]
pub enum StatementKindView {
    Assign { place: PlaceView, rvalue: RvalueView, rv_lty: LTyView },
    FakeRead,
    SetDiscriminant,
    Deinit,
    StorageLive,
    StorageDead,
    Retag,
    AscribeUserType,
    Coverage,
    CopyNonOverlapping,
    Nop,
}

impl View for StatementKind {
    type V = StatementKindView;

    open spec fn view(&self) -> StatementKindView {
        match self {
            StatementKind::Assign { place, rvalue, rv_lty } => StatementKindView::Assign {
                place: place@,
                rvalue: rvalue@,
                rv_lty: lty_view(*rv_lty),
            },
            StatementKind::FakeRead => StatementKindView::FakeRead,
            StatementKind::SetDiscriminant => StatementKindView::SetDiscriminant,
            StatementKind::Deinit => StatementKindView::Deinit,
            StatementKind::StorageLive => StatementKindView::StorageLive,
            StatementKind::StorageDead => StatementKindView::StorageDead,
            StatementKind::Retag => StatementKindView::Retag,
            StatementKind::AscribeUserType => StatementKindView::AscribeUserType,
            StatementKind::Coverage => StatementKindView::Coverage,
            StatementKind::CopyNonOverlapping => StatementKindView::CopyNonOverlapping,
            StatementKind::Nop => StatementKindView::Nop,
        }
    }
}

/// The terminator of a basic block.  Only calls are rewritten; the
/// destination's labeled type is resolved through the context tables.
pub enum TerminatorKind {
    Goto,
    SwitchInt,
    Resume,
    Abort,
    Return,
    Unreachable,
    Drop,
    DropAndReplace,
    Call { callee: Callee, args: Vec<Operand>, destination: Place },
    Assert,
    Yield,
    GeneratorDrop,
    FalseEdge,
    FalseUnwind,
    InlineAsm,
}

/// Mathematical model of a terminator.
#[verifier::ext_equal]
pub enum TerminatorKindView {
    Goto,
    SwitchInt,
    Resume,
    Abort,
    Return,
    Unreachable,
    Drop,
    DropAndReplace,
    Call { callee: CalleeView, args: Seq<OperandView>, destination: PlaceView },
    Assert,
    Yield,
    GeneratorDrop,
    FalseEdge,
    FalseUnwind,
    InlineAsm,
}

impl View for TerminatorKind {
    type V = TerminatorKindView;

    open spec fn view(&self) -> TerminatorKindView {
        match self {
            TerminatorKind::Goto => TerminatorKindView::Goto,
            TerminatorKind::SwitchInt => TerminatorKindView::SwitchInt,
            TerminatorKind::Resume => TerminatorKindView::Resume,
            TerminatorKind::Abort => TerminatorKindView::Abort,
            TerminatorKind::Return => TerminatorKindView::Return,
            TerminatorKind::Unreachable => TerminatorKindView::Unreachable,
            TerminatorKind::Drop => TerminatorKindView::Drop,
            TerminatorKind::DropAndReplace => TerminatorKindView::DropAndReplace,
            TerminatorKind::Call { callee, args, destination } => TerminatorKindView::Call {
                callee: callee@,
                args: operands_view(args@),
                destination: destination@,
            },
            TerminatorKind::Assert => TerminatorKindView::Assert,
            TerminatorKind::Yield => TerminatorKindView::Yield,
            TerminatorKind::GeneratorDrop => TerminatorKindView::GeneratorDrop,
            TerminatorKind::FalseEdge => TerminatorKindView::FalseEdge,
            TerminatorKind::FalseUnwind => TerminatorKindView::FalseUnwind,
            TerminatorKind::InlineAsm => TerminatorKindView::InlineAsm,
        }
    }
}

/// One basic block: its statements in order, then at most one terminator.
pub struct BasicBlockData {
    pub statements: Vec<StatementKind>,
    pub terminator: Option<TerminatorKind>,
}

/// Mathematical model of a basic block.
#[verifier::ext_equal]
pub struct BasicBlockDataView {
    pub statements: Seq<StatementKindView>,
    pub terminator: Option<TerminatorKindView>,
}

pub open spec fn statements_view(ss: Seq<StatementKind>) -> Seq<StatementKindView>
    decreases ss,
{
    if ss.len() == 0 {
        Seq::empty()
    } else {
        statements_view(ss.drop_last()).push(ss.last()@)
    }
}

pub proof fn lemma_statements_view(ss: Seq<StatementKind>)
    ensures
        statements_view(ss).len() == ss.len(),
        forall|i: int| 0 <= i < ss.len() ==> statements_view(ss)[i] == ss[i]@,
    decreases ss,
{
    if ss.len() > 0 {
        lemma_statements_view(ss.drop_last());
        assert(forall|i: int| 0 <= i < ss.len() - 1 ==> ss.drop_last()[i] == ss[i]);
    }
}

impl View for BasicBlockData {
    type V = BasicBlockDataView;

    open spec fn view(&self) -> BasicBlockDataView {
        BasicBlockDataView {
            statements: statements_view(self.statements@),
            terminator: match &self.terminator {
                Some(t) => Some(t@),
                None => None,
            },
        }
    }
}

/// A function body: its basic blocks in order.
pub struct Body {
    pub basic_blocks: Vec<BasicBlockData>,
}

/// Mathematical model of a body.
#[verifier::ext_equal]
pub struct BodyView {
    pub basic_blocks: Seq<BasicBlockDataView>,
}

pub open spec fn blocks_view(bs: Seq<BasicBlockData>) -> Seq<BasicBlockDataView>
    decreases bs,
{
    if bs.len() == 0 {
        Seq::empty()
    } else {
        blocks_view(bs.drop_last()).push(bs.last()@)
    }
}

pub proof fn lemma_blocks_view(bs: Seq<BasicBlockData>)
    ensures
        blocks_view(bs).len() == bs.len(),
        forall|i: int| 0 <= i < bs.len() ==> blocks_view(bs)[i] == bs[i]@,
    decreases bs,
{
    if bs.len() > 0 {
        lemma_blocks_view(bs.drop_last());
        assert(forall|i: int| 0 <= i < bs.len() - 1 ==> bs.drop_last()[i] == bs[i]);
    }
}

impl View for Body {
    type V = BodyView;

    open spec fn view(&self) -> BodyView {
        BodyView { basic_blocks: blocks_view(self.basic_blocks@) }
    }
}

} // verus!

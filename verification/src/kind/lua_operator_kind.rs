use vstd::prelude::*;

use super::lua_token_kind::LuaTokenKind;

verus! {

/// Left and right binding strength of a binary operator.
#[derive(Debug, Clone, Copy, PartialEq, Eq, Structural)]
pub struct PriorityTable {
    pub left: i32,
    pub right: i32,
}

#[derive(Debug, PartialEq, Eq, Copy, Clone, Structural)]
pub enum UnaryOperator {
    OpNot,  // not
    OpLen,  // #
    OpUnm,  // -
    OpBNot,  // ~
    OpNop,  // (empty)
}

#[derive(Debug, PartialEq, Eq, Copy, Clone, Structural)]
pub enum BinaryOperator {
    OpAdd,  // +
    OpSub,  // -
    OpMul,  // *
    OpDiv,  // /
    OpIDiv,  // //
    OpMod,  // %
    OpPow,  // ^
    OpBAnd,  // &
    OpBOr,  // |
    OpBXor,  // ~
    OpShl,  // <<
    OpShr,  // >>
    OpConcat,  // ..
    OpLt,  // <
    OpLe,  // <=
    OpGt,  // >
    OpGe,  // >=
    OpEq,  // ==
    OpNe,  // ~=
    OpAnd,  // and
    OpOr,  // or
    OpNop,  // (empty)
}

/// Priority of unary operators.
pub const UNARY_PRIORITY: i32 = 12;

/// The priority of each binary operator (the empty operator has none).
pub open spec fn binary_priority(op: BinaryOperator) -> PriorityTable {
    match op {
        BinaryOperator::OpAdd | BinaryOperator::OpSub => PriorityTable { left: 10, right: 10 },
        BinaryOperator::OpMul | BinaryOperator::OpDiv | BinaryOperator::OpIDiv
        | BinaryOperator::OpMod => PriorityTable { left: 11, right: 11 },
        BinaryOperator::OpPow => PriorityTable { left: 14, right: 13 },
        BinaryOperator::OpBAnd => PriorityTable { left: 6, right: 6 },
        BinaryOperator::OpBOr => PriorityTable { left: 4, right: 4 },
        BinaryOperator::OpBXor => PriorityTable { left: 5, right: 5 },
        BinaryOperator::OpShl | BinaryOperator::OpShr => PriorityTable { left: 7, right: 7 },
        BinaryOperator::OpConcat => PriorityTable { left: 9, right: 8 },
        BinaryOperator::OpLt | BinaryOperator::OpLe | BinaryOperator::OpGt | BinaryOperator::OpGe
        | BinaryOperator::OpEq | BinaryOperator::OpNe => PriorityTable { left: 3, right: 3 },
        BinaryOperator::OpAnd => PriorityTable { left: 2, right: 2 },
        BinaryOperator::OpOr => PriorityTable { left: 1, right: 1 },
        BinaryOperator::OpNop => PriorityTable { left: 0, right: 0 },
    }
}

impl BinaryOperator {
    /// The priority of a (non-empty) binary operator.
    pub fn get_priority(&self) -> (r: PriorityTable)
        requires
            *self != BinaryOperator::OpNop,
        ensures
            r == binary_priority(*self),
    {
        match self {
            BinaryOperator::OpAdd | BinaryOperator::OpSub => PriorityTable { left: 10, right: 10 },
            BinaryOperator::OpMul | BinaryOperator::OpDiv | BinaryOperator::OpIDiv
            | BinaryOperator::OpMod => PriorityTable { left: 11, right: 11 },
            BinaryOperator::OpPow => PriorityTable { left: 14, right: 13 },
            BinaryOperator::OpBAnd => PriorityTable { left: 6, right: 6 },
            BinaryOperator::OpBOr => PriorityTable { left: 4, right: 4 },
            BinaryOperator::OpBXor => PriorityTable { left: 5, right: 5 },
            BinaryOperator::OpShl | BinaryOperator::OpShr => PriorityTable { left: 7, right: 7 },
            BinaryOperator::OpConcat => PriorityTable { left: 9, right: 8 },
            BinaryOperator::OpLt | BinaryOperator::OpLe | BinaryOperator::OpGt
            | BinaryOperator::OpGe | BinaryOperator::OpEq | BinaryOperator::OpNe => PriorityTable {
                left: 3,
                right: 3,
            },
            BinaryOperator::OpAnd => PriorityTable { left: 2, right: 2 },
            BinaryOperator::OpOr => PriorityTable { left: 1, right: 1 },
            BinaryOperator::OpNop => PriorityTable { left: 0, right: 0 },
        }
    }
}

/// Every binary operator binds more weakly than the unary operators, except
/// `^`, which binds more strongly on its left; only `^` and `..` are right associative.
pub proof fn lemma_binary_priority_shape(op: BinaryOperator)
    requires
        op != BinaryOperator::OpNop,
    ensures
        binary_priority(op).left < UNARY_PRIORITY <==> op != BinaryOperator::OpPow,
        binary_priority(op).right < binary_priority(op).left <==> (op == BinaryOperator::OpPow
            || op == BinaryOperator::OpConcat),
        binary_priority(op).left >= 1,
{
}

/// The rank of a binary operator in the precedence table of the Lua manual,
/// from `or` (lowest) up to `^` (highest): `or`; `and`; the comparisons;
/// `|`; `~`; `&`; the shifts; `..`; `+ -`; `* / // %`; (the unary
/// operators); `^`.
pub open spec fn lua_manual_rank(op: BinaryOperator) -> int {
    match op {
        BinaryOperator::OpOr => 1,
        BinaryOperator::OpAnd => 2,
        BinaryOperator::OpLt | BinaryOperator::OpLe | BinaryOperator::OpGt | BinaryOperator::OpGe
        | BinaryOperator::OpEq | BinaryOperator::OpNe => 3,
        BinaryOperator::OpBOr => 4,
        BinaryOperator::OpBXor => 5,
        BinaryOperator::OpBAnd => 6,
        BinaryOperator::OpShl | BinaryOperator::OpShr => 7,
        BinaryOperator::OpConcat => 8,
        BinaryOperator::OpAdd | BinaryOperator::OpSub => 9,
        BinaryOperator::OpMul | BinaryOperator::OpDiv | BinaryOperator::OpIDiv | BinaryOperator::OpMod => 10,
        BinaryOperator::OpPow => 12,
        BinaryOperator::OpNop => 0,
    }
}

/// The operators that the Lua manual makes right associative: `..` and `^`.
pub open spec fn lua_right_assoc(op: BinaryOperator) -> bool {
    op == BinaryOperator::OpConcat || op == BinaryOperator::OpPow
}

/// The priorities follow the Lua manual.  In `x a y b z` the parser reads
/// the operand after `a` up to operators whose left priority exceeds the
/// right priority of `a`; so `b` takes `y` as its left operand, giving
/// `x a (y b z)`, exactly when the manual ranks `b` above `a`, or ranks them
/// equal and they are right associative.  Likewise the operand of a unary
/// operator takes in exactly the operators ranked above the unary ones
/// (only `^`).
pub proof fn lemma_priority_follows_lua_manual(a: BinaryOperator, b: BinaryOperator)
    requires
        a != BinaryOperator::OpNop,
        b != BinaryOperator::OpNop,
    ensures
        (binary_priority(b).left > binary_priority(a).right) <==> (lua_manual_rank(b) > lua_manual_rank(a) || (
        lua_manual_rank(b) == lua_manual_rank(a) && lua_right_assoc(a))),
        (binary_priority(b).left > UNARY_PRIORITY) <==> (lua_manual_rank(b) > 11),
        binary_priority(b).left > 0,
{
}

/// Unary operators on doc types.
#[derive(Debug, PartialEq, Eq, Copy, Clone, Structural)]
pub enum LuaTypeUnaryOperator {
    None_,
    Keyof,
    Neg,
}

/// Binary operators on doc types.
#[derive(Debug, PartialEq, Eq, Copy, Clone, Structural)]
pub enum LuaTypeBinaryOperator {
    None_,
    Union,
    Intersection,
    In,
    Extends,
    Add,
    Sub,
}

/// Priority of unary doc-type operators.
pub const UNARY_TYPE_PRIORITY: i32 = 6;

pub open spec fn type_binary_priority(op: LuaTypeBinaryOperator) -> PriorityTable {
    match op {
        LuaTypeBinaryOperator::None_ => PriorityTable { left: 0, right: 0 },
        LuaTypeBinaryOperator::Union => PriorityTable { left: 1, right: 1 },
        LuaTypeBinaryOperator::Intersection => PriorityTable { left: 2, right: 2 },
        LuaTypeBinaryOperator::In => PriorityTable { left: 3, right: 3 },
        LuaTypeBinaryOperator::Extends => PriorityTable { left: 4, right: 4 },
        LuaTypeBinaryOperator::Add | LuaTypeBinaryOperator::Sub => PriorityTable {
            left: 5,
            right: 5,
        },
    }
}

/// The binding order of the doc-type operators, loosest first: `|`, `&`,
/// `in`, `extends`, `+` and `-`; the unary `keyof` and `-` bind tighter
/// than all of them.
pub open spec fn doc_type_operator_rank(op: LuaTypeBinaryOperator) -> int {
    match op {
        LuaTypeBinaryOperator::Union => 1,
        LuaTypeBinaryOperator::Intersection => 2,
        LuaTypeBinaryOperator::In => 3,
        LuaTypeBinaryOperator::Extends => 4,
        LuaTypeBinaryOperator::Add | LuaTypeBinaryOperator::Sub => 5,
        LuaTypeBinaryOperator::None_ => 0,
    }
}

/// The doc-type priorities follow that order, and all the binary doc-type
/// operators are left associative: in `x a y b z`, `b` takes `y` as its
/// left operand exactly when it ranks above `a`; a unary operator's operand
/// takes in no binary operator.
pub proof fn lemma_type_priority_order(a: LuaTypeBinaryOperator, b: LuaTypeBinaryOperator)
    requires
        a != LuaTypeBinaryOperator::None_,
        b != LuaTypeBinaryOperator::None_,
    ensures
        (type_binary_priority(b).left > type_binary_priority(a).right) <==> (doc_type_operator_rank(b)
            > doc_type_operator_rank(a)),
        type_binary_priority(b).left < UNARY_TYPE_PRIORITY,
        type_binary_priority(b).left > 0,
{
}

impl LuaTypeBinaryOperator {
    pub fn get_priority(&self) -> (r: PriorityTable)
        ensures
            r == type_binary_priority(*self),
    {
        match self {
            LuaTypeBinaryOperator::None_ => PriorityTable { left: 0, right: 0 },
            LuaTypeBinaryOperator::Union => PriorityTable { left: 1, right: 1 },
            LuaTypeBinaryOperator::Intersection => PriorityTable { left: 2, right: 2 },
            LuaTypeBinaryOperator::In => PriorityTable { left: 3, right: 3 },
            LuaTypeBinaryOperator::Extends => PriorityTable { left: 4, right: 4 },
            LuaTypeBinaryOperator::Add | LuaTypeBinaryOperator::Sub => PriorityTable {
                left: 5,
                right: 5,
            },
        }
    }
}

pub open spec fn spec_binary_operator(kind: LuaTokenKind) -> BinaryOperator {
    match kind {
        LuaTokenKind::TkPlus => BinaryOperator::OpAdd,
        LuaTokenKind::TkMinus => BinaryOperator::OpSub,
        LuaTokenKind::TkMul => BinaryOperator::OpMul,
        LuaTokenKind::TkDiv => BinaryOperator::OpDiv,
        LuaTokenKind::TkIDiv => BinaryOperator::OpIDiv,
        LuaTokenKind::TkMod => BinaryOperator::OpMod,
        LuaTokenKind::TkPow => BinaryOperator::OpPow,
        LuaTokenKind::TkBitAnd => BinaryOperator::OpBAnd,
        LuaTokenKind::TkBitOr => BinaryOperator::OpBOr,
        LuaTokenKind::TkBitXor => BinaryOperator::OpBXor,
        LuaTokenKind::TkShl => BinaryOperator::OpShl,
        LuaTokenKind::TkShr => BinaryOperator::OpShr,
        LuaTokenKind::TkConcat => BinaryOperator::OpConcat,
        LuaTokenKind::TkLt => BinaryOperator::OpLt,
        LuaTokenKind::TkLe => BinaryOperator::OpLe,
        LuaTokenKind::TkGt => BinaryOperator::OpGt,
        LuaTokenKind::TkGe => BinaryOperator::OpGe,
        LuaTokenKind::TkEq => BinaryOperator::OpEq,
        LuaTokenKind::TkNe => BinaryOperator::OpNe,
        LuaTokenKind::TkAnd => BinaryOperator::OpAnd,
        LuaTokenKind::TkOr => BinaryOperator::OpOr,
        _ => BinaryOperator::OpNop,
    }
}

pub open spec fn spec_unary_operator(kind: LuaTokenKind) -> UnaryOperator {
    match kind {
        LuaTokenKind::TkNot => UnaryOperator::OpNot,
        LuaTokenKind::TkLen => UnaryOperator::OpLen,
        LuaTokenKind::TkMinus => UnaryOperator::OpUnm,
        LuaTokenKind::TkBitXor => UnaryOperator::OpBNot,
        _ => UnaryOperator::OpNop,
    }
}

pub open spec fn spec_type_unary_operator(kind: LuaTokenKind) -> LuaTypeUnaryOperator {
    match kind {
        LuaTokenKind::TkDocKeyOf => LuaTypeUnaryOperator::Keyof,
        LuaTokenKind::TkMinus => LuaTypeUnaryOperator::Neg,
        _ => LuaTypeUnaryOperator::None_,
    }
}

pub open spec fn spec_type_binary_operator(kind: LuaTokenKind) -> LuaTypeBinaryOperator {
    match kind {
        LuaTokenKind::TkDocOr => LuaTypeBinaryOperator::Union,
        LuaTokenKind::TkDocAnd => LuaTypeBinaryOperator::Intersection,
        LuaTokenKind::TkIn => LuaTypeBinaryOperator::In,
        LuaTokenKind::TkDocExtends => LuaTypeBinaryOperator::Extends,
        LuaTokenKind::TkPlus => LuaTypeBinaryOperator::Add,
        LuaTokenKind::TkMinus => LuaTypeBinaryOperator::Sub,
        _ => LuaTypeBinaryOperator::None_,
    }
}

/// The doc-type binary operator that a binary-operator token of a doc type
/// stands for.
pub open spec fn spec_type_binary_token_operator(kind: LuaTokenKind) -> LuaTypeBinaryOperator {
    match kind {
        LuaTokenKind::TkDocOr | LuaTokenKind::TkDocContinueOr => LuaTypeBinaryOperator::Union,
        LuaTokenKind::TkDocAnd => LuaTypeBinaryOperator::Intersection,
        LuaTokenKind::TkDocIn | LuaTokenKind::TkIn => LuaTypeBinaryOperator::In,
        LuaTokenKind::TkDocExtends => LuaTypeBinaryOperator::Extends,
        LuaTokenKind::TkPlus => LuaTypeBinaryOperator::Add,
        LuaTokenKind::TkMinus => LuaTypeBinaryOperator::Sub,
        _ => LuaTypeBinaryOperator::None_,
    }
}

/// Conversions from tokens to operators.
pub struct LuaOpKind;

impl LuaOpKind {
    pub fn to_binary_operator(kind: LuaTokenKind) -> (r: BinaryOperator)
        ensures
            r == spec_binary_operator(kind),
    {
        match kind {
            LuaTokenKind::TkPlus => BinaryOperator::OpAdd,
            LuaTokenKind::TkMinus => BinaryOperator::OpSub,
            LuaTokenKind::TkMul => BinaryOperator::OpMul,
            LuaTokenKind::TkDiv => BinaryOperator::OpDiv,
            LuaTokenKind::TkIDiv => BinaryOperator::OpIDiv,
            LuaTokenKind::TkMod => BinaryOperator::OpMod,
            LuaTokenKind::TkPow => BinaryOperator::OpPow,
            LuaTokenKind::TkBitAnd => BinaryOperator::OpBAnd,
            LuaTokenKind::TkBitOr => BinaryOperator::OpBOr,
            LuaTokenKind::TkBitXor => BinaryOperator::OpBXor,
            LuaTokenKind::TkShl => BinaryOperator::OpShl,
            LuaTokenKind::TkShr => BinaryOperator::OpShr,
            LuaTokenKind::TkConcat => BinaryOperator::OpConcat,
            LuaTokenKind::TkLt => BinaryOperator::OpLt,
            LuaTokenKind::TkLe => BinaryOperator::OpLe,
            LuaTokenKind::TkGt => BinaryOperator::OpGt,
            LuaTokenKind::TkGe => BinaryOperator::OpGe,
            LuaTokenKind::TkEq => BinaryOperator::OpEq,
            LuaTokenKind::TkNe => BinaryOperator::OpNe,
            LuaTokenKind::TkAnd => BinaryOperator::OpAnd,
            LuaTokenKind::TkOr => BinaryOperator::OpOr,
            _ => BinaryOperator::OpNop,
        }
    }

    pub fn to_unary_operator(kind: LuaTokenKind) -> (r: UnaryOperator)
        ensures
            r == spec_unary_operator(kind),
    {
        match kind {
            LuaTokenKind::TkNot => UnaryOperator::OpNot,
            LuaTokenKind::TkLen => UnaryOperator::OpLen,
            LuaTokenKind::TkMinus => UnaryOperator::OpUnm,
            LuaTokenKind::TkBitXor => UnaryOperator::OpBNot,
            _ => UnaryOperator::OpNop,
        }
    }

    pub fn to_type_unary_operator(kind: LuaTokenKind) -> (r: LuaTypeUnaryOperator)
        ensures
            r == spec_type_unary_operator(kind),
    {
        match kind {
            LuaTokenKind::TkDocKeyOf => LuaTypeUnaryOperator::Keyof,
            LuaTokenKind::TkMinus => LuaTypeUnaryOperator::Neg,
            _ => LuaTypeUnaryOperator::None_,
        }
    }

    pub fn to_type_binary_operator(kind: LuaTokenKind) -> (r: LuaTypeBinaryOperator)
        ensures
            r == spec_type_binary_token_operator(kind),
    {
        match kind {
            LuaTokenKind::TkDocOr | LuaTokenKind::TkDocContinueOr => LuaTypeBinaryOperator::Union,
            LuaTokenKind::TkDocAnd => LuaTypeBinaryOperator::Intersection,
            LuaTokenKind::TkDocIn | LuaTokenKind::TkIn => LuaTypeBinaryOperator::In,
            LuaTokenKind::TkDocExtends => LuaTypeBinaryOperator::Extends,
            LuaTokenKind::TkPlus => LuaTypeBinaryOperator::Add,
            LuaTokenKind::TkMinus => LuaTypeBinaryOperator::Sub,
            _ => LuaTypeBinaryOperator::None_,
        }
    }

    pub fn to_parse_binary_operator(kind: LuaTokenKind) -> (r: LuaTypeBinaryOperator)
        ensures
            r == spec_type_binary_operator(kind),
    {
        match kind {
            LuaTokenKind::TkDocOr => LuaTypeBinaryOperator::Union,
            LuaTokenKind::TkDocAnd => LuaTypeBinaryOperator::Intersection,
            LuaTokenKind::TkIn => LuaTypeBinaryOperator::In,
            LuaTokenKind::TkDocExtends => LuaTypeBinaryOperator::Extends,
            LuaTokenKind::TkPlus => LuaTypeBinaryOperator::Add,
            LuaTokenKind::TkMinus => LuaTypeBinaryOperator::Sub,
            _ => LuaTypeBinaryOperator::None_,
        }
    }
}

} // verus!

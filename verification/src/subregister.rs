//! The pass that runs on the intermediate representation: every access to
//! a sub-register becomes an access to a byte range of its base register.

use crate::bitvector::ByteSize;
use crate::ir::expression::{
    BinOpType, CastOpType, IrExpression, IrExpressionView, IrVariable, IrVariableView,
};
use crate::ir::instruction::{IrDef, IrDefView};
use crate::pcode::operand::{RegisterProperties, RegisterPropertiesView};
use crate::tid::{Term, TermView};
use vstd::pervasive::unreached;
use vstd::prelude::*;

verus! {

/// What the table knows of the register with the given name. Where the
/// table describes a name more than once, the last description counts.
pub open spec fn lookup_register(table: Seq<RegisterPropertiesView>, name: Seq<char>) -> Option<
    RegisterPropertiesView,
>
    decreases table.len(),
{
    if table.len() == 0 {
        None
    } else if table.last().register == name {
        Some(table.last())
    } else {
        lookup_register(table.drop_last(), name)
    }
}

/// The base register of the record is described as a base register, and
/// the bytes of the record lie within it.
pub open spec fn record_is_consistent(
    table: Seq<RegisterPropertiesView>,
    record: RegisterPropertiesView,
) -> bool {
    match lookup_register(table, record.base_register) {
        Some(base) => base.base_register == record.base_register && record.lsb.0 + record.size.0
            <= base.size.0,
        None => false,
    }
}

/// Every record of the table is consistent with the table.
pub open spec fn table_is_consistent(table: Seq<RegisterPropertiesView>) -> bool {
    forall|i: int| 0 <= i < table.len() ==> record_is_consistent(table, #[trigger] table[i])
}

/// What the table knows of the sub-register with the given name. A name
/// that the table does not describe, or describes as a base register, is
/// no sub-register.
pub open spec fn sub_register(table: Seq<RegisterPropertiesView>, name: Seq<char>) -> Option<
    RegisterPropertiesView,
> {
    match lookup_register(table, name) {
        Some(record) => if record.base_register != name {
            Some(record)
        } else {
            None
        },
        None => None,
    }
}

/// The base register of a record, in its full size.
pub open spec fn base_variable(
    table: Seq<RegisterPropertiesView>,
    record: RegisterPropertiesView,
) -> IrVariableView {
    IrVariableView {
        name: record.base_register,
        size: lookup_register(table, record.base_register)->Some_0.size,
        is_temp: false,
    }
}

/// The expression in which every read of a sub-register is a read of
/// the byte range of its base register: the range starts at the offset
/// of the sub-register and has the size of the read. Nothing else is
/// changed.
pub open spec fn canonical_expression(
    e: IrExpressionView,
    table: Seq<RegisterPropertiesView>,
) -> IrExpressionView
    decreases e,
{
    match e {
        IrExpressionView::Var(var) => match sub_register(table, var.name) {
            Some(record) => IrExpressionView::Subpiece {
                low_byte: record.lsb,
                size: var.size,
                arg: Box::new(IrExpressionView::Var(base_variable(table, record))),
            },
            None => e,
        },
        IrExpressionView::Const(_) => e,
        IrExpressionView::BinOp { op, lhs, rhs } => IrExpressionView::BinOp {
            op,
            lhs: Box::new(canonical_expression(*lhs, table)),
            rhs: Box::new(canonical_expression(*rhs, table)),
        },
        IrExpressionView::UnOp { op, arg } => IrExpressionView::UnOp {
            op,
            arg: Box::new(canonical_expression(*arg, table)),
        },
        IrExpressionView::Cast { op, size, arg } => IrExpressionView::Cast {
            op,
            size,
            arg: Box::new(canonical_expression(*arg, table)),
        },
        IrExpressionView::Subpiece { low_byte, size, arg } => IrExpressionView::Subpiece {
            low_byte,
            size,
            arg: Box::new(canonical_expression(*arg, table)),
        },
    }
}

/// The instruction assigns to the register `base_name` the zero
/// extension of the register `sub_name`.
pub open spec fn zero_extends(def: IrDefView, base_name: Seq<char>, sub_name: Seq<char>) -> bool {
    match def {
        IrDefView::Assign { var, value } => match value {
            IrExpressionView::Cast { op, size, arg } => match *arg {
                IrExpressionView::Var(source) => op == CastOpType::IntZExt && var.name == base_name
                    && source.name == sub_name,
                _ => false,
            },
            _ => false,
        },
        _ => false,
    }
}

/// The register that an instruction writes, if it writes one.
pub open spec fn written_register(def: IrDefView) -> Option<IrVariableView> {
    match def {
        IrDefView::Assign { var, .. } => Some(var),
        IrDefView::Load { var, .. } => Some(var),
        IrDefView::Store { .. } => None,
    }
}

/// The instruction writes a sub-register, and the instruction that
/// follows it assigns the zero extension of that sub-register to its
/// base register.
pub open spec fn is_followed_by_zero_extension(
    def: IrDefView,
    next: Option<TermView<IrDefView>>,
    table: Seq<RegisterPropertiesView>,
) -> bool {
    match written_register(def) {
        Some(var) => match sub_register(table, var.name) {
            Some(record) => next is Some && zero_extends(
                next->Some_0.term,
                record.base_register,
                var.name,
            ),
            None => false,
        },
        None => false,
    }
}

/// The value of the whole base register after a write of `value` to the
/// sub-register that `record` describes: `value` in the bytes of the
/// sub-register, and what the base register held in the bytes above and
/// below them.
pub open spec fn pieced(
    value: IrExpressionView,
    record: RegisterPropertiesView,
    table: Seq<RegisterPropertiesView>,
) -> IrExpressionView {
    let base = IrExpressionView::Var(base_variable(table, record));
    let base_size = base_variable(table, record).size;
    let below = IrExpressionView::Subpiece {
        low_byte: ByteSize(0),
        size: record.lsb,
        arg: Box::new(base),
    };
    let above = IrExpressionView::Subpiece {
        low_byte: ByteSize((record.lsb.0 + record.size.0) as u64),
        size: ByteSize((base_size.0 - (record.lsb.0 + record.size.0)) as u64),
        arg: Box::new(base),
    };
    if record.lsb.0 > 0 && record.lsb.0 + record.size.0 == base_size.0 {
        IrExpressionView::BinOp { op: BinOpType::Piece, lhs: Box::new(value), rhs: Box::new(below) }
    } else if record.lsb.0 > 0 {
        IrExpressionView::BinOp {
            op: BinOpType::Piece,
            lhs: Box::new(
                IrExpressionView::BinOp {
                    op: BinOpType::Piece,
                    lhs: Box::new(above),
                    rhs: Box::new(value),
                },
            ),
            rhs: Box::new(below),
        }
    } else {
        IrExpressionView::BinOp { op: BinOpType::Piece, lhs: Box::new(above), rhs: Box::new(value) }
    }
}

/// The register that is written in place of `var`: the base register in
/// its full size where `var` is a sub-register, and `var` itself where
/// it is none.
pub open spec fn canonical_target(
    var: IrVariableView,
    table: Seq<RegisterPropertiesView>,
) -> IrVariableView {
    match sub_register(table, var.name) {
        Some(record) => IrVariableView {
            name: record.base_register,
            size: base_variable(table, record).size,
            is_temp: var.is_temp,
        },
        None => var,
    }
}

/// The expression that is written in place of `value`, where `var` is
/// the register that was written. Reads of sub-registers are canonical.
/// Where `var` is a sub-register, the expression has the size of the
/// base register: it is the zero extension of the value where
/// `zero_extended` holds, and else the value pieced together with the
/// other bytes of the base register.
pub open spec fn canonical_source(
    var: IrVariableView,
    value: IrExpressionView,
    zero_extended: bool,
    table: Seq<RegisterPropertiesView>,
) -> IrExpressionView {
    let inner = canonical_expression(value, table);
    match sub_register(table, var.name) {
        Some(record) => if zero_extended {
            IrExpressionView::Cast {
                op: CastOpType::IntZExt,
                size: base_variable(table, record).size,
                arg: Box::new(inner),
            }
        } else {
            pieced(inner, record, table)
        },
        None => inner,
    }
}

/// The instruction in canonical form. `next` is the instruction that
/// follows it in its block, if there is one.
pub open spec fn canonical_def(
    def: IrDefView,
    next: Option<TermView<IrDefView>>,
    table: Seq<RegisterPropertiesView>,
) -> IrDefView {
    let zero_extended = is_followed_by_zero_extension(def, next, table);
    match def {
        IrDefView::Assign { var, value } => IrDefView::Assign {
            var: canonical_target(var, table),
            value: canonical_source(var, value, zero_extended, table),
        },
        IrDefView::Load { var, address } => IrDefView::Load {
            var: canonical_target(var, table),
            address: canonical_source(var, address, zero_extended, table),
        },
        IrDefView::Store { address, value } => IrDefView::Store {
            address: canonical_expression(address, table),
            value: canonical_expression(value, table),
        },
    }
}

/// The expression reads a sub-register somewhere.
pub open spec fn reads_sub_register(
    e: IrExpressionView,
    table: Seq<RegisterPropertiesView>,
) -> bool
    decreases e,
{
    match e {
        IrExpressionView::Var(var) => sub_register(table, var.name) is Some,
        IrExpressionView::Const(_) => false,
        IrExpressionView::BinOp { op, lhs, rhs } => reads_sub_register(*lhs, table)
            || reads_sub_register(*rhs, table),
        IrExpressionView::UnOp { op, arg } => reads_sub_register(*arg, table),
        IrExpressionView::Cast { op, size, arg } => reads_sub_register(*arg, table),
        IrExpressionView::Subpiece { low_byte, size, arg } => reads_sub_register(*arg, table),
    }
}

/// The instruction neither writes nor reads a sub-register.
pub open spec fn def_is_canonical(def: IrDefView, table: Seq<RegisterPropertiesView>) -> bool {
    match def {
        IrDefView::Assign { var, value } => sub_register(table, var.name) is None
            && !reads_sub_register(value, table),
        IrDefView::Load { var, address } => sub_register(table, var.name) is None
            && !reads_sub_register(address, table),
        IrDefView::Store { address, value } => !reads_sub_register(address, table)
            && !reads_sub_register(value, table),
    }
}

/// What `lookup_register` finds is a record of the table with the name
/// that was looked up.
pub proof fn lemma_lookup_finds_record(table: Seq<RegisterPropertiesView>, name: Seq<char>)
    ensures
        match lookup_register(table, name) {
            Some(record) => record.register == name && table.contains(record),
            None => forall|i: int| 0 <= i < table.len() ==> (#[trigger] table[i]).register != name,
        },
    decreases table.len(),
{
    if table.len() > 0 && table.last().register != name {
        lemma_lookup_finds_record(table.drop_last(), name);
        if lookup_register(table.drop_last(), name) is None {
            assert forall|i: int| 0 <= i < table.len() implies (#[trigger] table[i]).register
                != name by {
                if i < table.len() - 1 {
                    assert(table.drop_last()[i] == table[i]);
                }
            }
        }
    }
}

/// In a consistent table, the base register of a sub-register is
/// described, is no sub-register itself, and holds the bytes of the
/// sub-register.
pub proof fn lemma_base_of_sub_register(table: Seq<RegisterPropertiesView>, name: Seq<char>)
    requires
        table_is_consistent(table),
        lookup_register(table, name) is Some,
    ensures
        ({
            let record = lookup_register(table, name)->Some_0;
            &&& lookup_register(table, record.base_register) is Some
            &&& sub_register(table, record.base_register) is None
            &&& record.lsb.0 + record.size.0 <= base_variable(table, record).size.0
        }),
{
    lemma_lookup_finds_record(table, name);
    let record = lookup_register(table, name)->Some_0;
    let i = choose|i: int| 0 <= i < table.len() && table[i] == record;
    assert(record_is_consistent(table, table[i]));
    lemma_lookup_finds_record(table, record.base_register);
}

/// Finds what the table knows of the register with the given name.
pub fn find_register(table: &Vec<RegisterProperties>, name: &String) -> (r: Option<usize>)
    ensures
        match r {
            Some(i) => i < table.len() && lookup_register(table.deep_view(), name@) == Some(
                table[i as int].deep_view(),
            ),
            None => lookup_register(table.deep_view(), name@) is None,
        },
{
    let ghost view = table.deep_view();
    let mut i: usize = table.len();
    assert(view.take(i as int) =~= view);
    while i > 0
        invariant
            i <= table.len(),
            view == table.deep_view(),
            lookup_register(view, name@) == lookup_register(view.take(i as int), name@),
        decreases i,
    {
        proof {
            let taken = view.take(i as int);
            assert(taken.drop_last() =~= view.take(i - 1));
        }
        if table[i - 1].register == *name {
            return Some(i - 1);
        }
        i -= 1;
    }
    None
}

/// Tells whether every record of the table is consistent with the table.
pub fn register_table_is_consistent(table: &Vec<RegisterProperties>) -> (r: bool)
    ensures
        r == table_is_consistent(table.deep_view()),
{
    let ghost view = table.deep_view();
    let mut i: usize = 0;
    while i < table.len()
        invariant
            i <= table.len(),
            view == table.deep_view(),
            forall|k: int| 0 <= k < i ==> record_is_consistent(view, #[trigger] view[k]),
        decreases table.len() - i,
    {
        let record = &table[i];
        assert(view[i as int] == record.deep_view());
        let consistent = match find_register(table, &record.base_register) {
            Some(j) => {
                let base = &table[j];
                base.base_register == record.base_register && record.lsb.0 <= base.size.0
                    && record.size.0 <= base.size.0 - record.lsb.0
            },
            None => false,
        };
        if !consistent {
            return false;
        }
        i += 1;
    }
    true
}

/// The base register of the record at position `i`, in its full size.
fn base_register_of(table: &Vec<RegisterProperties>, i: usize) -> (r: IrVariable)
    requires
        table_is_consistent(table.deep_view()),
        i < table.len(),
    ensures
        r.deep_view() == base_variable(table.deep_view(), table[i as int].deep_view()),
{
    let record = &table[i];
    assert(table.deep_view()[i as int] == record.deep_view());
    let size = match find_register(table, &record.base_register) {
        Some(j) => table[j].size,
        None => unreached(),
    };
    IrVariable { name: record.base_register.clone(), size, is_temp: false }
}

/// Finds what the table knows of the sub-register with the given name.
fn find_sub_register(table: &Vec<RegisterProperties>, name: &String) -> (r: Option<usize>)
    ensures
        match r {
            Some(i) => i < table.len() && sub_register(table.deep_view(), name@) == Some(
                table[i as int].deep_view(),
            ),
            None => sub_register(table.deep_view(), name@) is None,
        },
{
    match find_register(table, name) {
        Some(i) => if table[i].base_register != *name {
            Some(i)
        } else {
            None
        },
        None => None,
    }
}

/// Brings an expression into canonical form.
pub fn canonicalize_expression(e: &IrExpression, table: &Vec<RegisterProperties>) -> (r:
    IrExpression)
    requires
        table_is_consistent(table.deep_view()),
    ensures
        r.deep_view() == canonical_expression(e.deep_view(), table.deep_view()),
    decreases e,
{
    match e {
        IrExpression::Var(var) => match find_sub_register(table, &var.name) {
            Some(i) => {
                let base = IrExpression::Var(base_register_of(table, i));
                assert(base.deep_view() == IrExpressionView::Var(
                    base_variable(table.deep_view(), table[i as int].deep_view()),
                ));
                IrExpression::Subpiece {
                    low_byte: table[i].lsb,
                    size: var.size,
                    arg: Box::new(base),
                }
            },
            None => IrExpression::Var(var.clone()),
        },
        IrExpression::Const(c) => IrExpression::Const(c.clone()),
        IrExpression::BinOp { op, lhs, rhs } => IrExpression::BinOp {
            op: *op,
            lhs: Box::new(canonicalize_expression(lhs, table)),
            rhs: Box::new(canonicalize_expression(rhs, table)),
        },
        IrExpression::UnOp { op, arg } => IrExpression::UnOp {
            op: *op,
            arg: Box::new(canonicalize_expression(arg, table)),
        },
        IrExpression::Cast { op, size, arg } => IrExpression::Cast {
            op: *op,
            size: *size,
            arg: Box::new(canonicalize_expression(arg, table)),
        },
        IrExpression::Subpiece { low_byte, size, arg } => IrExpression::Subpiece {
            low_byte: *low_byte,
            size: *size,
            arg: Box::new(canonicalize_expression(arg, table)),
        },
    }
}

/// Tells whether an instruction assigns to the register `base_name` the
/// zero extension of the register `sub_name`.
fn is_zero_extension_of(def: &IrDef, base_name: &String, sub_name: &String) -> (r: bool)
    ensures
        r == zero_extends(def.deep_view(), base_name@, sub_name@),
{
    match def {
        IrDef::Assign { var, value } => match value {
            IrExpression::Cast { op, size, arg } => {
                assert(value.deep_view() == IrExpressionView::Cast {
                    op: *op,
                    size: *size,
                    arg: Box::new(arg.deep_view()),
                });
                match &**arg {
                    IrExpression::Var(source) => {
                        *op == CastOpType::IntZExt && var.name == *base_name && source.name
                            == *sub_name
                    },
                    _ => false,
                }
            },
            _ => false,
        },
        _ => false,
    }
}

/// Tells whether an instruction writes a sub-register whose zero
/// extension the next instruction assigns to the base register.
pub fn has_zero_extension(
    def: &IrDef,
    next: Option<&Term<IrDef>>,
    table: &Vec<RegisterProperties>,
) -> (r: bool)
    ensures
        r == is_followed_by_zero_extension(def.deep_view(), next.deep_view(), table.deep_view()),
{
    let var = match def {
        IrDef::Assign { var, .. } => var,
        IrDef::Load { var, .. } => var,
        IrDef::Store { .. } => {
            return false;
        },
    };
    match find_sub_register(table, &var.name) {
        Some(i) => match next {
            Some(follower) => is_zero_extension_of(
                &follower.term,
                &table[i].base_register,
                &var.name,
            ),
            None => false,
        },
        None => false,
    }
}

/// Pieces a value that is written to a sub-register together with the
/// other bytes of the base register.
fn piece_together(value: IrExpression, table: &Vec<RegisterProperties>, i: usize) -> (r:
    IrExpression)
    requires
        table_is_consistent(table.deep_view()),
        i < table.len(),
    ensures
        r.deep_view() == pieced(value.deep_view(), table[i as int].deep_view(), table.deep_view()),
{
    let record = &table[i];
    let ghost view = table.deep_view();
    proof {
        assert(view[i as int] == record.deep_view());
    }
    let base = base_register_of(table, i);
    let base_size = base.size;
    let low = IrExpression::Var(base.clone());
    let high = IrExpression::Var(base);
    assert(low.deep_view() == IrExpressionView::Var(base_variable(view, record.deep_view())));
    let end: u64 = record.lsb.0 + record.size.0;
    let ghost base_view = IrExpressionView::Var(base_variable(view, record.deep_view()));
    let below = IrExpression::Subpiece {
        low_byte: ByteSize(0),
        size: record.lsb,
        arg: Box::new(low),
    };
    let above = IrExpression::Subpiece {
        low_byte: ByteSize(end),
        size: ByteSize(base_size.0 - end),
        arg: Box::new(high),
    };
    assert(below.deep_view() == IrExpressionView::Subpiece {
        low_byte: ByteSize(0),
        size: record.lsb,
        arg: Box::new(base_view),
    });
    if record.lsb.0 > 0 && end == base_size.0 {
        IrExpression::BinOp { op: BinOpType::Piece, lhs: Box::new(value), rhs: Box::new(below) }
    } else if record.lsb.0 > 0 {
        let upper = IrExpression::BinOp {
            op: BinOpType::Piece,
            lhs: Box::new(above),
            rhs: Box::new(value),
        };
        assert(upper.deep_view() == IrExpressionView::BinOp {
            op: BinOpType::Piece,
            lhs: Box::new(above.deep_view()),
            rhs: Box::new(value.deep_view()),
        });
        IrExpression::BinOp { op: BinOpType::Piece, lhs: Box::new(upper), rhs: Box::new(below) }
    } else {
        IrExpression::BinOp { op: BinOpType::Piece, lhs: Box::new(above), rhs: Box::new(value) }
    }
}

/// The register that is written in place of `var`.
fn canonicalize_target(var: &IrVariable, table: &Vec<RegisterProperties>) -> (r: IrVariable)
    requires
        table_is_consistent(table.deep_view()),
    ensures
        r.deep_view() == canonical_target(var.deep_view(), table.deep_view()),
{
    match find_sub_register(table, &var.name) {
        Some(i) => {
            let base = base_register_of(table, i);
            IrVariable { name: base.name, size: base.size, is_temp: var.is_temp }
        },
        None => var.clone(),
    }
}

/// The expression that is written in place of `value`, where `var` is
/// the register that was written.
fn canonicalize_source(
    var: &IrVariable,
    value: &IrExpression,
    zero_extended: bool,
    table: &Vec<RegisterProperties>,
) -> (r: IrExpression)
    requires
        table_is_consistent(table.deep_view()),
    ensures
        r.deep_view() == canonical_source(
            var.deep_view(),
            value.deep_view(),
            zero_extended,
            table.deep_view(),
        ),
{
    let inner = canonicalize_expression(value, table);
    match find_sub_register(table, &var.name) {
        Some(i) => if zero_extended {
            let base = base_register_of(table, i);
            IrExpression::Cast { op: CastOpType::IntZExt, size: base.size, arg: Box::new(inner) }
        } else {
            piece_together(inner, table, i)
        },
        None => inner,
    }
}

/// Brings an instruction into canonical form. `next` is the instruction
/// that follows it in its block, if there is one.
pub fn canonicalize_def(
    def: &IrDef,
    next: Option<&Term<IrDef>>,
    table: &Vec<RegisterProperties>,
) -> (r: IrDef)
    requires
        table_is_consistent(table.deep_view()),
    ensures
        r.deep_view() == canonical_def(def.deep_view(), next.deep_view(), table.deep_view()),
{
    let zero_extended = has_zero_extension(def, next, table);
    match def {
        IrDef::Assign { var, value } => IrDef::Assign {
            var: canonicalize_target(var, table),
            value: canonicalize_source(var, value, zero_extended, table),
        },
        IrDef::Load { var, address } => IrDef::Load {
            var: canonicalize_target(var, table),
            address: canonicalize_source(var, address, zero_extended, table),
        },
        IrDef::Store { address, value } => IrDef::Store {
            address: canonicalize_expression(address, table),
            value: canonicalize_expression(value, table),
        },
    }
}

} // verus!

//! Expressions: the typed terms from which an effect's shader code is built.
//!
//! An expression is a tree of literals, named properties, random draws and
//! binary operations. It is checked when it is built, and cannot be built
//! unchecked; it is rendered to shader source when the effect is compiled,
//! and its text is a function of the tree alone.

use crate::module::{declares, place_of, Declared, Module};
use crate::value::{Value, ValueType};
use vstd::prelude::*;
use vstd::string::StringExecFns;

verus! {

/// What can be wrong with an expression or a property when it is authored.
#[derive(Clone, Copy, Debug, PartialEq, Eq, Structural)]
pub enum ExprError {
    /// A property was referred to by a name that the module does not declare.
    UndeclaredProperty,
    /// A property was declared under a name that the module already uses.
    DuplicateProperty,
    /// The types of the operands do not go together.
    TypeMismatch,
}

/// A binary operation, applied to vectors component by component.
#[derive(Clone, Copy, Debug, PartialEq, Eq, Structural)]
pub enum BinaryOperator {
    Add,
    Sub,
    Mul,
    Div,
}

/// An expression as a mathematical term.
pub enum Term {
    Literal(Value),
    Property(Seq<char>, ValueType),
    BinaryOp(BinaryOperator, Box<Term>, Box<Term>),
    Random(ValueType),
}

/// The tree of an expression.
#[derive(Debug)]
enum Node {
    Literal(Value),
    Property(String, ValueType),
    BinaryOp(BinaryOperator, Box<Node>, Box<Node>),
    Random(ValueType),
}

/// An expression: an immutable typed term.
///
/// An expression is built by [`Expr::literal`], [`Expr::random`],
/// [`Expr::binary_op`] and [`crate::module::Module::property`] and in no
/// other way, so that what is wrong with it shows where it is built.
#[derive(Debug)]
pub struct Expr {
    node: Node,
}

impl Node {
    /// The tree as a term.
    spec fn term(self) -> Term
        decreases self,
    {
        match self {
            Node::Literal(value) => Term::Literal(value),
            Node::Property(name, ty) => Term::Property(name@, ty),
            Node::BinaryOp(op, left, right) => Term::BinaryOp(
                op,
                Box::new(left.term()),
                Box::new(right.term()),
            ),
            Node::Random(ty) => Term::Random(ty),
        }
    }
}

impl View for Expr {
    type V = Term;

    closed spec fn view(&self) -> Term {
        self.node.term()
    }
}

/// Whether operands of types `left` and `right` go together: they have the
/// same type, or one of them is a single number.
pub open spec fn compatible(left: ValueType, right: ValueType) -> bool {
    left == right || left == ValueType::Float || right == ValueType::Float
}

/// The type of an operation on operands of types `left` and `right`: the
/// vector type if there is one.
pub open spec fn joined(left: ValueType, right: ValueType) -> ValueType {
    if left == ValueType::Float {
        right
    } else {
        left
    }
}

/// The sign of an operator in shader source.
pub open spec fn operator_text(op: BinaryOperator) -> Seq<char> {
    match op {
        BinaryOperator::Add => "+"@,
        BinaryOperator::Sub => "-"@,
        BinaryOperator::Mul => "*"@,
        BinaryOperator::Div => "/"@,
    }
}

/// The call that draws a random value of a type in shader source.
pub open spec fn random_text(ty: ValueType) -> Seq<char> {
    match ty {
        ValueType::Float => "frand()"@,
        ValueType::Vec2 => "frand2()"@,
        ValueType::Vec3 => "frand3()"@,
        ValueType::Vec4 => "frand4()"@,
    }
}

impl Term {
    /// The static type of the term.
    pub open spec fn ty(self) -> ValueType
        decreases self,
    {
        match self {
            Term::Literal(value) => value.ty(),
            Term::Property(_, ty) => ty,
            Term::BinaryOp(_, left, right) => joined(left.ty(), right.ty()),
            Term::Random(ty) => ty,
        }
    }

    /// Whether the operands of every operation in the term go together.
    pub open spec fn well_typed(self) -> bool
        decreases self,
    {
        match self {
            Term::BinaryOp(_, left, right) => left.well_typed() && right.well_typed()
                && compatible(left.ty(), right.ty()),
            _ => true,
        }
    }

    /// The shader source of the term.
    ///
    /// A literal is its value's canonical text, a property is read from the
    /// `properties` block under its name, and an operation brackets both of
    /// its operands.
    pub open spec fn text(self) -> Seq<char>
        decreases self,
    {
        match self {
            Term::Literal(value) => value.text(),
            Term::Property(name, _) => "properties."@ + name,
            Term::BinaryOp(op, left, right) => "("@ + left.text() + ") "@ + operator_text(op)
                + " ("@ + right.text() + ")"@,
            Term::Random(ty) => random_text(ty),
        }
    }

    /// Whether the term reads each property that `decls` declares at the
    /// type that `decls` gives it.
    pub open spec fn agrees(self, decls: Seq<Declared>) -> bool
        decreases self,
    {
        match self {
            Term::Property(name, ty) => declares(decls, name) ==> decls[place_of(
                decls,
                name,
            )].value.ty() == ty,
            Term::BinaryOp(_, left, right) => left.agrees(decls) && right.agrees(decls),
            _ => true,
        }
    }

    /// The names of the properties that the term reads, in the order in
    /// which its text reads them; a name read twice is listed twice.
    pub open spec fn reads(self) -> Seq<Seq<char>>
        decreases self,
    {
        match self {
            Term::Property(name, _) => seq![name],
            Term::BinaryOp(_, left, right) => left.reads() + right.reads(),
            _ => Seq::empty(),
        }
    }
}

impl BinaryOperator {
    /// The operator's sign in shader source.
    pub fn sign(self) -> (text: &'static str)
        ensures
            text@ == operator_text(self),
    {
        match self {
            BinaryOperator::Add => "+",
            BinaryOperator::Sub => "-",
            BinaryOperator::Mul => "*",
            BinaryOperator::Div => "/",
        }
    }
}

/// Whether two types are the same.
fn same_type(left: ValueType, right: ValueType) -> (same: bool)
    ensures
        same == (left == right),
{
    match (left, right) {
        (ValueType::Float, ValueType::Float) => true,
        (ValueType::Vec2, ValueType::Vec2) => true,
        (ValueType::Vec3, ValueType::Vec3) => true,
        (ValueType::Vec4, ValueType::Vec4) => true,
        _ => false,
    }
}

impl Node {
    /// The static type of the tree.
    fn value_type(&self) -> (ty: ValueType)
        ensures
            ty == self.term().ty(),
        decreases self,
    {
        match self {
            Node::Literal(value) => value.value_type(),
            Node::Property(_, ty) => *ty,
            Node::BinaryOp(_, left, right) => {
                let left_type = left.value_type();
                if same_type(left_type, ValueType::Float) {
                    right.value_type()
                } else {
                    left_type
                }
            },
            Node::Random(ty) => *ty,
        }
    }

    /// Whether the tree reads each property that `module` declares at the
    /// type that the module gives it.
    fn agrees_with(&self, module: &Module) -> (agrees: bool)
        ensures
            agrees == self.term().agrees(module@),
        decreases self,
    {
        match self {
            Node::Property(name, ty) => {
                match module.type_of(name.as_str()) {
                    Some(declared) => same_type(declared, *ty),
                    None => true,
                }
            },
            Node::BinaryOp(_, left, right) => left.agrees_with(module) && right.agrees_with(
                module,
            ),
            _ => true,
        }
    }

    /// Appends the names of the properties that the tree reads.
    fn collect_reads(&self, names: &mut Vec<String>)
        ensures
            final(names).deep_view() == old(names).deep_view() + self.term().reads(),
        decreases self,
    {
        let ghost start = names.deep_view();
        match self {
            Node::Property(name, _) => {
                push_name(names, name.as_str());
            },
            Node::BinaryOp(_, left, right) => {
                left.collect_reads(names);
                right.collect_reads(names);
            },
            _ => {},
        }
        assert(names.deep_view() =~= start + self.term().reads());
    }

    /// Appends the shader source of the tree.
    fn write(&self, out: &mut String)
        ensures
            final(out)@ == old(out)@ + self.term().text(),
        decreases self,
    {
        let ghost start = out@;
        match self {
            Node::Literal(value) => {
                value.write(out);
            },
            Node::Property(name, _) => {
                out.append("properties.");
                out.append(name.as_str());
            },
            Node::BinaryOp(op, left, right) => {
                out.append("(");
                left.write(out);
                out.append(") ");
                out.append(op.sign());
                out.append(" (");
                right.write(out);
                out.append(")");
            },
            Node::Random(ty) => {
                let call = match ty {
                    ValueType::Float => "frand()",
                    ValueType::Vec2 => "frand2()",
                    ValueType::Vec3 => "frand3()",
                    ValueType::Vec4 => "frand4()",
                };
                out.append(call);
            },
        }
        assert(out@ =~= start + self.term().text());
    }
}

impl Expr {
    /// The operands of every operation in an expression go together.
    #[verifier::type_invariant]
    spec fn checked(self) -> bool {
        self.node.term().well_typed()
    }

    /// The literal `value`.
    pub fn literal(value: Value) -> (expr: Expr)
        ensures
            expr@ == Term::Literal(value),
    {
        Expr { node: Node::Literal(value) }
    }

    /// A value of type `ty` drawn at random each time the shader runs it.
    pub fn random(ty: ValueType) -> (expr: Expr)
        ensures
            expr@ == Term::Random(ty),
    {
        Expr { node: Node::Random(ty) }
    }

    /// The expression that reads a property called `name` of type `ty`. The
    /// module that declares the property builds it.
    pub(crate) fn read(name: String, ty: ValueType) -> (expr: Expr)
        ensures
            expr@ == Term::Property(name@, ty),
    {
        Expr { node: Node::Property(name, ty) }
    }

    /// The operation `op` on `left` and `right`.
    ///
    /// Fails with `TypeMismatch` exactly when the operand types do not go
    /// together: they differ and neither is a single number.
    pub fn binary_op(op: BinaryOperator, left: Expr, right: Expr) -> (built: Result<
        Expr,
        ExprError,
    >)
        ensures
            compatible(left@.ty(), right@.ty()) ==> built.is_ok() && built.unwrap()@
                == Term::BinaryOp(op, Box::new(left@), Box::new(right@)),
            !compatible(left@.ty(), right@.ty()) ==> built == Err::<Expr, ExprError>(
                ExprError::TypeMismatch,
            ),
    {
        proof {
            use_type_invariant(&left);
            use_type_invariant(&right);
        }
        let left_type = left.node.value_type();
        let right_type = right.node.value_type();
        if same_type(left_type, right_type) || same_type(left_type, ValueType::Float) || same_type(
            right_type,
            ValueType::Float,
        ) {
            Ok(Expr { node: Node::BinaryOp(op, Box::new(left.node), Box::new(right.node)) })
        } else {
            Err(ExprError::TypeMismatch)
        }
    }

    /// The static type of the expression. Every expression is well typed.
    pub fn value_type(&self) -> (ty: ValueType)
        ensures
            ty == self@.ty(),
            self@.well_typed(),
    {
        proof {
            use_type_invariant(self);
        }
        self.node.value_type()
    }

    /// Whether the expression may stand where a value of type `ty` is
    /// expected.
    pub fn has_type(&self, ty: ValueType) -> (fits: bool)
        ensures
            fits == (self@.well_typed() && self@.ty() == ty),
    {
        same_type(self.value_type(), ty)
    }

    /// Whether the expression reads each property that `module` declares at
    /// the type that the module gives it.
    pub fn agrees_with(&self, module: &Module) -> (agrees: bool)
        ensures
            agrees == self@.agrees(module@),
    {
        self.node.agrees_with(module)
    }

    /// Appends to `names` the names of the properties that the expression
    /// reads, in the order in which its text reads them.
    pub fn collect_reads(&self, names: &mut Vec<String>)
        ensures
            final(names).deep_view() == old(names).deep_view() + self@.reads(),
    {
        self.node.collect_reads(names);
    }

    /// Appends the shader source of the expression to `out`.
    pub fn write(&self, out: &mut String)
        ensures
            final(out)@ == old(out)@ + self@.text(),
    {
        self.node.write(out);
    }

    /// The shader source of the expression.
    pub fn render(&self) -> (text: String)
        ensures
            text@ == self@.text(),
    {
        let mut text = String::new();
        self.write(&mut text);
        assert(text@ =~= self@.text());
        text
    }
}

/// Appends a copy of `name` to `names`.
pub fn push_name(names: &mut Vec<String>, name: &str)
    ensures
        final(names).deep_view() == old(names).deep_view().push(name@),
{
    let ghost start = names.deep_view();
    names.push(name.to_string());
    assert(names.deep_view() =~= start.push(name@));
}

/// Equal expressions have equal text: rendering is a function of the term.
pub proof fn lemma_render_is_deterministic(first: Expr, second: Expr)
    requires
        first@ == second@,
    ensures
        first@.text() == second@.text(),
{
}

} // verus!

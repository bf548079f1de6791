//! Kernel source generation: the closed set of kernels, their templates, and
//! lookup by name.

use vstd::prelude::*;
use vstd::string::StringExecFns;

use crate::errors::ClgeomError;

verus! {

/// The closed set of kernels the program builder accepts. Each variant binds
/// an operator token and operand type tokens into one of two source
/// templates: the element-wise kernels over two buffers, and the element-wise
/// kernels over a buffer and one broadcast scalar.
#[derive(Clone, Copy, PartialEq, Eq, Structural, Debug)]
pub enum Kernel {
    Add,
    Sub,
    Mul,
    Div,
    Translate,
    Scale,
}

/// The function name each kernel compiles under.
pub open spec fn kernel_name(k: Kernel) -> Seq<char> {
    match k {
        Kernel::Add => "add"@,
        Kernel::Sub => "sub"@,
        Kernel::Mul => "mul"@,
        Kernel::Div => "div"@,
        Kernel::Translate => "translate"@,
        Kernel::Scale => "scale"@,
    }
}

/// The compound-assignment operator each kernel applies element-wise.
pub open spec fn kernel_op(k: Kernel) -> Seq<char> {
    match k {
        Kernel::Add => "+="@,
        Kernel::Sub => "-="@,
        Kernel::Mul => "*="@,
        Kernel::Div => "/="@,
        Kernel::Translate => "+="@,
        Kernel::Scale => "*="@,
    }
}

/// The operand type token bound into every template slot.
pub open spec fn kernel_operand_type(k: Kernel) -> Seq<char> {
    "float4"@
}

/// Whether the kernel's second argument is one broadcast scalar rather than
/// a second buffer.
pub open spec fn kernel_takes_scalar(k: Kernel) -> bool {
    k is Translate || k is Scale
}

/// The function name each kernel compiles under.
pub fn kernel_name_str(k: Kernel) -> (s: &'static str)
    ensures
        s@ == kernel_name(k),
{
    match k {
        Kernel::Add => "add",
        Kernel::Sub => "sub",
        Kernel::Mul => "mul",
        Kernel::Div => "div",
        Kernel::Translate => "translate",
        Kernel::Scale => "scale",
    }
}

/// The compound-assignment operator each kernel applies element-wise.
pub fn kernel_op_str(k: Kernel) -> (s: &'static str)
    ensures
        s@ == kernel_op(k),
{
    match k {
        Kernel::Add => "+=",
        Kernel::Sub => "-=",
        Kernel::Mul => "*=",
        Kernel::Div => "/=",
        Kernel::Translate => "+=",
        Kernel::Scale => "*=",
    }
}

/// Source of an element-wise kernel between a read-write buffer and one
/// scalar broadcast to every element.
pub open spec fn scalar_template_spec(
    name: Seq<char>,
    op: Seq<char>,
    t1: Seq<char>,
    t2: Seq<char>,
) -> Seq<char> {
    "__kernel void "@ + name + "(__global "@ + t1 + " *A, const "@ + t2
        + " B) {\n    int i = get_global_id(0);\n    A[i] "@ + op + " B;\n}"@
}

/// Source of an element-wise kernel between a read-write buffer and a second,
/// read-only buffer of the same length.
pub open spec fn buffer_template_spec(
    name: Seq<char>,
    op: Seq<char>,
    t1: Seq<char>,
    t2: Seq<char>,
) -> Seq<char> {
    "__kernel void "@ + name + "(__global "@ + t1 + " *A, __global const "@ + t2
        + " *B) {\n    int i = get_global_id(0);\n    A[i] "@ + op + " B[i];\n}"@
}

/// The complete source for one kernel of the closed set.
pub open spec fn kernel_source_spec(k: Kernel) -> Seq<char> {
    if kernel_takes_scalar(k) {
        scalar_template_spec(kernel_name(k), kernel_op(k), kernel_operand_type(k), kernel_operand_type(k))
    } else {
        buffer_template_spec(kernel_name(k), kernel_op(k), kernel_operand_type(k), kernel_operand_type(k))
    }
}

/// Expand the buffer-and-scalar template with the given name, operator and
/// operand types.
fn expand_scalar_template(name: &str, op: &str, t1: &str, t2: &str) -> (s: String)
    ensures
        s@ == scalar_template_spec(name@, op@, t1@, t2@),
{
    let mut s = String::from_str("__kernel void ");
    s.append(name);
    s.append("(__global ");
    s.append(t1);
    s.append(" *A, const ");
    s.append(t2);
    s.append(" B) {\n    int i = get_global_id(0);\n    A[i] ");
    s.append(op);
    s.append(" B;\n}");
    s
}

/// Expand the two-buffer template with the given name, operator and operand
/// types.
fn expand_buffer_template(name: &str, op: &str, t1: &str, t2: &str) -> (s: String)
    ensures
        s@ == buffer_template_spec(name@, op@, t1@, t2@),
{
    let mut s = String::from_str("__kernel void ");
    s.append(name);
    s.append("(__global ");
    s.append(t1);
    s.append(" *A, __global const ");
    s.append(t2);
    s.append(" *B) {\n    int i = get_global_id(0);\n    A[i] ");
    s.append(op);
    s.append(" B[i];\n}");
    s
}

/// Generate the source for one kernel of the closed set. Total: every variant
/// expands, and two runs over the same variant yield the same text.
pub fn kernel_source(k: Kernel) -> (s: String)
    ensures
        s@ == kernel_source_spec(k),
{
    let name = kernel_name_str(k);
    let op = kernel_op_str(k);
    match k {
        Kernel::Translate | Kernel::Scale => expand_scalar_template(name, op, "float4", "float4"),
        Kernel::Add | Kernel::Sub | Kernel::Mul | Kernel::Div => expand_buffer_template(
            name,
            op,
            "float4",
            "float4",
        ),
    }
}

/// `needle` occurs somewhere in `hay`.
pub open spec fn contains_seq(hay: Seq<char>, needle: Seq<char>) -> bool {
    exists|i: int|
        0 <= i && i + needle.len() <= hay.len() && #[trigger] hay.subrange(i, i + needle.len())
            == needle
}

/// `t1` and `t2` occur in `hay` at two places that do not overlap, `t1`
/// before `t2`.
pub open spec fn contains_operand_pair(hay: Seq<char>, t1: Seq<char>, t2: Seq<char>) -> bool {
    exists|i: int, j: int|
        0 <= i && i + t1.len() <= j && j + t2.len() <= hay.len() && #[trigger] hay.subrange(
            i,
            i + t1.len(),
        ) == t1 && #[trigger] hay.subrange(j, j + t2.len()) == t2
}

/// In a text assembled from nine parts, the name, the two operand types and
/// the operator stand at their slots.
proof fn lemma_template_tokens(
    p1: Seq<char>,
    name: Seq<char>,
    p2: Seq<char>,
    t1: Seq<char>,
    p3: Seq<char>,
    t2: Seq<char>,
    p4: Seq<char>,
    op: Seq<char>,
    p5: Seq<char>,
)
    ensures
        contains_seq(p1 + name + p2 + t1 + p3 + t2 + p4 + op + p5, name),
        contains_seq(p1 + name + p2 + t1 + p3 + t2 + p4 + op + p5, op),
        contains_operand_pair(p1 + name + p2 + t1 + p3 + t2 + p4 + op + p5, t1, t2),
{
    let s = p1 + name + p2 + t1 + p3 + t2 + p4 + op + p5;
    let i_name = p1.len() as int;
    let i_t1 = i_name + name.len() + p2.len();
    let i_t2 = i_t1 + t1.len() + p3.len();
    let i_op = i_t2 + t2.len() + p4.len();
    assert(s.subrange(i_name, i_name + name.len()) =~= name);
    assert(s.subrange(i_t1, i_t1 + t1.len()) =~= t1);
    assert(s.subrange(i_t2, i_t2 + t2.len()) =~= t2);
    assert(s.subrange(i_op, i_op + op.len()) =~= op);
}

/// Generation is deterministic over the closed set, and for every kernel the
/// generated source holds the kernel's name, its operator, and its operand
/// type at two non-overlapping places: once for each of the two operands.
pub proof fn lemma_kernel_source_tokens(k: Kernel)
    ensures
        contains_seq(kernel_source_spec(k), kernel_name(k)),
        contains_seq(kernel_source_spec(k), kernel_op(k)),
        contains_operand_pair(
            kernel_source_spec(k),
            kernel_operand_type(k),
            kernel_operand_type(k),
        ),
{
    let t = kernel_operand_type(k);
    if kernel_takes_scalar(k) {
        lemma_template_tokens(
            "__kernel void "@,
            kernel_name(k),
            "(__global "@,
            t,
            " *A, const "@,
            t,
            " B) {\n    int i = get_global_id(0);\n    A[i] "@,
            kernel_op(k),
            " B;\n}"@,
        );
    } else {
        lemma_template_tokens(
            "__kernel void "@,
            kernel_name(k),
            "(__global "@,
            t,
            " *A, __global const "@,
            t,
            " *B) {\n    int i = get_global_id(0);\n    A[i] "@,
            kernel_op(k),
            " B[i];\n}"@,
        );
    }
}

/// The kernel a name designates, if the name is in the closed set.
pub open spec fn kernel_for_name_spec(name: Seq<char>) -> Option<Kernel> {
    if name == "add"@ {
        Some(Kernel::Add)
    } else if name == "sub"@ {
        Some(Kernel::Sub)
    } else if name == "mul"@ {
        Some(Kernel::Mul)
    } else if name == "div"@ {
        Some(Kernel::Div)
    } else if name == "translate"@ {
        Some(Kernel::Translate)
    } else if name == "scale"@ {
        Some(Kernel::Scale)
    } else {
        None
    }
}

/// Look a kernel up by name; `None` for a name outside the closed set.
pub fn kernel_for_name(name: &str) -> (k: Option<Kernel>)
    ensures
        k == kernel_for_name_spec(name@),
{
    let n = name.to_owned();
    if n == String::from_str("add") {
        Some(Kernel::Add)
    } else if n == String::from_str("sub") {
        Some(Kernel::Sub)
    } else if n == String::from_str("mul") {
        Some(Kernel::Mul)
    } else if n == String::from_str("div") {
        Some(Kernel::Div)
    } else if n == String::from_str("translate") {
        Some(Kernel::Translate)
    } else if n == String::from_str("scale") {
        Some(Kernel::Scale)
    } else {
        None
    }
}

/// Resolve a kernel name to its generated source; a name outside the closed
/// set is rejected with an error naming it.
pub fn get_source(name: &str) -> (r: Result<String, ClgeomError>)
    ensures
        kernel_for_name_spec(name@) matches Some(k) ==> r is Ok && r->Ok_0@
            == kernel_source_spec(k),
        kernel_for_name_spec(name@) is None ==> r is Err && r->Err_0.message@
            == "Unknown function: "@ + name@ && r->Err_0.cause is None,
{
    match kernel_for_name(name) {
        Some(k) => Ok(kernel_source(k)),
        None => {
            let mut message = String::from_str("Unknown function: ");
            message.append(name);
            Err(ClgeomError { message, cause: None })
        },
    }
}

} // verus!

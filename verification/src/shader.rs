use crate::errors::{ResourceKind, SimError};
use vstd::prelude::*;
use vstd::string::StringExecFns;

verus! {

/// Decides the outcome of compiling one shader stage from the raw facts the
/// GPU reports: whether a shader object was allocated, whether the compiler
/// reported success, and the compiler log, if any.
///
/// A missing shader object is an allocation failure.  A reported compile
/// failure is fatal to the reconfiguration attempt and carries the verbatim
/// compiler log, since the rule source is user-supplied and its errors must
/// be actionable; a missing log is replaced by a fixed message.
pub fn compile_outcome(shader: Option<u32>, compile_ok: bool, log: Option<String>) -> (r: Result<
    u32,
    SimError,
>)
    ensures
        r is Ok <==> shader is Some && compile_ok,
        shader matches Some(s) ==> compile_ok ==> r == Ok::<u32, SimError>(s),
        shader is None ==> r == Err::<u32, SimError>(
            SimError::ResourceCreation(ResourceKind::Shader),
        ),
        shader is Some && !compile_ok ==> (r matches Err(e) && e matches SimError::ShaderCompile(m)
            && (log matches Some(l) ==> m@ == l@) && (log is None ==> m@
            == "Unknown error creating shader"@)),
{
    match shader {
        None => Err(SimError::ResourceCreation(ResourceKind::Shader)),
        Some(s) => {
            if compile_ok {
                Ok(s)
            } else {
                match log {
                    Some(l) => Err(SimError::ShaderCompile(l)),
                    None => Err(
                        SimError::ShaderCompile(String::from_str("Unknown error creating shader")),
                    ),
                }
            }
        },
    }
}

/// Decides the outcome of linking the fixed vertex stage with the rule's
/// fragment stage, from the raw facts the GPU reports; the counterpart of
/// `compile_outcome` for the link step.
pub fn link_outcome(program: Option<u32>, link_ok: bool, log: Option<String>) -> (r: Result<
    u32,
    SimError,
>)
    ensures
        r is Ok <==> program is Some && link_ok,
        program matches Some(p) ==> link_ok ==> r == Ok::<u32, SimError>(p),
        program is None ==> r == Err::<u32, SimError>(
            SimError::ResourceCreation(ResourceKind::Program),
        ),
        program is Some && !link_ok ==> (r matches Err(e) && e matches SimError::ProgramLink(m) && (
        log matches Some(l) ==> m@ == l@) && (log is None ==> m@
            == "Unknown error creating program object"@)),
{
    match program {
        None => Err(SimError::ResourceCreation(ResourceKind::Program)),
        Some(p) => {
            if link_ok {
                Ok(p)
            } else {
                match log {
                    Some(l) => Err(SimError::ProgramLink(l)),
                    None => Err(
                        SimError::ProgramLink(
                            String::from_str("Unknown error creating program object"),
                        ),
                    ),
                }
            }
        },
    }
}

/// How many vertices the full-viewport quad has.
pub const QUAD_VERTEX_COUNT: u32 = 4;

/// The vertices of the full-viewport quad that every pass draws: four
/// clip-space corners covering (-1,-1)..(1,1), as interleaved (x, y) pairs
/// in triangle-strip order.
pub fn unit_quad_vertices() -> (v: Vec<i8>)
    ensures
        v@ == seq![-1i8, -1i8, 1i8, -1i8, -1i8, 1i8, 1i8, 1i8],
{
    let v: Vec<i8> = vec![-1, -1, 1, -1, -1, 1, 1, 1];
    proof {
        assert(v@ =~= seq![-1i8, -1i8, 1i8, -1i8, -1i8, 1i8, 1i8, 1i8]);
    }
    v
}

} // verus!

//! Compiling shader stages and linking them into a drawable program.
//!
//! Every backend call sits behind a small trusted wrapper; what the backend
//! answers depends on the GPU, so the wrappers promise nothing of it. The
//! decisions made on those answers are verified: a stage or program comes back
//! only when its status flag is true, and every failure carries a non-empty
//! diagnostic.
use vstd::prelude::*;
use web_sys::{WebGlProgram, WebGlRenderingContext, WebGlShader};

verus! {

#[verifier::external_type_specification]
#[verifier::external_body]
pub struct ExWebGlRenderingContext(WebGlRenderingContext);

#[verifier::external_type_specification]
#[verifier::external_body]
pub struct ExWebGlShader(WebGlShader);

#[verifier::external_type_specification]
#[verifier::external_body]
pub struct ExWebGlProgram(WebGlProgram);

/// Stage kind of a vertex shader, as the rendering context numbers it.
pub const VERTEX_SHADER: u32 = 0x8B31;

/// Stage kind of a fragment shader, as the rendering context numbers it.
pub const FRAGMENT_SHADER: u32 = 0x8B30;

/// Reported when the backend hands out no shader object.
pub const SHADER_CREATE_ERROR: &'static str = "Error creating shader";

/// Reported when a stage fails and the backend gives no diagnostic.
pub const SHADER_LOG_FALLBACK: &'static str = "unable to obtain shader diagnostic";

/// Reported when the backend hands out no program object.
pub const PROGRAM_CREATE_ERROR: &'static str = "Error creating program";

/// Reported when linking fails and the backend gives no diagnostic.
pub const PROGRAM_LOG_FALLBACK: &'static str = "Unknown error creating program object";

/// Whether a queried status flag says success: only a boolean `true` does.
pub open spec fn status_ok(status: Option<bool>) -> bool {
    status == Some(true)
}

/// The diagnostic that a failure reports: the backend's log where it has
/// text, the fallback otherwise.
pub open spec fn diagnostic(log: Option<Seq<char>>, fallback: Seq<char>) -> Seq<char> {
    match log {
        Some(t) => if t.len() > 0 { t } else { fallback },
        None => fallback,
    }
}

/// The text of a backend log, where there is one.
pub open spec fn log_text(log: Option<String>) -> Option<Seq<char>> {
    match log {
        Some(t) => Some(t@),
        None => None,
    }
}

/// Reads a queried status flag; anything but a boolean `true` is failure.
pub fn succeeded(status: Option<bool>) -> (r: bool)
    ensures
        r == status_ok(status),
{
    match status {
        Some(b) => b,
        None => false,
    }
}

/// The diagnostic text for a failed stage or link: `log` where it is present
/// and non-empty, `fallback` otherwise.
pub fn diagnostic_text(log: Option<String>, fallback: &str) -> (r: String)
    ensures
        r@ == diagnostic(log_text(log), fallback@),
{
    match log {
        Some(t) => {
            if t.as_str().is_empty() {
                fallback.to_owned()
            } else {
                t
            }
        },
        None => fallback.to_owned(),
    }
}

/// Takes a newly created backend object, or reports `error` when the backend
/// handed out none.
pub fn created<T>(object: Option<T>, error: &str) -> (r: Result<T, String>)
    ensures
        match object {
            Some(o) => r == Ok::<T, String>(o),
            None => r is Err && r->Err_0@ == error@,
        },
{
    match object {
        Some(o) => Ok(o),
        None => Err(error.to_owned()),
    }
}

/// The stages of a program in the order they are compiled and attached: the
/// vertex source as a vertex stage, then the fragment source as a fragment
/// stage.
pub fn program_stages<'a>(vert_source: &'a str, frag_source: &'a str) -> (r: (
    (u32, &'a str),
    (u32, &'a str),
))
    ensures
        r.0 == (VERTEX_SHADER, vert_source),
        r.1 == (FRAGMENT_SHADER, frag_source),
{
    ((VERTEX_SHADER, vert_source), (FRAGMENT_SHADER, frag_source))
}

/// Relies on `WebGlRenderingContext::create_shader`: a new shader object of
/// the given kind, or none.
#[verifier::external_body]
fn new_shader(gl: &WebGlRenderingContext, kind: u32) -> (r: Option<WebGlShader>) {
    gl.create_shader(kind)
}

/// Relies on `WebGlRenderingContext::shader_source`: sets a shader's source.
#[verifier::external_body]
fn set_shader_source(gl: &WebGlRenderingContext, shader: &WebGlShader, source: &str) {
    gl.shader_source(shader, source)
}

/// Relies on `WebGlRenderingContext::compile_shader`: compiles a shader.
#[verifier::external_body]
fn run_compile(gl: &WebGlRenderingContext, shader: &WebGlShader) {
    gl.compile_shader(shader)
}

/// Relies on `WebGlRenderingContext::get_shader_parameter` with
/// `COMPILE_STATUS`, read as a boolean where it is one.
#[verifier::external_body]
fn compile_status(gl: &WebGlRenderingContext, shader: &WebGlShader) -> (r: Option<bool>) {
    gl.get_shader_parameter(shader, WebGlRenderingContext::COMPILE_STATUS).as_bool()
}

/// Relies on `WebGlRenderingContext::get_shader_info_log`: the shader's
/// diagnostic log, if the backend has one.
#[verifier::external_body]
fn shader_log(gl: &WebGlRenderingContext, shader: &WebGlShader) -> (r: Option<String>) {
    gl.get_shader_info_log(shader)
}

/// Relies on `WebGlRenderingContext::create_program`: a new program object, or
/// none.
#[verifier::external_body]
fn new_program(gl: &WebGlRenderingContext) -> (r: Option<WebGlProgram>) {
    gl.create_program()
}

/// Relies on `WebGlRenderingContext::attach_shader`: attaches a stage.
#[verifier::external_body]
fn attach_stage(gl: &WebGlRenderingContext, program: &WebGlProgram, shader: &WebGlShader) {
    gl.attach_shader(program, shader)
}

/// Relies on `WebGlRenderingContext::link_program`: links a program.
#[verifier::external_body]
fn run_link(gl: &WebGlRenderingContext, program: &WebGlProgram) {
    gl.link_program(program)
}

/// Relies on `WebGlRenderingContext::get_program_parameter` with
/// `LINK_STATUS`, read as a boolean where it is one.
#[verifier::external_body]
fn link_status(gl: &WebGlRenderingContext, program: &WebGlProgram) -> (r: Option<bool>) {
    gl.get_program_parameter(program, WebGlRenderingContext::LINK_STATUS).as_bool()
}

/// Relies on `WebGlRenderingContext::get_program_info_log`: the program's
/// diagnostic log, if the backend has one.
#[verifier::external_body]
fn program_log(gl: &WebGlRenderingContext, program: &WebGlProgram) -> (r: Option<String>) {
    gl.get_program_info_log(program)
}

/// Decides a stage or link from what the backend reported: `handle` when the
/// status is a boolean `true`, otherwise the diagnostic made from `log`.
pub fn verdict<T>(handle: T, status: Option<bool>, log: Option<String>, fallback: &str) -> (r:
    Result<T, String>)
    ensures
        status_ok(status) ==> r == Ok::<T, String>(handle),
        !status_ok(status) ==> r is Err && r->Err_0@ == diagnostic(log_text(log), fallback@),
{
    if succeeded(status) {
        Ok(handle)
    } else {
        Err(diagnostic_text(log, fallback))
    }
}

/// Nonempty text for a failure, whatever the backend's log held.
proof fn diagnostic_nonempty(log: Option<Seq<char>>, fallback: Seq<char>)
    requires
        fallback.len() > 0,
    ensures
        diagnostic(log, fallback).len() > 0,
{
}

/// Compiles `source` as a shader stage of kind `shader_type`.
///
/// The stage comes back only when the backend reports its compile status as
/// `true`. Every failure carries a non-empty diagnostic: the creation error,
/// the backend's log, or the fallback text when the log is missing or empty.
pub fn compile_shader(gl: &WebGlRenderingContext, shader_type: u32, source: &str) -> (r: Result<
    WebGlShader,
    String,
>)
    ensures
        r is Err ==> r->Err_0@.len() > 0,
{
    proof {
        reveal_strlit("Error creating shader");
        reveal_strlit("unable to obtain shader diagnostic");
    }
    let shader = match created(new_shader(gl, shader_type), SHADER_CREATE_ERROR) {
        Ok(s) => s,
        Err(e) => return Err(e),
    };
    set_shader_source(gl, &shader, source);
    run_compile(gl, &shader);
    let status = compile_status(gl, &shader);
    let log = shader_log(gl, &shader);
    proof {
        diagnostic_nonempty(log_text(log), SHADER_LOG_FALLBACK@);
    }
    verdict(shader, status, log, SHADER_LOG_FALLBACK)
}

/// Builds a program from a vertex and a fragment source: creates the program
/// object, compiles both stages, attaches them and links.
///
/// The program comes back only when the backend reports its link status as
/// `true`; a failing stage stops the build with that stage's diagnostic. Every
/// failure carries a non-empty diagnostic. Nothing but the new objects is
/// touched, so programs built earlier are left as they were.
pub fn link_program(gl: &WebGlRenderingContext, vert_source: &str, frag_source: &str) -> (r:
    Result<WebGlProgram, String>)
    ensures
        r is Err ==> r->Err_0@.len() > 0,
{
    proof {
        reveal_strlit("Error creating program");
        reveal_strlit("Unknown error creating program object");
    }
    let program = match created(new_program(gl), PROGRAM_CREATE_ERROR) {
        Ok(p) => p,
        Err(e) => return Err(e),
    };
    let (vert, frag) = program_stages(vert_source, frag_source);
    let vert_shader = match compile_shader(gl, vert.0, vert.1) {
        Ok(v) => v,
        Err(e) => return Err(e),
    };
    let frag_shader = match compile_shader(gl, frag.0, frag.1) {
        Ok(f) => f,
        Err(e) => return Err(e),
    };
    attach_stage(gl, &program, &vert_shader);
    attach_stage(gl, &program, &frag_shader);
    run_link(gl, &program);
    let status = link_status(gl, &program);
    let log = program_log(gl, &program);
    proof {
        diagnostic_nonempty(log_text(log), PROGRAM_LOG_FALLBACK@);
    }
    verdict(program, status, log, PROGRAM_LOG_FALLBACK)
}

} // verus!

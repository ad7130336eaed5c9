//! The handles that the graphics context gives out.
//!
//! A handle stands for an object that lives on the context's side. The
//! library keeps handles and hands them on; it never looks inside one.

use vstd::prelude::*;

verus! {

/// `web_sys::WebGlBuffer`, the context's handle of a buffer. Nothing is known
/// of what is inside; a value is only kept and handed on.
#[verifier::external_type_specification]
#[verifier::external_body]
pub struct ExWebGlBuffer(web_sys::WebGlBuffer);

/// `web_sys::WebGlProgram`, the context's handle of a linked shader program.
/// Nothing is known of what is inside; a value is only kept and handed on.
#[verifier::external_type_specification]
#[verifier::external_body]
pub struct ExWebGlProgram(web_sys::WebGlProgram);

/// `web_sys::WebGlUniformLocation`, the context's handle of a uniform's place
/// in a program. Nothing is known of what is inside; a value is only kept and
/// handed on.
#[verifier::external_type_specification]
#[verifier::external_body]
pub struct ExWebGlUniformLocation(web_sys::WebGlUniformLocation);

} // verus!

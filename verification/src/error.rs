//! The errors of the framework.
use vstd::prelude::*;
use vstd::string::StringExecFns;
use glium::program::ProgramCreationError;

verus! {

#[verifier::external_type_specification]
#[verifier::external_body]
pub struct ExProgramCreationError(ProgramCreationError);

/// The specific kind of error that can occur.
#[derive(Debug)]
pub enum GLErrorKind {
    /// The command line arguments could not be understood.
    Args { description: String },
    /// An error occurred while compiling shaders in OpenGL.
    CreateProgram(ProgramCreationError),
    /// A feature the program needs is not supported by the current device.
    UnSupport { feature: &'static str },
    /// An invalid operation on the device.
    Device { ops_description: &'static str },
    /// The window could not be created or used.
    Window { description: String },
    /// A file could not be found at a path.
    Path { path: String },
    /// A function that is not implemented yet was called.
    Unimplemented { function: String },
    /// Other errors.
    Custom { description: String },
}

/// An error of the framework.
#[derive(Debug)]
pub struct GLError {
    kind: GLErrorKind,
}

pub type GLResult<T> = Result<T, GLError>;

impl GLError {
    /// The kind of this error, with what it carries.
    pub closed spec fn spec_kind(&self) -> GLErrorKind {
        self.kind
    }

    /// An error of the given kind.
    pub fn from_kind(kind: GLErrorKind) -> (e: GLError)
        ensures
            e.spec_kind() == kind,
    {
        GLError { kind }
    }

    pub fn kind(&self) -> (k: &GLErrorKind)
        ensures
            *k == self.spec_kind(),
    {
        &self.kind
    }

    pub fn args(description: &str) -> (e: GLError)
        ensures
            e.spec_kind() matches GLErrorKind::Args { description: d } && d@ == description@,
    {
        GLError::from_kind(GLErrorKind::Args { description: String::from_str(description) })
    }

    pub fn unsupported(feature: &'static str) -> (e: GLError)
        ensures
            e.spec_kind() == (GLErrorKind::UnSupport { feature }),
    {
        GLError::from_kind(GLErrorKind::UnSupport { feature })
    }

    pub fn device(ops_description: &'static str) -> (e: GLError)
        ensures
            e.spec_kind() == (GLErrorKind::Device { ops_description }),
    {
        GLError::from_kind(GLErrorKind::Device { ops_description })
    }

    pub fn window(description: &str) -> (e: GLError)
        ensures
            e.spec_kind() matches GLErrorKind::Window { description: d } && d@ == description@,
    {
        GLError::from_kind(GLErrorKind::Window { description: String::from_str(description) })
    }

    /// A convenience routine for creating an error associated with a path.
    pub fn path(path: &str) -> (e: GLError)
        ensures
            e.spec_kind() matches GLErrorKind::Path { path: p } && p@ == path@,
    {
        GLError::from_kind(GLErrorKind::Path { path: String::from_str(path) })
    }

    pub fn unimplemented(function: &str) -> (e: GLError)
        ensures
            e.spec_kind() matches GLErrorKind::Unimplemented { function: f } && f@ == function@,
    {
        GLError::from_kind(GLErrorKind::Unimplemented { function: String::from_str(function) })
    }

    /// An error of a shader program that failed to build.
    pub fn create_program(e: ProgramCreationError) -> (r: GLError)
        ensures
            r.spec_kind() is CreateProgram,
    {
        GLError::from_kind(GLErrorKind::CreateProgram(e))
    }

    pub fn custom(description: &str) -> (e: GLError)
        ensures
            e.spec_kind() matches GLErrorKind::Custom { description: d } && d@ == description@,
    {
        GLError::from_kind(GLErrorKind::Custom { description: String::from_str(description) })
    }

    /// The text of this error, as it is shown to the user.
    pub fn message(&self) -> (m: String)
        ensures
            !(self.spec_kind() is CreateProgram) ==> m@ == kind_message(self.spec_kind()),
            self.spec_kind() is CreateProgram ==> PROGRAM_MESSAGE_PREFIX@.is_prefix_of(m@),
    {
        match &self.kind {
            GLErrorKind::Args { description } => String::from_str(
                "Something wrong when parsing command line arguments: \n\t",
            ).concat(description.as_str()),
            GLErrorKind::CreateProgram(e) => String::from_str(PROGRAM_MESSAGE_PREFIX).concat(
                program_error_debug(e).as_str(),
            ),
            GLErrorKind::UnSupport { feature } => String::from_str("Feature ").concat(*feature).concat(
                " is not supported in current OpenGL Device.",
            ),
            GLErrorKind::Device { ops_description } => String::from_str("Invalid Operation: ").concat(
                *ops_description,
            ),
            GLErrorKind::Window { description } => String::from_str(
                "Failed to interact with Window: ",
            ).concat(description.as_str()).concat("."),
            GLErrorKind::Path { path } => String::from_str("Failed to locate file at: ").concat(
                str_debug(path.as_str()).as_str(),
            ),
            GLErrorKind::Unimplemented { function } => String::from_str(function.as_str()).concat(
                " is not implemented yet.",
            ),
            GLErrorKind::Custom { description } => String::from_str(description.as_str()),
        }
    }
}

/// How the message of a program creation error begins; the rest is the
/// compiler's report.
pub const PROGRAM_MESSAGE_PREFIX: &'static str = "Failed to create program: ";

/// What `{:?}` writes for the string `s`: the string quoted, with its special
/// characters escaped.
pub uninterp spec fn str_debug_form(s: Seq<char>) -> Seq<char>;

/// `format!("{:?}", s)` for a `&str`, that is `<str as Debug>::fmt`. Claimed: the
/// text depends on the string alone (`str_debug_form`).
#[verifier::external_body]
fn str_debug(s: &str) -> (r: String)
    ensures
        r@ == str_debug_form(s@),
{
    format!("{:?}", s)
}

/// `format!("{:?}", e)` for glium's `ProgramCreationError`, its derived `Debug`.
/// Nothing is claimed of the text: the error is opaque here.
#[verifier::external_body]
fn program_error_debug(e: &ProgramCreationError) -> (r: String) {
    format!("{:?}", e)
}

/// The text of an error of kind `kind`, for each kind but `CreateProgram`, whose
/// text holds the compiler's report.
pub open spec fn kind_message(kind: GLErrorKind) -> Seq<char> {
    match kind {
        GLErrorKind::Args { description } => "Something wrong when parsing command line arguments: \n\t"@
            + description@,
        GLErrorKind::CreateProgram(_) => PROGRAM_MESSAGE_PREFIX@,
        GLErrorKind::UnSupport { feature } => "Feature "@ + feature@
            + " is not supported in current OpenGL Device."@,
        GLErrorKind::Device { ops_description } => "Invalid Operation: "@ + ops_description@,
        GLErrorKind::Window { description } => "Failed to interact with Window: "@ + description@ + "."@,
        GLErrorKind::Path { path } => "Failed to locate file at: "@ + str_debug_form(path@),
        GLErrorKind::Unimplemented { function } => function@ + " is not implemented yet."@,
        GLErrorKind::Custom { description } => description@,
    }
}

} // verus!

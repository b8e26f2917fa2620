//! The short labels with which OpenGL debug messages are printed.
use vstd::prelude::*;

verus! {

/// Where an OpenGL debug message comes from.
#[derive(Debug, Clone, Copy, PartialEq, Eq)]
pub enum DebugSource {
    WindowSystem,
    Application,
    Api,
    ShaderCompiler,
    ThirdParty,
    OtherSource,
}

/// What an OpenGL debug message is about.
#[derive(Debug, Clone, Copy, PartialEq, Eq)]
pub enum DebugMessageType {
    Error,
    DeprecatedBehavior,
    UndefinedBehavior,
    Portability,
    Performance,
    Marker,
    PushGroup,
    PopGroup,
    Other,
}

/// How severe an OpenGL debug message is.
#[derive(Debug, Clone, Copy, PartialEq, Eq)]
pub enum DebugSeverity {
    High,
    Medium,
    Low,
    Notification,
}

/// The label of a message source.
pub fn source_label(source: DebugSource) -> (label: &'static str)
    ensures
        label@ == match source {
            DebugSource::WindowSystem => "WindowSys"@,
            DebugSource::Application => "Application"@,
            DebugSource::Api => "OpenGL"@,
            DebugSource::ShaderCompiler => "ShaderCompiler"@,
            DebugSource::ThirdParty => "3rdParty"@,
            DebugSource::OtherSource => "Other"@,
        },
{
    match source {
        DebugSource::WindowSystem => "WindowSys",
        DebugSource::Application => "Application",
        DebugSource::Api => "OpenGL",
        DebugSource::ShaderCompiler => "ShaderCompiler",
        DebugSource::ThirdParty => "3rdParty",
        DebugSource::OtherSource => "Other",
    }
}

/// The label of a message type.
pub fn message_type_label(message_type: DebugMessageType) -> (label: &'static str)
    ensures
        label@ == match message_type {
            DebugMessageType::Error => "Error"@,
            DebugMessageType::DeprecatedBehavior => "Deprecated"@,
            DebugMessageType::UndefinedBehavior => "Undefined"@,
            DebugMessageType::Portability => "Portability"@,
            DebugMessageType::Performance => "Performance"@,
            DebugMessageType::Marker => "Marker"@,
            DebugMessageType::PushGroup => "PushGrp"@,
            DebugMessageType::PopGroup => "PopGrp"@,
            DebugMessageType::Other => "Other"@,
        },
{
    match message_type {
        DebugMessageType::Error => "Error",
        DebugMessageType::DeprecatedBehavior => "Deprecated",
        DebugMessageType::UndefinedBehavior => "Undefined",
        DebugMessageType::Portability => "Portability",
        DebugMessageType::Performance => "Performance",
        DebugMessageType::Marker => "Marker",
        DebugMessageType::PushGroup => "PushGrp",
        DebugMessageType::PopGroup => "PopGrp",
        DebugMessageType::Other => "Other",
    }
}

/// The label of a severity.
pub fn severity_label(severity: DebugSeverity) -> (label: &'static str)
    ensures
        label@ == match severity {
            DebugSeverity::High => "HIGH"@,
            DebugSeverity::Medium => "MED"@,
            DebugSeverity::Low => "LOW"@,
            DebugSeverity::Notification => "NOTIFY"@,
        },
{
    match severity {
        DebugSeverity::High => "HIGH",
        DebugSeverity::Medium => "MED",
        DebugSeverity::Low => "LOW",
        DebugSeverity::Notification => "NOTIFY",
    }
}

} // verus!

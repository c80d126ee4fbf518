//! The closed error-code sets of the app providers and adapters, each with its
//! single mapping to stable public text.

use vstd::prelude::*;
use crate::error::AppControlError;
use crate::json::Json;

verus! {

/// Closed error codes of the app window provider.
#[derive(Clone, Copy, Debug, PartialEq, Eq, Structural)]
pub enum AppDesktopErrorCode {
    AmbiguousTarget,
    CapabilityUnsupported,
    ConfirmationRequired,
    InvalidArgument,
    OperationFailed,
    StaleSession,
}

/// The public text of each code.
pub open spec fn app_desktop_error_code_text(c: AppDesktopErrorCode) -> Seq<char> {
    match c {
        AppDesktopErrorCode::AmbiguousTarget => "AMBIGUOUS_TARGET"@,
        AppDesktopErrorCode::CapabilityUnsupported => "CAPABILITY_UNSUPPORTED"@,
        AppDesktopErrorCode::ConfirmationRequired => "CONFIRMATION_REQUIRED"@,
        AppDesktopErrorCode::InvalidArgument => "INVALID_ARGUMENT"@,
        AppDesktopErrorCode::OperationFailed => "OPERATION_FAILED"@,
        AppDesktopErrorCode::StaleSession => "STALE_SESSION"@,
    }
}

impl AppDesktopErrorCode {
    /// The stable public text of the code.
    pub fn as_str(self) -> (r: &'static str)
        ensures
            r@ == app_desktop_error_code_text(self),
    {
        match self {
            AppDesktopErrorCode::AmbiguousTarget => "AMBIGUOUS_TARGET",
            AppDesktopErrorCode::CapabilityUnsupported => "CAPABILITY_UNSUPPORTED",
            AppDesktopErrorCode::ConfirmationRequired => "CONFIRMATION_REQUIRED",
            AppDesktopErrorCode::InvalidArgument => "INVALID_ARGUMENT",
            AppDesktopErrorCode::OperationFailed => "OPERATION_FAILED",
            AppDesktopErrorCode::StaleSession => "STALE_SESSION",
        }
    }

    /// A public error with this code and no details.
    pub fn error(self, message: &str) -> (r: AppControlError)
        ensures
            r.code@ == app_desktop_error_code_text(self),
            r.message@ == message@,
            r.details == Json::Null,
    {
        AppControlError::new(self.as_str(), message)
    }

    /// Whether a public error belongs to this code; only the code is compared.
    pub fn matches(self, error: &AppControlError) -> (r: bool)
        ensures
            r == (error.code@ == app_desktop_error_code_text(self)),
    {
        crate::text::str_eq(error.code, self.as_str())
    }

}

/// Closed error codes of the app facade.
#[derive(Clone, Copy, Debug, PartialEq, Eq, Structural)]
pub enum AppFacadeErrorCode {
    AmbiguousTarget,
    CapabilityUnsupported,
    HostInterferenceDetected,
    OperationFailed,
    TargetNotFound,
}

/// The public text of each code.
pub open spec fn app_facade_error_code_text(c: AppFacadeErrorCode) -> Seq<char> {
    match c {
        AppFacadeErrorCode::AmbiguousTarget => "AMBIGUOUS_TARGET"@,
        AppFacadeErrorCode::CapabilityUnsupported => "CAPABILITY_UNSUPPORTED"@,
        AppFacadeErrorCode::HostInterferenceDetected => "HOST_INTERFERENCE_DETECTED"@,
        AppFacadeErrorCode::OperationFailed => "OPERATION_FAILED"@,
        AppFacadeErrorCode::TargetNotFound => "TARGET_NOT_FOUND"@,
    }
}

impl AppFacadeErrorCode {
    /// The stable public text of the code.
    pub fn as_str(self) -> (r: &'static str)
        ensures
            r@ == app_facade_error_code_text(self),
    {
        match self {
            AppFacadeErrorCode::AmbiguousTarget => "AMBIGUOUS_TARGET",
            AppFacadeErrorCode::CapabilityUnsupported => "CAPABILITY_UNSUPPORTED",
            AppFacadeErrorCode::HostInterferenceDetected => "HOST_INTERFERENCE_DETECTED",
            AppFacadeErrorCode::OperationFailed => "OPERATION_FAILED",
            AppFacadeErrorCode::TargetNotFound => "TARGET_NOT_FOUND",
        }
    }

    /// A public error with this code and no details.
    pub fn error(self, message: &str) -> (r: AppControlError)
        ensures
            r.code@ == app_facade_error_code_text(self),
            r.message@ == message@,
            r.details == Json::Null,
    {
        AppControlError::new(self.as_str(), message)
    }

    /// A public error with this code and public evidence.
    pub fn with_details(self, message: &str, details: Json) -> (r: AppControlError)
        ensures
            r.code@ == app_facade_error_code_text(self),
            r.message@ == message@,
            r.details == details,
    {
        AppControlError::with_details(self.as_str(), message, details)
    }

    /// Whether a public error belongs to this code; only the code is compared.
    pub fn matches(self, error: &AppControlError) -> (r: bool)
        ensures
            r == (error.code@ == app_facade_error_code_text(self)),
    {
        crate::text::str_eq(error.code, self.as_str())
    }

}

/// Closed error codes of the process lifecycle provider.
#[derive(Clone, Copy, Debug, PartialEq, Eq, Structural)]
pub enum AppProcessProviderErrorCode {
    CapabilityUnsupported,
}

/// The public text of each code.
pub open spec fn app_process_provider_error_code_text(c: AppProcessProviderErrorCode) -> Seq<char> {
    match c {
        AppProcessProviderErrorCode::CapabilityUnsupported => "CAPABILITY_UNSUPPORTED"@,
    }
}

impl AppProcessProviderErrorCode {
    /// The stable public text of the code.
    pub fn as_str(self) -> (r: &'static str)
        ensures
            r@ == app_process_provider_error_code_text(self),
    {
        match self {
            AppProcessProviderErrorCode::CapabilityUnsupported => "CAPABILITY_UNSUPPORTED",
        }
    }

    /// A public error with this code and no details.
    pub fn error(self, message: &str) -> (r: AppControlError)
        ensures
            r.code@ == app_process_provider_error_code_text(self),
            r.message@ == message@,
            r.details == Json::Null,
    {
        AppControlError::new(self.as_str(), message)
    }

}

/// Closed error codes of the text document provider.
#[derive(Clone, Copy, Debug, PartialEq, Eq, Structural)]
pub enum AppTextErrorCode {
    CapabilityUnsupported,
    InvalidArgument,
    OperationFailed,
    StaleSession,
}

/// The public text of each code.
pub open spec fn app_text_error_code_text(c: AppTextErrorCode) -> Seq<char> {
    match c {
        AppTextErrorCode::CapabilityUnsupported => "CAPABILITY_UNSUPPORTED"@,
        AppTextErrorCode::InvalidArgument => "INVALID_ARGUMENT"@,
        AppTextErrorCode::OperationFailed => "OPERATION_FAILED"@,
        AppTextErrorCode::StaleSession => "STALE_SESSION"@,
    }
}

impl AppTextErrorCode {
    /// The stable public text of the code.
    pub fn as_str(self) -> (r: &'static str)
        ensures
            r@ == app_text_error_code_text(self),
    {
        match self {
            AppTextErrorCode::CapabilityUnsupported => "CAPABILITY_UNSUPPORTED",
            AppTextErrorCode::InvalidArgument => "INVALID_ARGUMENT",
            AppTextErrorCode::OperationFailed => "OPERATION_FAILED",
            AppTextErrorCode::StaleSession => "STALE_SESSION",
        }
    }

    /// A public error with this code and no details.
    pub fn error(self, message: &str) -> (r: AppControlError)
        ensures
            r.code@ == app_text_error_code_text(self),
            r.message@ == message@,
            r.details == Json::Null,
    {
        AppControlError::new(self.as_str(), message)
    }

}

/// Closed error codes of the app session boundary.
#[derive(Clone, Copy, Debug, PartialEq, Eq, Structural)]
pub enum AppSessionErrorCode {
    AmbiguousTarget,
    CapabilityUnsupported,
    InvalidArgument,
    OperationFailed,
}

/// The public text of each code.
pub open spec fn app_session_error_code_text(c: AppSessionErrorCode) -> Seq<char> {
    match c {
        AppSessionErrorCode::AmbiguousTarget => "AMBIGUOUS_TARGET"@,
        AppSessionErrorCode::CapabilityUnsupported => "CAPABILITY_UNSUPPORTED"@,
        AppSessionErrorCode::InvalidArgument => "INVALID_ARGUMENT"@,
        AppSessionErrorCode::OperationFailed => "OPERATION_FAILED"@,
    }
}

impl AppSessionErrorCode {
    /// The stable public text of the code.
    pub fn as_str(self) -> (r: &'static str)
        ensures
            r@ == app_session_error_code_text(self),
    {
        match self {
            AppSessionErrorCode::AmbiguousTarget => "AMBIGUOUS_TARGET",
            AppSessionErrorCode::CapabilityUnsupported => "CAPABILITY_UNSUPPORTED",
            AppSessionErrorCode::InvalidArgument => "INVALID_ARGUMENT",
            AppSessionErrorCode::OperationFailed => "OPERATION_FAILED",
        }
    }

    /// A public error with this code and no details.
    pub fn error(self, message: &str) -> (r: AppControlError)
        ensures
            r.code@ == app_session_error_code_text(self),
            r.message@ == message@,
            r.details == Json::Null,
    {
        AppControlError::new(self.as_str(), message)
    }

    /// A public error with this code and public evidence.
    pub fn with_details(self, message: &str, details: Json) -> (r: AppControlError)
        ensures
            r.code@ == app_session_error_code_text(self),
            r.message@ == message@,
            r.details == details,
    {
        AppControlError::with_details(self.as_str(), message, details)
    }

}

/// Closed error codes of the browser adapter.
#[derive(Clone, Copy, Debug, PartialEq, Eq, Structural)]
pub enum AppBrowserErrorCode {
    BackgroundOperationUnavailable,
    InvalidArgument,
}

/// The public text of each code.
pub open spec fn app_browser_error_code_text(c: AppBrowserErrorCode) -> Seq<char> {
    match c {
        AppBrowserErrorCode::BackgroundOperationUnavailable => "BACKGROUND_OPERATION_UNAVAILABLE"@,
        AppBrowserErrorCode::InvalidArgument => "INVALID_ARGUMENT"@,
    }
}

impl AppBrowserErrorCode {
    /// The stable public text of the code.
    pub fn as_str(self) -> (r: &'static str)
        ensures
            r@ == app_browser_error_code_text(self),
    {
        match self {
            AppBrowserErrorCode::BackgroundOperationUnavailable => "BACKGROUND_OPERATION_UNAVAILABLE",
            AppBrowserErrorCode::InvalidArgument => "INVALID_ARGUMENT",
        }
    }

    /// A public error with this code and no details.
    pub fn error(self, message: &str) -> (r: AppControlError)
        ensures
            r.code@ == app_browser_error_code_text(self),
            r.message@ == message@,
            r.details == Json::Null,
    {
        AppControlError::new(self.as_str(), message)
    }

}

/// Closed error codes of the desktop adapter.
#[derive(Clone, Copy, Debug, PartialEq, Eq, Structural)]
pub enum DesktopAdapterErrorCode {
    BackgroundOperationUnavailable,
    ConfirmationRequired,
    CursorMoveFailed,
    ForegroundActivationFailed,
    ForegroundChanged,
    InputFailed,
    InputBlockedOrPartial,
    InvalidArgument,
    OperationFailed,
    ProcessStartFailed,
    TargetNotFound,
    WindowCloseFailed,
}

/// The public text of each code.
pub open spec fn desktop_adapter_error_code_text(c: DesktopAdapterErrorCode) -> Seq<char> {
    match c {
        DesktopAdapterErrorCode::BackgroundOperationUnavailable => "BACKGROUND_OPERATION_UNAVAILABLE"@,
        DesktopAdapterErrorCode::ConfirmationRequired => "CONFIRMATION_REQUIRED"@,
        DesktopAdapterErrorCode::CursorMoveFailed => "CURSOR_MOVE_FAILED"@,
        DesktopAdapterErrorCode::ForegroundActivationFailed => "FOREGROUND_ACTIVATION_FAILED"@,
        DesktopAdapterErrorCode::ForegroundChanged => "FOREGROUND_CHANGED"@,
        DesktopAdapterErrorCode::InputFailed => "INPUT_FAILED"@,
        DesktopAdapterErrorCode::InputBlockedOrPartial => "INPUT_BLOCKED_OR_PARTIAL"@,
        DesktopAdapterErrorCode::InvalidArgument => "INVALID_ARGUMENT"@,
        DesktopAdapterErrorCode::OperationFailed => "OPERATION_FAILED"@,
        DesktopAdapterErrorCode::ProcessStartFailed => "PROCESS_START_FAILED"@,
        DesktopAdapterErrorCode::TargetNotFound => "TARGET_NOT_FOUND"@,
        DesktopAdapterErrorCode::WindowCloseFailed => "WINDOW_CLOSE_FAILED"@,
    }
}

impl DesktopAdapterErrorCode {
    /// The stable public text of the code.
    pub fn as_str(self) -> (r: &'static str)
        ensures
            r@ == desktop_adapter_error_code_text(self),
    {
        match self {
            DesktopAdapterErrorCode::BackgroundOperationUnavailable => "BACKGROUND_OPERATION_UNAVAILABLE",
            DesktopAdapterErrorCode::ConfirmationRequired => "CONFIRMATION_REQUIRED",
            DesktopAdapterErrorCode::CursorMoveFailed => "CURSOR_MOVE_FAILED",
            DesktopAdapterErrorCode::ForegroundActivationFailed => "FOREGROUND_ACTIVATION_FAILED",
            DesktopAdapterErrorCode::ForegroundChanged => "FOREGROUND_CHANGED",
            DesktopAdapterErrorCode::InputFailed => "INPUT_FAILED",
            DesktopAdapterErrorCode::InputBlockedOrPartial => "INPUT_BLOCKED_OR_PARTIAL",
            DesktopAdapterErrorCode::InvalidArgument => "INVALID_ARGUMENT",
            DesktopAdapterErrorCode::OperationFailed => "OPERATION_FAILED",
            DesktopAdapterErrorCode::ProcessStartFailed => "PROCESS_START_FAILED",
            DesktopAdapterErrorCode::TargetNotFound => "TARGET_NOT_FOUND",
            DesktopAdapterErrorCode::WindowCloseFailed => "WINDOW_CLOSE_FAILED",
        }
    }

    /// A public error with this code and no details.
    pub fn error(self, message: &str) -> (r: AppControlError)
        ensures
            r.code@ == desktop_adapter_error_code_text(self),
            r.message@ == message@,
            r.details == Json::Null,
    {
        AppControlError::new(self.as_str(), message)
    }

    /// A public error with this code and public evidence.
    pub fn with_details(self, message: &str, details: Json) -> (r: AppControlError)
        ensures
            r.code@ == desktop_adapter_error_code_text(self),
            r.message@ == message@,
            r.details == details,
    {
        AppControlError::with_details(self.as_str(), message, details)
    }

}

/// Closed error codes of the standard Edit provider.
#[derive(Clone, Copy, Debug, PartialEq, Eq, Structural)]
pub enum AppStandardEditErrorCode {
    CapabilityUnsupported,
    ConfirmationRequired,
    InvalidArgument,
    OperationFailed,
}

/// The public text of each code.
pub open spec fn app_standard_edit_error_code_text(c: AppStandardEditErrorCode) -> Seq<char> {
    match c {
        AppStandardEditErrorCode::CapabilityUnsupported => "CAPABILITY_UNSUPPORTED"@,
        AppStandardEditErrorCode::ConfirmationRequired => "CONFIRMATION_REQUIRED"@,
        AppStandardEditErrorCode::InvalidArgument => "INVALID_ARGUMENT"@,
        AppStandardEditErrorCode::OperationFailed => "OPERATION_FAILED"@,
    }
}

impl AppStandardEditErrorCode {
    /// The stable public text of the code.
    pub fn as_str(self) -> (r: &'static str)
        ensures
            r@ == app_standard_edit_error_code_text(self),
    {
        match self {
            AppStandardEditErrorCode::CapabilityUnsupported => "CAPABILITY_UNSUPPORTED",
            AppStandardEditErrorCode::ConfirmationRequired => "CONFIRMATION_REQUIRED",
            AppStandardEditErrorCode::InvalidArgument => "INVALID_ARGUMENT",
            AppStandardEditErrorCode::OperationFailed => "OPERATION_FAILED",
        }
    }

    /// A public error with this code and no details.
    pub fn error(self, message: &str) -> (r: AppControlError)
        ensures
            r.code@ == app_standard_edit_error_code_text(self),
            r.message@ == message@,
            r.details == Json::Null,
    {
        AppControlError::new(self.as_str(), message)
    }
}

/// Closed error codes of the host provider.
#[derive(Clone, Copy, Debug, PartialEq, Eq, Structural)]
pub enum AppHostErrorCode {
    CapabilityUnsupported,
    InvalidArgument,
}

/// The public text of each code.
pub open spec fn app_host_error_code_text(c: AppHostErrorCode) -> Seq<char> {
    match c {
        AppHostErrorCode::CapabilityUnsupported => "CAPABILITY_UNSUPPORTED"@,
        AppHostErrorCode::InvalidArgument => "INVALID_ARGUMENT"@,
    }
}

impl AppHostErrorCode {
    /// The stable public text of the code.
    pub fn as_str(self) -> (r: &'static str)
        ensures
            r@ == app_host_error_code_text(self),
    {
        match self {
            AppHostErrorCode::CapabilityUnsupported => "CAPABILITY_UNSUPPORTED",
            AppHostErrorCode::InvalidArgument => "INVALID_ARGUMENT",
        }
    }

    /// A public error with this code and no details.
    pub fn error(self, message: &str) -> (r: AppControlError)
        ensures
            r.code@ == app_host_error_code_text(self),
            r.message@ == message@,
            r.details == Json::Null,
    {
        AppControlError::new(self.as_str(), message)
    }
}

} // verus!

//! Error types of the daemon and the accessibility error-code mapping.

use vstd::prelude::*;

verus! {

/// A failure of the daemon itself.
#[derive(Debug)]
pub enum Error {
    /// The home directory is not known, so no launch-agent path exists.
    HomeNotSet,
    /// The current executable path could not be retrieved.
    FaultyExePath,
    /// Accessibility privileges are not granted to this process.
    AxPrivilegesNotDetected,
    /// An input/output failure, with its message.
    Io(String),
}

/// The result code reported when an accessibility call succeeds.
pub const AX_SUCCESS: i32 = 0;

/// The documented failure codes of the accessibility interface.
pub const AX_FAILURE: i32 = -25200;

pub const AX_ILLEGAL_ARGUMENT: i32 = -25201;

pub const AX_INVALID_UI_ELEMENT: i32 = -25202;

pub const AX_INVALID_UI_ELEMENT_OBSERVER: i32 = -25203;

pub const AX_CANNOT_COMPLETE: i32 = -25204;

pub const AX_ATTRIBUTE_UNSUPPORTED: i32 = -25205;

pub const AX_ACTION_UNSUPPORTED: i32 = -25206;

pub const AX_NOTIFICATION_UNSUPPORTED: i32 = -25207;

pub const AX_NOT_IMPLEMENTED: i32 = -25208;

pub const AX_NOTIFICATION_ALREADY_REGISTERED: i32 = -25209;

pub const AX_NOTIFICATION_NOT_REGISTERED: i32 = -25210;

pub const AX_API_DISABLED: i32 = -25211;

pub const AX_NO_VALUE: i32 = -25212;

pub const AX_PARAMETERIZED_ATTRIBUTE_UNSUPPORTED: i32 = -25213;

pub const AX_NOT_ENOUGH_PRECISION: i32 = -25214;

/// A failure reported by an accessibility call, with the raw result code it
/// came from.
#[derive(Clone, Copy, Debug)]
pub enum AccessibilityError {
    /// Assistive applications are not enabled in the system settings.
    APIDisabled(i32),
    /// The referenced action is not supported.
    ActionUnsupported(i32),
    /// The referenced attribute is not supported.
    AttributeUnsupported(i32),
    /// A fundamental error, such as a failure to allocate memory.
    CannotComplete(i32),
    /// A system error, such as a failure to allocate an object.
    Failure(i32),
    /// An invalid value for this attribute, or invalid parameters.
    IllegalArgument(i32),
    /// The accessibility object received is invalid.
    InvalidUIElement(i32),
    /// The observer for the accessibility object received is invalid.
    InvalidUIElementObserver(i32),
    /// The requested value or element does not exist.
    NoValue(i32),
    /// Not enough precision.
    NotEnoughPrecision(i32),
    /// Not implemented, or this process does not support accessibility.
    NotImplemented(i32),
    /// This notification has already been registered for.
    NotificationAlreadyRegistered(i32),
    /// The notification is not registered yet.
    NotificationNotRegistered(i32),
    /// The notification is not supported by the element.
    NotificationUnsupported(i32),
    /// The parameterized attribute is not supported.
    ParameterizedAttributeUnsupported(i32),
}

/// Whether `code` is one of the documented accessibility failure codes.
pub open spec fn is_ax_failure_code(code: i32) -> bool {
    AX_NOT_ENOUGH_PRECISION <= code <= AX_FAILURE
}

/// The error that a documented failure code classifies as.
pub open spec fn classify_ax_code(code: i32) -> AccessibilityError
    recommends
        is_ax_failure_code(code),
{
    if code == AX_API_DISABLED {
        AccessibilityError::APIDisabled(code)
    } else if code == AX_ACTION_UNSUPPORTED {
        AccessibilityError::ActionUnsupported(code)
    } else if code == AX_ATTRIBUTE_UNSUPPORTED {
        AccessibilityError::AttributeUnsupported(code)
    } else if code == AX_CANNOT_COMPLETE {
        AccessibilityError::CannotComplete(code)
    } else if code == AX_FAILURE {
        AccessibilityError::Failure(code)
    } else if code == AX_ILLEGAL_ARGUMENT {
        AccessibilityError::IllegalArgument(code)
    } else if code == AX_INVALID_UI_ELEMENT {
        AccessibilityError::InvalidUIElement(code)
    } else if code == AX_INVALID_UI_ELEMENT_OBSERVER {
        AccessibilityError::InvalidUIElementObserver(code)
    } else if code == AX_NO_VALUE {
        AccessibilityError::NoValue(code)
    } else if code == AX_NOT_ENOUGH_PRECISION {
        AccessibilityError::NotEnoughPrecision(code)
    } else if code == AX_NOT_IMPLEMENTED {
        AccessibilityError::NotImplemented(code)
    } else if code == AX_NOTIFICATION_ALREADY_REGISTERED {
        AccessibilityError::NotificationAlreadyRegistered(code)
    } else if code == AX_NOTIFICATION_NOT_REGISTERED {
        AccessibilityError::NotificationNotRegistered(code)
    } else if code == AX_PARAMETERIZED_ATTRIBUTE_UNSUPPORTED {
        AccessibilityError::ParameterizedAttributeUnsupported(code)
    } else {
        AccessibilityError::NotificationUnsupported(code)
    }
}

impl AccessibilityError {
    /// Whether `code` may be handed to [`AccessibilityError::try_from`] and
    /// [`AccessibilityError::wrap`]: success, or a documented failure code.
    pub fn is_known_code(code: i32) -> (r: bool)
        ensures
            r == (code == AX_SUCCESS || is_ax_failure_code(code)),
    {
        code == AX_SUCCESS || (AX_NOT_ENOUGH_PRECISION <= code && code <= AX_FAILURE)
    }

    /// Classifies a raw accessibility result code; success classifies as no
    /// error at all.
    pub fn try_from(code: i32) -> (r: Result<Self, ()>)
        requires
            code == AX_SUCCESS || is_ax_failure_code(code),
        ensures
            match r {
                Ok(e) => code != AX_SUCCESS && e == classify_ax_code(code),
                Err(()) => code == AX_SUCCESS,
            },
    {
        if code == AX_SUCCESS {
            return Err(());
        }
        Ok(
            if code == AX_API_DISABLED {
                AccessibilityError::APIDisabled(code)
            } else if code == AX_ACTION_UNSUPPORTED {
                AccessibilityError::ActionUnsupported(code)
            } else if code == AX_ATTRIBUTE_UNSUPPORTED {
                AccessibilityError::AttributeUnsupported(code)
            } else if code == AX_CANNOT_COMPLETE {
                AccessibilityError::CannotComplete(code)
            } else if code == AX_FAILURE {
                AccessibilityError::Failure(code)
            } else if code == AX_ILLEGAL_ARGUMENT {
                AccessibilityError::IllegalArgument(code)
            } else if code == AX_INVALID_UI_ELEMENT {
                AccessibilityError::InvalidUIElement(code)
            } else if code == AX_INVALID_UI_ELEMENT_OBSERVER {
                AccessibilityError::InvalidUIElementObserver(code)
            } else if code == AX_NO_VALUE {
                AccessibilityError::NoValue(code)
            } else if code == AX_NOT_ENOUGH_PRECISION {
                AccessibilityError::NotEnoughPrecision(code)
            } else if code == AX_NOT_IMPLEMENTED {
                AccessibilityError::NotImplemented(code)
            } else if code == AX_NOTIFICATION_ALREADY_REGISTERED {
                AccessibilityError::NotificationAlreadyRegistered(code)
            } else if code == AX_NOTIFICATION_NOT_REGISTERED {
                AccessibilityError::NotificationNotRegistered(code)
            } else if code == AX_PARAMETERIZED_ATTRIBUTE_UNSUPPORTED {
                AccessibilityError::ParameterizedAttributeUnsupported(code)
            } else {
                AccessibilityError::NotificationUnsupported(code)
            },
        )
    }

    /// Turns a raw accessibility result code into a `Result`: `Ok` exactly
    /// on success, and otherwise the classified error.
    pub fn wrap(code: i32) -> (r: Result<(), Self>)
        requires
            code == AX_SUCCESS || is_ax_failure_code(code),
        ensures
            match r {
                Ok(()) => code == AX_SUCCESS,
                Err(e) => code != AX_SUCCESS && e == classify_ax_code(code),
            },
    {
        match Self::try_from(code) {
            Ok(e) => Err(e),
            Err(()) => Ok(()),
        }
    }

    /// The raw result code this error was classified from.
    pub fn code(&self) -> (r: i32)
        ensures
            r == self.spec_code(),
    {
        match self {
            AccessibilityError::APIDisabled(c) => *c,
            AccessibilityError::ActionUnsupported(c) => *c,
            AccessibilityError::AttributeUnsupported(c) => *c,
            AccessibilityError::CannotComplete(c) => *c,
            AccessibilityError::Failure(c) => *c,
            AccessibilityError::IllegalArgument(c) => *c,
            AccessibilityError::InvalidUIElement(c) => *c,
            AccessibilityError::InvalidUIElementObserver(c) => *c,
            AccessibilityError::NoValue(c) => *c,
            AccessibilityError::NotEnoughPrecision(c) => *c,
            AccessibilityError::NotImplemented(c) => *c,
            AccessibilityError::NotificationAlreadyRegistered(c) => *c,
            AccessibilityError::NotificationNotRegistered(c) => *c,
            AccessibilityError::NotificationUnsupported(c) => *c,
            AccessibilityError::ParameterizedAttributeUnsupported(c) => *c,
        }
    }

    /// The raw result code carried by each variant.
    pub open spec fn spec_code(&self) -> i32 {
        match self {
            AccessibilityError::APIDisabled(c) => *c,
            AccessibilityError::ActionUnsupported(c) => *c,
            AccessibilityError::AttributeUnsupported(c) => *c,
            AccessibilityError::CannotComplete(c) => *c,
            AccessibilityError::Failure(c) => *c,
            AccessibilityError::IllegalArgument(c) => *c,
            AccessibilityError::InvalidUIElement(c) => *c,
            AccessibilityError::InvalidUIElementObserver(c) => *c,
            AccessibilityError::NoValue(c) => *c,
            AccessibilityError::NotEnoughPrecision(c) => *c,
            AccessibilityError::NotImplemented(c) => *c,
            AccessibilityError::NotificationAlreadyRegistered(c) => *c,
            AccessibilityError::NotificationNotRegistered(c) => *c,
            AccessibilityError::NotificationUnsupported(c) => *c,
            AccessibilityError::ParameterizedAttributeUnsupported(c) => *c,
        }
    }
}

} // verus!

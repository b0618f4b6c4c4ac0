//! Status words (SW1-SW2) of response APDUs, ISO 7816-4 5.1.3.
use vstd::prelude::*;

verus! {

/// The status bytes of a response.
///
/// Status words without a variant of their own are kept in `__Unknown`, so that
/// every `u16` has a status.
#[derive(Copy, Clone, Debug, Eq, PartialEq, Structural, Default)]
#[non_exhaustive]
pub enum Status {
    /// `0x9000`
    #[default]
    Success,

    /// `0x6100` to `0x61FF`
    MoreAvailable(u8),

    /// `0x6200`
    DataUnchangedWarning,

    /// `0x6202`
    ///
    /// Triggering by the card
    ///
    /// The count must be within `0x02..=0x80`
    WarningTriggering(u8),
    /// `0x6281`
    CorruptedData,
    /// `0x6282`
    UnexpectedEof,
    /// `0x6283`
    SelectFileDeactivated,
    /// `0x6284`
    FileControlInfoBadlyFormatted,
    /// `0x6285`
    SelectedFileInTerminationState,
    /// `0x6286`
    NoInputDataFromSensor,

    /// `0x6300`
    ///
    /// Data changed warning
    ///
    /// Name kept for backwards compatibility
    VerificationFailed,
    /// `0x6381`
    FilledByLastWrite,

    /// `0x63C0` to `0x63CF`
    ///
    /// Generic Warning Counter
    ///
    /// Meaning depends on the command
    ///
    /// The count must be within `0x00..=0x0F`
    RemainingRetries(u8),

    /// `0x6400`
    ///
    /// Execution Error
    UnspecifiedNonpersistentExecutionError,
    /// `0x6401`
    ImmediateResponseRequired,

    /// `0x6402` to `0x6480`
    ///
    /// Triggering by the card
    ///
    /// The count must be within `0x02..=0x80`
    ErrorTriggering(u8),

    /// `0x6500`
    ///
    /// Data Changed Error
    UnspecifiedPersistentExecutionError,
    /// `0x6581`
    MemoryFailure,

    /// `0x6700`
    WrongLength,

    /// `0x6800`
    ClaNotSupported,
    /// `0x6881`
    LogicalChannelNotSupported,
    /// `0x6882`
    SecureMessagingNotSupported,
    /// `0x6883`
    LastCommandOfChainExpected,
    /// `0x6884`
    CommandChainingNotSupported,

    /// `0x6900`
    CommandNotAllowed,
    /// `0x6981`
    CommandIncompatibleFileStructure,
    /// `0x6982`
    SecurityStatusNotSatisfied,
    /// `0x6983`
    ///
    /// AuthenticationMethodBlocked
    ///
    /// Name kept for backwards compatiblity
    OperationBlocked,
    /// `0x6984`
    ReferenceDataNotUsable,
    /// `0x6985`
    ConditionsOfUseNotSatisfied,
    /// `0x6986`
    CommandNotAllowedNoEf,
    /// `0x6987`
    ExectedSecureMessagingDataObjectsMissing,
    /// `0x6988`
    IncorrectSecureMessagingDataObjects,

    /// `0x6A00`
    WrongParametersNoInfo,
    /// `0x6A80`
    IncorrectDataParameter,
    /// `0x6A81`
    FunctionNotSupported,
    /// `0x6A82`
    ///
    /// FileOrAppNotFound
    ///
    /// Name kept for backwards compatibility
    NotFound,
    /// `0x6A83`
    RecordNotFound,
    /// `0x6A84`
    NotEnoughMemory,
    /// `0x6A85`
    NcInconsistentWithTlv,
    /// `0x6A86`
    IncorrectP1OrP2Parameter,
    /// `0x6A87`
    NcInconsistentWithP1p2,
    /// `0x6A88`
    ///
    /// Reference not found
    ///
    /// Name kept for backwards compatibility
    KeyReferenceNotFound,
    /// `0x6A89`
    FileAlreadyExists,
    /// `0x6A8A`
    DfNameAlreadyExists,

    /// `0x6B00`
    WrongParameters,

    /// `0x6C00` to `0x6CFF`
    WrongLeField(u8),
    /// `0x6D00`
    InstructionNotSupportedOrInvalid,
    /// `0x6E00`
    ClassNotSupported,
    /// `0x6F00`
    UnspecifiedCheckingError,

    /// A status word without a variant of its own.
    __Unknown(u16),
}

/// `0x9000`
pub const SUCCESS: u16 = 0x9000;

pub const MORE_AVAILABLE_MIN: u16 = 0x6100;
pub const MORE_AVAILABLE_MAX: u16 = 0x61FF;
pub const MORE_AVAILABLE_MASK: u16 = 0x00FF;

pub const WRONG_LE_FIELD_MIN: u16 = 0x6C00;
pub const WRONG_LE_FIELD_MAX: u16 = 0x6CFF;
pub const WRONG_LE_FIELD_MASK: u16 = 0x00FF;

/// `0x6200`
pub const DATA_UNCHANGED_WARNING: u16 = 0x6200;
pub const WARNING_TRIGGERING_MIN: u16 = 0x6202;
pub const WARNING_TRIGGERING_MASK: u16 = 0x00FF;
pub const WARNING_TRIGGERING_MAX: u16 = 0x6280;
pub const ERROR_TRIGGERING_MIN: u16 = 0x6402;
pub const ERROR_TRIGGERING_MASK: u16 = 0x00FF;
pub const ERROR_TRIGGERING_MAX: u16 = 0x6480;
/// `0x6281`
pub const CORRUPTED_DATA: u16 = 0x6281;
/// `0x6282`
pub const UNEXPECTED_EOF: u16 = 0x6282;
/// `0x6283`
pub const SELECTED_FILE_DEACTIVATED: u16 = 0x6283;
/// `0x6284`
pub const FILE_CONTROL_INFO_BADLY_FORMATTED: u16 = 0x6284;
/// `0x6285`
pub const SELECTED_FILE_IN_TERMINATION_STATE: u16 = 0x6285;
/// `0x6286`
pub const NO_INPUT_DATA_FROM_SENSOR: u16 = 0x6286;

/// 0x6400
pub const EXECUTION_ERROR: u16 = 0x6400;
/// 0x6401
pub const IMMEDIATE_RESPONSE_REQUIRED: u16 = 0x6401;

/// `0x6300`
pub const DATA_CHANGED_WARNING: u16 = 0x6300;
/// `0x6381`
pub const FILLED_BY_LAST_WRITE: u16 = 0x6381;
pub const WARNING_COUNTER_MIN: u16 = 0x63C0;
pub const WARNING_COUNTER_MAX: u16 = 0x63CF;
pub const WARNING_COUNTER_MASK: u16 = 0x000F;

/// `0x6500`
pub const DATA_CHANGED_ERROR: u16 = 0x6500;
/// `0x6581`
pub const MEMORY_FAILURE: u16 = 0x6581;

/// `0x6700`
pub const WRONG_LENGTH: u16 = 0x6700;

/// `0x6800`
pub const CLA_NOT_SUPPORTED: u16 = 0x6800;
/// `0x6881`
pub const LOGICAL_CHANNEL_NOT_SUPPORTED: u16 = 0x6881;
/// `0x6882`
pub const SECURE_MESSAGING_NOT_SUPPORTED: u16 = 0x6882;
/// `0x6883`
pub const LAST_COMMAND_OF_CHAIN_EXPECTED: u16 = 0x6883;
/// `0x6884`
pub const COMMAND_CHAINING_NOT_SUPPORTED: u16 = 0x6884;

/// `0x6900`
pub const COMMAND_NOT_ALLOWED: u16 = 0x6900;
/// `0x6981`
pub const COMMAND_INCOMPATIBLE_FILE_STRUCTURE: u16 = 0x6981;
/// `0x6982`
pub const SECURITY_STATUS_NOT_SATISFIED: u16 = 0x6982;
/// `0x6983`
pub const AUTHENTICATION_METHOD_BLOCKED: u16 = 0x6983;
/// `0x6984`
pub const REFERENCE_DATA_NOT_USABLE: u16 = 0x6984;
/// `0x6985`
pub const CONDITIONS_OF_USE_NOT_SATISFIED: u16 = 0x6985;
/// `0x6986`
pub const COMMAND_NOT_ALLOWED_NO_EF: u16 = 0x6986;
/// `0x6987`
pub const EXECTED_SECURE_MESSAGING_DATA_OBJECTS_MISSING: u16 = 0x6987;
/// `0x6988`
pub const INCORRECT_SECURE_MESSAGING_DATA_OBJECTS: u16 = 0x6988;

/// `0x6A00`
pub const WRONG_PARAMETERS_NO_INFO: u16 = 0x6A00;
/// `0x6A80`
pub const INCORRECT_PARAMETERS: u16 = 0x6A80;
/// `0x6A81`
pub const FUNCTION_NOT_SUPPORTED: u16 = 0x6A81;
/// `0x6A82`
pub const FILE_OR_APP_NOT_FOUND: u16 = 0x6A82;
/// `0x6A83`
pub const RECORD_NOT_FOUND: u16 = 0x6A83;
/// `0x6A84`
pub const NOT_ENOUGH_MEMORY_IN_FILE: u16 = 0x6A84;
/// `0x6A85`
pub const NC_INCONSISTENT_WITH_TLV: u16 = 0x6A85;
/// `0x6A86`
pub const INCORRECT_P1P2: u16 = 0x6A86;
/// `0x6A87`
pub const NC_INCONSISTENT_WITH_P1P2: u16 = 0x6A87;
/// `0x6A88`
pub const REFERENCE_NOT_FOUND: u16 = 0x6A88;
/// `0x6A89`
pub const FILE_ALREADY_EXISTS: u16 = 0x6A89;
/// `0x6A8A`
pub const DF_NAME_ALREADY_EXISTS: u16 = 0x6A8A;

/// `0x6B00`
pub const WRONG_PARAMETERS: u16 = 0x6B00;

/// `0x6D00`
pub const INSTRUCTION_NOT_SUPPORTED_OR_INVALID: u16 = 0x6D00;
/// `0x6E00`
pub const CLASS_NOT_SUPPORTED: u16 = 0x6E00;
/// `0x6F00`
pub const CHECKING_ERROR: u16 = 0x6F00;

/// The status a status word stands for. Named words are matched first, then
/// the ranges that carry a count in their low bits.
pub open spec fn status_of(sw: u16) -> Status {
    if sw == SUCCESS {
        Status::Success
    } else if sw == DATA_UNCHANGED_WARNING {
        Status::DataUnchangedWarning
    } else if sw == CORRUPTED_DATA {
        Status::CorruptedData
    } else if sw == UNEXPECTED_EOF {
        Status::UnexpectedEof
    } else if sw == SELECTED_FILE_DEACTIVATED {
        Status::SelectFileDeactivated
    } else if sw == FILE_CONTROL_INFO_BADLY_FORMATTED {
        Status::FileControlInfoBadlyFormatted
    } else if sw == SELECTED_FILE_IN_TERMINATION_STATE {
        Status::SelectedFileInTerminationState
    } else if sw == NO_INPUT_DATA_FROM_SENSOR {
        Status::NoInputDataFromSensor
    } else if sw == DATA_CHANGED_WARNING {
        Status::VerificationFailed
    } else if sw == FILLED_BY_LAST_WRITE {
        Status::FilledByLastWrite
    } else if sw == EXECUTION_ERROR {
        Status::UnspecifiedNonpersistentExecutionError
    } else if sw == IMMEDIATE_RESPONSE_REQUIRED {
        Status::ImmediateResponseRequired
    } else if sw == DATA_CHANGED_ERROR {
        Status::UnspecifiedPersistentExecutionError
    } else if sw == MEMORY_FAILURE {
        Status::MemoryFailure
    } else if sw == WRONG_LENGTH {
        Status::WrongLength
    } else if sw == CLA_NOT_SUPPORTED {
        Status::ClaNotSupported
    } else if sw == LOGICAL_CHANNEL_NOT_SUPPORTED {
        Status::LogicalChannelNotSupported
    } else if sw == SECURE_MESSAGING_NOT_SUPPORTED {
        Status::SecureMessagingNotSupported
    } else if sw == LAST_COMMAND_OF_CHAIN_EXPECTED {
        Status::LastCommandOfChainExpected
    } else if sw == COMMAND_CHAINING_NOT_SUPPORTED {
        Status::CommandChainingNotSupported
    } else if sw == COMMAND_NOT_ALLOWED {
        Status::CommandNotAllowed
    } else if sw == COMMAND_INCOMPATIBLE_FILE_STRUCTURE {
        Status::CommandIncompatibleFileStructure
    } else if sw == SECURITY_STATUS_NOT_SATISFIED {
        Status::SecurityStatusNotSatisfied
    } else if sw == AUTHENTICATION_METHOD_BLOCKED {
        Status::OperationBlocked
    } else if sw == REFERENCE_DATA_NOT_USABLE {
        Status::ReferenceDataNotUsable
    } else if sw == CONDITIONS_OF_USE_NOT_SATISFIED {
        Status::ConditionsOfUseNotSatisfied
    } else if sw == COMMAND_NOT_ALLOWED_NO_EF {
        Status::CommandNotAllowedNoEf
    } else if sw == EXECTED_SECURE_MESSAGING_DATA_OBJECTS_MISSING {
        Status::ExectedSecureMessagingDataObjectsMissing
    } else if sw == INCORRECT_SECURE_MESSAGING_DATA_OBJECTS {
        Status::IncorrectSecureMessagingDataObjects
    } else if sw == WRONG_PARAMETERS_NO_INFO {
        Status::WrongParametersNoInfo
    } else if sw == INCORRECT_PARAMETERS {
        Status::IncorrectDataParameter
    } else if sw == FUNCTION_NOT_SUPPORTED {
        Status::FunctionNotSupported
    } else if sw == FILE_OR_APP_NOT_FOUND {
        Status::NotFound
    } else if sw == RECORD_NOT_FOUND {
        Status::RecordNotFound
    } else if sw == NOT_ENOUGH_MEMORY_IN_FILE {
        Status::NotEnoughMemory
    } else if sw == NC_INCONSISTENT_WITH_TLV {
        Status::NcInconsistentWithTlv
    } else if sw == INCORRECT_P1P2 {
        Status::IncorrectP1OrP2Parameter
    } else if sw == NC_INCONSISTENT_WITH_P1P2 {
        Status::NcInconsistentWithP1p2
    } else if sw == REFERENCE_NOT_FOUND {
        Status::KeyReferenceNotFound
    } else if sw == FILE_ALREADY_EXISTS {
        Status::FileAlreadyExists
    } else if sw == DF_NAME_ALREADY_EXISTS {
        Status::DfNameAlreadyExists
    } else if sw == WRONG_PARAMETERS {
        Status::WrongParameters
    } else if sw == INSTRUCTION_NOT_SUPPORTED_OR_INVALID {
        Status::InstructionNotSupportedOrInvalid
    } else if sw == CLASS_NOT_SUPPORTED {
        Status::ClassNotSupported
    } else if sw == CHECKING_ERROR {
        Status::UnspecifiedCheckingError
    } else if WARNING_TRIGGERING_MIN <= sw <= WARNING_TRIGGERING_MAX {
        Status::WarningTriggering((sw & WARNING_TRIGGERING_MASK) as u8)
    } else if ERROR_TRIGGERING_MIN <= sw <= ERROR_TRIGGERING_MAX {
        Status::ErrorTriggering((sw & ERROR_TRIGGERING_MASK) as u8)
    } else if MORE_AVAILABLE_MIN <= sw <= MORE_AVAILABLE_MAX {
        Status::MoreAvailable((sw & MORE_AVAILABLE_MASK) as u8)
    } else if WRONG_LE_FIELD_MIN <= sw <= WRONG_LE_FIELD_MAX {
        Status::WrongLeField((sw & WRONG_LE_FIELD_MASK) as u8)
    } else if WARNING_COUNTER_MIN <= sw <= WARNING_COUNTER_MAX {
        Status::RemainingRetries((sw & WARNING_COUNTER_MASK) as u8)
    } else {
        Status::__Unknown(sw)
    }
}

/// The status word of a status.
pub open spec fn code_of(status: Status) -> u16 {
    match status {
        Status::Success => SUCCESS,
        Status::DataUnchangedWarning => DATA_UNCHANGED_WARNING,
        Status::CorruptedData => CORRUPTED_DATA,
        Status::UnexpectedEof => UNEXPECTED_EOF,
        Status::SelectFileDeactivated => SELECTED_FILE_DEACTIVATED,
        Status::FileControlInfoBadlyFormatted => FILE_CONTROL_INFO_BADLY_FORMATTED,
        Status::SelectedFileInTerminationState => SELECTED_FILE_IN_TERMINATION_STATE,
        Status::NoInputDataFromSensor => NO_INPUT_DATA_FROM_SENSOR,
        Status::VerificationFailed => DATA_CHANGED_WARNING,
        Status::FilledByLastWrite => FILLED_BY_LAST_WRITE,
        Status::UnspecifiedNonpersistentExecutionError => EXECUTION_ERROR,
        Status::ImmediateResponseRequired => IMMEDIATE_RESPONSE_REQUIRED,
        Status::UnspecifiedPersistentExecutionError => DATA_CHANGED_ERROR,
        Status::MemoryFailure => MEMORY_FAILURE,
        Status::WrongLength => WRONG_LENGTH,
        Status::ClaNotSupported => CLA_NOT_SUPPORTED,
        Status::LogicalChannelNotSupported => LOGICAL_CHANNEL_NOT_SUPPORTED,
        Status::SecureMessagingNotSupported => SECURE_MESSAGING_NOT_SUPPORTED,
        Status::LastCommandOfChainExpected => LAST_COMMAND_OF_CHAIN_EXPECTED,
        Status::CommandChainingNotSupported => COMMAND_CHAINING_NOT_SUPPORTED,
        Status::CommandNotAllowed => COMMAND_NOT_ALLOWED,
        Status::CommandIncompatibleFileStructure => COMMAND_INCOMPATIBLE_FILE_STRUCTURE,
        Status::SecurityStatusNotSatisfied => SECURITY_STATUS_NOT_SATISFIED,
        Status::OperationBlocked => AUTHENTICATION_METHOD_BLOCKED,
        Status::ReferenceDataNotUsable => REFERENCE_DATA_NOT_USABLE,
        Status::ConditionsOfUseNotSatisfied => CONDITIONS_OF_USE_NOT_SATISFIED,
        Status::CommandNotAllowedNoEf => COMMAND_NOT_ALLOWED_NO_EF,
        Status::ExectedSecureMessagingDataObjectsMissing => EXECTED_SECURE_MESSAGING_DATA_OBJECTS_MISSING,
        Status::IncorrectSecureMessagingDataObjects => INCORRECT_SECURE_MESSAGING_DATA_OBJECTS,
        Status::WrongParametersNoInfo => WRONG_PARAMETERS_NO_INFO,
        Status::IncorrectDataParameter => INCORRECT_PARAMETERS,
        Status::FunctionNotSupported => FUNCTION_NOT_SUPPORTED,
        Status::NotFound => FILE_OR_APP_NOT_FOUND,
        Status::RecordNotFound => RECORD_NOT_FOUND,
        Status::NotEnoughMemory => NOT_ENOUGH_MEMORY_IN_FILE,
        Status::NcInconsistentWithTlv => NC_INCONSISTENT_WITH_TLV,
        Status::IncorrectP1OrP2Parameter => INCORRECT_P1P2,
        Status::NcInconsistentWithP1p2 => NC_INCONSISTENT_WITH_P1P2,
        Status::KeyReferenceNotFound => REFERENCE_NOT_FOUND,
        Status::FileAlreadyExists => FILE_ALREADY_EXISTS,
        Status::DfNameAlreadyExists => DF_NAME_ALREADY_EXISTS,
        Status::WrongParameters => WRONG_PARAMETERS,
        Status::InstructionNotSupportedOrInvalid => INSTRUCTION_NOT_SUPPORTED_OR_INVALID,
        Status::ClassNotSupported => CLASS_NOT_SUPPORTED,
        Status::UnspecifiedCheckingError => CHECKING_ERROR,
        Status::WarningTriggering(v) => (0x6200 + v) as u16,
        Status::ErrorTriggering(v) => (0x6400 + v) as u16,
        Status::MoreAvailable(v) => (MORE_AVAILABLE_MIN + v) as u16,
        Status::WrongLeField(v) => (WRONG_LE_FIELD_MIN + v) as u16,
        Status::RemainingRetries(v) => (WARNING_COUNTER_MIN + v) as u16,
        Status::__Unknown(v) => v,
    }
}

impl Status {
    pub const CHECKING_ERROR: u16 = 0x6F00;

    pub fn from_u16(sw: u16) -> (r: Self)
        ensures
            r == status_of(sw),
    {
        match sw {
            0x9000 => Status::Success,
            0x6200 => Status::DataUnchangedWarning,
            0x6281 => Status::CorruptedData,
            0x6282 => Status::UnexpectedEof,
            0x6283 => Status::SelectFileDeactivated,
            0x6284 => Status::FileControlInfoBadlyFormatted,
            0x6285 => Status::SelectedFileInTerminationState,
            0x6286 => Status::NoInputDataFromSensor,
            0x6300 => Status::VerificationFailed,
            0x6381 => Status::FilledByLastWrite,
            0x6400 => Status::UnspecifiedNonpersistentExecutionError,
            0x6401 => Status::ImmediateResponseRequired,
            0x6500 => Status::UnspecifiedPersistentExecutionError,
            0x6581 => Status::MemoryFailure,
            0x6700 => Status::WrongLength,
            0x6800 => Status::ClaNotSupported,
            0x6881 => Status::LogicalChannelNotSupported,
            0x6882 => Status::SecureMessagingNotSupported,
            0x6883 => Status::LastCommandOfChainExpected,
            0x6884 => Status::CommandChainingNotSupported,
            0x6900 => Status::CommandNotAllowed,
            0x6981 => Status::CommandIncompatibleFileStructure,
            0x6982 => Status::SecurityStatusNotSatisfied,
            0x6983 => Status::OperationBlocked,
            0x6984 => Status::ReferenceDataNotUsable,
            0x6985 => Status::ConditionsOfUseNotSatisfied,
            0x6986 => Status::CommandNotAllowedNoEf,
            0x6987 => Status::ExectedSecureMessagingDataObjectsMissing,
            0x6988 => Status::IncorrectSecureMessagingDataObjects,
            0x6A00 => Status::WrongParametersNoInfo,
            0x6A80 => Status::IncorrectDataParameter,
            0x6A81 => Status::FunctionNotSupported,
            0x6A82 => Status::NotFound,
            0x6A83 => Status::RecordNotFound,
            0x6A84 => Status::NotEnoughMemory,
            0x6A85 => Status::NcInconsistentWithTlv,
            0x6A86 => Status::IncorrectP1OrP2Parameter,
            0x6A87 => Status::NcInconsistentWithP1p2,
            0x6A88 => Status::KeyReferenceNotFound,
            0x6A89 => Status::FileAlreadyExists,
            0x6A8A => Status::DfNameAlreadyExists,
            0x6B00 => Status::WrongParameters,
            0x6D00 => Status::InstructionNotSupportedOrInvalid,
            0x6E00 => Status::ClassNotSupported,
            0x6F00 => Status::UnspecifiedCheckingError,
            0x6202..=0x6280 => Status::WarningTriggering((sw & 0xFF) as u8),
            0x6402..=0x6480 => Status::ErrorTriggering((sw & 0xFF) as u8),
            0x6100..=0x61FF => Status::MoreAvailable((sw & 0xFF) as u8),
            0x6C00..=0x6CFF => Status::WrongLeField((sw & 0xFF) as u8),
            0x63C0..=0x63CF => Status::RemainingRetries((sw & 0xF) as u8),
            _ => Status::__Unknown(sw),
        }
    }

    pub fn to_u16(&self) -> (r: u16)
        ensures
            r == code_of(*self),
    {
        match *self {
            Status::Success => SUCCESS,
            Status::DataUnchangedWarning => DATA_UNCHANGED_WARNING,
            Status::CorruptedData => CORRUPTED_DATA,
            Status::UnexpectedEof => UNEXPECTED_EOF,
            Status::SelectFileDeactivated => SELECTED_FILE_DEACTIVATED,
            Status::FileControlInfoBadlyFormatted => FILE_CONTROL_INFO_BADLY_FORMATTED,
            Status::SelectedFileInTerminationState => SELECTED_FILE_IN_TERMINATION_STATE,
            Status::NoInputDataFromSensor => NO_INPUT_DATA_FROM_SENSOR,
            Status::VerificationFailed => DATA_CHANGED_WARNING,
            Status::FilledByLastWrite => FILLED_BY_LAST_WRITE,
            Status::UnspecifiedNonpersistentExecutionError => EXECUTION_ERROR,
            Status::ImmediateResponseRequired => IMMEDIATE_RESPONSE_REQUIRED,
            Status::UnspecifiedPersistentExecutionError => DATA_CHANGED_ERROR,
            Status::MemoryFailure => MEMORY_FAILURE,
            Status::WrongLength => WRONG_LENGTH,
            Status::ClaNotSupported => CLA_NOT_SUPPORTED,
            Status::LogicalChannelNotSupported => LOGICAL_CHANNEL_NOT_SUPPORTED,
            Status::SecureMessagingNotSupported => SECURE_MESSAGING_NOT_SUPPORTED,
            Status::LastCommandOfChainExpected => LAST_COMMAND_OF_CHAIN_EXPECTED,
            Status::CommandChainingNotSupported => COMMAND_CHAINING_NOT_SUPPORTED,
            Status::CommandNotAllowed => COMMAND_NOT_ALLOWED,
            Status::CommandIncompatibleFileStructure => COMMAND_INCOMPATIBLE_FILE_STRUCTURE,
            Status::SecurityStatusNotSatisfied => SECURITY_STATUS_NOT_SATISFIED,
            Status::OperationBlocked => AUTHENTICATION_METHOD_BLOCKED,
            Status::ReferenceDataNotUsable => REFERENCE_DATA_NOT_USABLE,
            Status::ConditionsOfUseNotSatisfied => CONDITIONS_OF_USE_NOT_SATISFIED,
            Status::CommandNotAllowedNoEf => COMMAND_NOT_ALLOWED_NO_EF,
            Status::ExectedSecureMessagingDataObjectsMissing => {
                EXECTED_SECURE_MESSAGING_DATA_OBJECTS_MISSING
            },
            Status::IncorrectSecureMessagingDataObjects => INCORRECT_SECURE_MESSAGING_DATA_OBJECTS,
            Status::WrongParametersNoInfo => WRONG_PARAMETERS_NO_INFO,
            Status::IncorrectDataParameter => INCORRECT_PARAMETERS,
            Status::FunctionNotSupported => FUNCTION_NOT_SUPPORTED,
            Status::NotFound => FILE_OR_APP_NOT_FOUND,
            Status::RecordNotFound => RECORD_NOT_FOUND,
            Status::NotEnoughMemory => NOT_ENOUGH_MEMORY_IN_FILE,
            Status::NcInconsistentWithTlv => NC_INCONSISTENT_WITH_TLV,
            Status::IncorrectP1OrP2Parameter => INCORRECT_P1P2,
            Status::NcInconsistentWithP1p2 => NC_INCONSISTENT_WITH_P1P2,
            Status::KeyReferenceNotFound => REFERENCE_NOT_FOUND,
            Status::FileAlreadyExists => FILE_ALREADY_EXISTS,
            Status::DfNameAlreadyExists => DF_NAME_ALREADY_EXISTS,
            Status::WrongParameters => WRONG_PARAMETERS,
            Status::InstructionNotSupportedOrInvalid => INSTRUCTION_NOT_SUPPORTED_OR_INVALID,
            Status::ClassNotSupported => CLASS_NOT_SUPPORTED,
            Status::UnspecifiedCheckingError => CHECKING_ERROR,
            Status::WarningTriggering(v) => 0x6200 + v as u16,
            Status::ErrorTriggering(v) => 0x6400 + v as u16,
            Status::MoreAvailable(v) => MORE_AVAILABLE_MIN + v as u16,
            Status::WrongLeField(v) => WRONG_LE_FIELD_MIN + v as u16,
            Status::RemainingRetries(v) => WARNING_COUNTER_MIN + v as u16,
            Status::__Unknown(v) => v,
        }
    }
}

impl From<u16> for Status {
    #[inline]
    fn from(sw: u16) -> (r: Self)
        ensures
            r == status_of(sw),
    {
        Self::from_u16(sw)
    }
}

impl vstd::std_specs::convert::FromSpecImpl<u16> for Status {
    open spec fn obeys_from_spec() -> bool {
        true
    }

    open spec fn from_spec(v: u16) -> Status {
        status_of(v)
    }
}

impl From<(u8, u8)> for Status {
    fn from(sw: (u8, u8)) -> (r: Self)
        ensures
            r == status_of((sw.0 as nat * 256 + sw.1 as nat) as u16),
    {
        Self::from_u16(sw.0 as u16 * 256 + sw.1 as u16)
    }
}

impl vstd::std_specs::convert::FromSpecImpl<(u8, u8)> for Status {
    open spec fn obeys_from_spec() -> bool {
        true
    }

    open spec fn from_spec(v: (u8, u8)) -> Status {
        status_of((v.0 as nat * 256 + v.1 as nat) as u16)
    }
}

impl From<[u8; 2]> for Status {
    fn from(sw: [u8; 2]) -> (r: Self)
        ensures
            r == status_of((sw@[0] as nat * 256 + sw@[1] as nat) as u16),
    {
        Self::from_u16(sw[0] as u16 * 256 + sw[1] as u16)
    }
}

impl vstd::std_specs::convert::FromSpecImpl<[u8; 2]> for Status {
    open spec fn obeys_from_spec() -> bool {
        true
    }

    open spec fn from_spec(v: [u8; 2]) -> Status {
        status_of((v@[0] as nat * 256 + v@[1] as nat) as u16)
    }
}

impl From<Status> for u16 {
    #[inline]
    fn from(status: Status) -> (r: u16)
        ensures
            r == code_of(status),
    {
        status.to_u16()
    }
}

impl vstd::std_specs::convert::FromSpecImpl<Status> for u16 {
    open spec fn obeys_from_spec() -> bool {
        true
    }

    open spec fn from_spec(v: Status) -> u16 {
        code_of(v)
    }
}

impl From<Status> for [u8; 2] {
    #[inline]
    fn from(status: Status) -> (r: [u8; 2])
        ensures
            r@ == seq![(code_of(status) / 256) as u8, (code_of(status) % 256) as u8],
    {
        let sw = status.to_u16();
        let r = [(sw / 256) as u8, (sw % 256) as u8];
        assert(r@ =~= seq![(code_of(status) / 256) as u8, (code_of(status) % 256) as u8]);
        r
    }
}

impl vstd::std_specs::convert::FromSpecImpl<Status> for [u8; 2] {
    open spec fn obeys_from_spec() -> bool {
        false
    }

    open spec fn from_spec(v: Status) -> [u8; 2] {
        [(code_of(v) / 256) as u8, (code_of(v) % 256) as u8]
    }
}

/// The low byte of a status word, the count that the counting statuses carry.
proof fn lemma_low_byte(sw: u16)
    ensures
        (sw & 0xFF) as nat == sw as nat % 256,
        (sw & 0x000F) as nat == sw as nat % 16,
{
    assert((sw & 0xFFu16) == sw % 256) by (bit_vector);
    assert((sw & 0x000Fu16) == sw % 16) by (bit_vector);
}

/// Every status word is the code of the status it decodes to: the two
/// conversions are exact both ways on status words.
pub proof fn lemma_status_round_trip(sw: u16)
    ensures
        code_of(status_of(sw)) == sw,
{
    lemma_low_byte(sw);
}

} // verus!

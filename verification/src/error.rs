//! Error taxonomy and exit encoder.
//!
//! Every failure anywhere in the tool resolves to exactly one variant of a
//! closed error set. Each variant carries a fixed numeric code; the code is
//! the sole contract for the process exit status. Application-level failures
//! sit in a low code range, library- and runtime-boundary failures in a high
//! range. Codes that do not fit a process exit status are clamped to a
//! generic failure code, with a diagnostic line naming the original code.
//! An OS-level I/O failure with a native error number reports that number as
//! its exit code, giving parity with native shell tooling.

use vstd::prelude::*;

use crate::decimal::{dec_str_signed, i32_to_dec};

verus! {

/// Largest code that a process exit status can carry directly.
pub const MAX_DIRECT_EXIT: u16 = 255;

/// Generic failure exit code, used when a taxonomy code cannot be
/// represented as a process exit status.
pub const GENERIC_FAILURE: u8 = 1;

/// Code of an absent secret record or key: the application-level
/// "not found" class, in the low code range.
pub const CODE_SECRET_NOT_FOUND: u16 = 44;

/// Code of an OS-level I/O failure without a native error number.
pub const CODE_STD_IO: u16 = 760;

/// Code of a secret-store transport or authentication failure.
pub const CODE_VAULT_CLIENT: u16 = 761;

/// Code of a database driver failure (connection, statement or fetch).
pub const CODE_ODBC: u16 = 762;

/// Code of an output-encoding failure.
pub const CODE_ENCODING: u16 = 763;

/// Code of the wrapper around a lower-layer library failure.
pub const CODE_ODBC_SECRETS_LIB: u16 = 668;

/// Code of an argument-parsing or usage failure.
pub const CODE_CLAP: u16 = 739;

/// Code of a requested but unimplemented secret-store engine.
pub const CODE_NOT_IMPLEMENTED: u16 = 740;

/// Exit code that a taxonomy code maps to: passed through unchanged when it
/// fits a process exit status, otherwise the generic failure code.
pub open spec fn clamped_exit(code: int) -> u8 {
    if 0 <= code <= MAX_DIRECT_EXIT {
        code as u8
    } else {
        GENERIC_FAILURE
    }
}

/// Diagnostic lines that clamping adds: none when the code fits, one line
/// naming the original code when it does not.
pub open spec fn clamp_note(code: int) -> Seq<Seq<char>> {
    if 0 <= code <= MAX_DIRECT_EXIT {
        Seq::empty()
    } else {
        seq!["exit code "@ + dec_str_signed(code)]
    }
}

/// Clamp a taxonomy code to a process exit code.
pub fn clamp_exit_u16(code: u16) -> (r: u8)
    ensures
        r == clamped_exit(code as int),
{
    if code > MAX_DIRECT_EXIT {
        GENERIC_FAILURE
    } else {
        code as u8
    }
}

/// Clamp a native OS error number to a process exit code. A number outside
/// the representable range (negative included) falls back to the generic
/// failure code.
pub fn clamp_exit_i32(code: i32) -> (r: u8)
    ensures
        r == clamped_exit(code as int),
{
    if code < 0 || code > MAX_DIRECT_EXIT as i32 {
        GENERIC_FAILURE
    } else {
        code as u8
    }
}

/// What a finished invocation tells the operating system and the operator:
/// the process exit code, and the diagnostic lines for the error stream.
pub struct Report {
    pub exit_code: u8,
    pub diagnostics: Vec<String>,
}

/// Mathematical model of a lower-layer failure.
pub enum LibErrorModel {
    StdIo { raw_os_error: Option<i32>, message: Seq<char> },
    VaultClient { message: Seq<char> },
    SecretNotFound { mount: Seq<char>, path: Seq<char> },
    Odbc { message: Seq<char> },
    Encoding { message: Seq<char> },
}

/// Mathematical model of a command-line-layer failure.
pub enum CliErrorModel {
    Lib { error: LibErrorModel },
    Clap { message: Seq<char> },
    NotImplemented { message: Seq<char> },
}

/// Failures that originate below the command-line layer, held as plain
/// values: the native OS error number and the rendered lower-level message
/// are captured at the boundary, so the taxonomy itself needs nothing
/// opaque.
pub enum OdbcSecretsLibError {
    /// An OS-level I/O failure, with the native OS error number when the
    /// operating system supplied one.
    StdIoError { raw_os_error: Option<i32>, message: String },
    /// A secret-store transport or authentication failure.
    VaultClientError { message: String },
    /// The secret record or the configured key within it is absent.
    SecretNotFound { mount: String, path: String },
    /// A database driver failure: connection, statement execution,
    /// metadata or fetch.
    OdbcError { message: String },
    /// An output-serialization failure.
    EncodingError { message: String },
}

impl View for OdbcSecretsLibError {
    type V = LibErrorModel;

    open spec fn view(&self) -> LibErrorModel {
        match self {
            OdbcSecretsLibError::StdIoError { raw_os_error, message } => LibErrorModel::StdIo {
                raw_os_error: *raw_os_error,
                message: message@,
            },
            OdbcSecretsLibError::VaultClientError { message } => LibErrorModel::VaultClient {
                message: message@,
            },
            OdbcSecretsLibError::SecretNotFound { mount, path } => LibErrorModel::SecretNotFound {
                mount: mount@,
                path: path@,
            },
            OdbcSecretsLibError::OdbcError { message } => LibErrorModel::Odbc { message: message@ },
            OdbcSecretsLibError::EncodingError { message } => LibErrorModel::Encoding {
                message: message@,
            },
        }
    }
}

impl OdbcSecretsLibError {
    /// The fixed numeric code of each variant. Codes are never reused
    /// across variants.
    pub open spec fn code_spec(&self) -> u16 {
        match self {
            OdbcSecretsLibError::StdIoError { .. } => CODE_STD_IO,
            OdbcSecretsLibError::VaultClientError { .. } => CODE_VAULT_CLIENT,
            OdbcSecretsLibError::SecretNotFound { .. } => CODE_SECRET_NOT_FOUND,
            OdbcSecretsLibError::OdbcError { .. } => CODE_ODBC,
            OdbcSecretsLibError::EncodingError { .. } => CODE_ENCODING,
        }
    }

    /// The fixed numeric code, by explicit mapping.
    pub fn discriminant(&self) -> (r: u16)
        ensures
            r == self.code_spec(),
    {
        match self {
            OdbcSecretsLibError::StdIoError { .. } => CODE_STD_IO,
            OdbcSecretsLibError::VaultClientError { .. } => CODE_VAULT_CLIENT,
            OdbcSecretsLibError::SecretNotFound { .. } => CODE_SECRET_NOT_FOUND,
            OdbcSecretsLibError::OdbcError { .. } => CODE_ODBC,
            OdbcSecretsLibError::EncodingError { .. } => CODE_ENCODING,
        }
    }

    /// The single human-readable diagnostic line of each variant.
    pub open spec fn render_spec(&self) -> Seq<char> {
        match self {
            OdbcSecretsLibError::StdIoError { message, .. } => "`std::io::Error` error. "@
                + message@,
            OdbcSecretsLibError::VaultClientError { message } => "`vaultrs::error::ClientError` error. "@
                + message@,
            OdbcSecretsLibError::SecretNotFound { mount, path } => "secret not found at "@
                + mount@ + "/"@ + path@,
            OdbcSecretsLibError::OdbcError { message } => "`odbc_api` error. "@
                + message@,
            OdbcSecretsLibError::EncodingError { message } => "output encoding error. "@
                + message@,
        }
    }

    /// Render the diagnostic line.
    pub fn render(&self) -> (r: String)
        ensures
            r@ == self.render_spec(),
    {
        match self {
            OdbcSecretsLibError::StdIoError { message, .. } => {
                let mut out = String::from_str("`std::io::Error` error. ");
                out.append(message.as_str());
                out
            },
            OdbcSecretsLibError::VaultClientError { message } => {
                let mut out = String::from_str("`vaultrs::error::ClientError` error. ");
                out.append(message.as_str());
                out
            },
            OdbcSecretsLibError::SecretNotFound { mount, path } => {
                let mut out = String::from_str("secret not found at ");
                out.append(mount.as_str());
                out.append("/");
                out.append(path.as_str());
                proof {
                    assert(out@ =~= self.render_spec());
                }
                out
            },
            OdbcSecretsLibError::OdbcError { message } => {
                let mut out = String::from_str("`odbc_api` error. ");
                out.append(message.as_str());
                out
            },
            OdbcSecretsLibError::EncodingError { message } => {
                let mut out = String::from_str("output encoding error. ");
                out.append(message.as_str());
                out
            },
        }
    }

    /// The exit code this failure reports: the native OS error number when
    /// one is available, otherwise the variant's fixed code, both clamped.
    pub open spec fn exit_code_spec(&self) -> u8 {
        match self {
            OdbcSecretsLibError::StdIoError { raw_os_error: Some(e), .. } => clamped_exit(*e as int),
            _ => clamped_exit(self.code_spec() as int),
        }
    }

    /// The diagnostic lines this failure reports: the native OS error
    /// number alone when one is available, otherwise the rendered message;
    /// plus a warning line when the code had to be clamped.
    pub open spec fn diagnostics_spec(&self) -> Seq<Seq<char>> {
        match self {
            OdbcSecretsLibError::StdIoError { raw_os_error: Some(e), .. } => seq![
                dec_str_signed(*e as int),
            ] + clamp_note(*e as int),
            _ => seq![self.render_spec()] + clamp_note(self.code_spec() as int),
        }
    }

    /// Encode this failure as a process exit report.
    pub fn report(&self) -> (r: Report)
        ensures
            r.exit_code == self.exit_code_spec(),
            r.diagnostics.deep_view() == self.diagnostics_spec(),
    {
        let mut diagnostics: Vec<String> = Vec::new();
        let exit_code: u8;
        match self {
            OdbcSecretsLibError::StdIoError { raw_os_error: Some(e), .. } => {
                diagnostics.push(i32_to_dec(*e));
                if *e < 0 || *e > MAX_DIRECT_EXIT as i32 {
                    let mut note = String::from_str("exit code ");
                    note.append(i32_to_dec(*e).as_str());
                    diagnostics.push(note);
                    proof {
                        reveal_strlit("exit code ");
                    }
                }
                exit_code = clamp_exit_i32(*e);
            },
            _ => {
                diagnostics.push(self.render());
                let code = self.discriminant();
                if code > MAX_DIRECT_EXIT {
                    let mut note = String::from_str("exit code ");
                    note.append(i32_to_dec(code as i32).as_str());
                    diagnostics.push(note);
                    proof {
                        reveal_strlit("exit code ");
                    }
                }
                exit_code = clamp_exit_u16(code);
            },
        }
        proof {
            assert(diagnostics.deep_view() =~= self.diagnostics_spec());
        }
        Report { exit_code, diagnostics }
    }
}

/// The closed error set of the command-line layer.
pub enum OdbcSecretsCliError {
    /// A failure of a lower layer, wrapped one level. Reporting delegates
    /// to the nested failure, preserving the lower layer's exit code.
    OdbcSecretsLibError { error: OdbcSecretsLibError },
    /// An argument-parsing or usage failure.
    ClapError { message: String },
    /// A secret-store engine that is declared but not implemented was
    /// requested.
    NotImplementedError { message: String },
}

impl View for OdbcSecretsCliError {
    type V = CliErrorModel;

    open spec fn view(&self) -> CliErrorModel {
        match self {
            OdbcSecretsCliError::OdbcSecretsLibError { error } => CliErrorModel::Lib {
                error: error@,
            },
            OdbcSecretsCliError::ClapError { message } => CliErrorModel::Clap {
                message: message@,
            },
            OdbcSecretsCliError::NotImplementedError { message } => CliErrorModel::NotImplemented {
                message: message@,
            },
        }
    }
}

impl OdbcSecretsCliError {
    /// The fixed numeric code of each variant.
    pub open spec fn code_spec(&self) -> u16 {
        match self {
            OdbcSecretsCliError::OdbcSecretsLibError { .. } => CODE_ODBC_SECRETS_LIB,
            OdbcSecretsCliError::ClapError { .. } => CODE_CLAP,
            OdbcSecretsCliError::NotImplementedError { .. } => CODE_NOT_IMPLEMENTED,
        }
    }

    /// The fixed numeric code, by explicit mapping.
    pub fn discriminant(&self) -> (r: u16)
        ensures
            r == self.code_spec(),
    {
        match self {
            OdbcSecretsCliError::OdbcSecretsLibError { .. } => CODE_ODBC_SECRETS_LIB,
            OdbcSecretsCliError::ClapError { .. } => CODE_CLAP,
            OdbcSecretsCliError::NotImplementedError { .. } => CODE_NOT_IMPLEMENTED,
        }
    }

    /// The single human-readable diagnostic line of each variant; the
    /// wrapper renders as its nested failure.
    pub open spec fn render_spec(&self) -> Seq<char> {
        match self {
            OdbcSecretsCliError::OdbcSecretsLibError { error } => error.render_spec(),
            OdbcSecretsCliError::ClapError { message } => "`clap::error::Error` error. "@
                + message@,
            OdbcSecretsCliError::NotImplementedError { message } => "not implemented. "@
                + message@,
        }
    }

    /// Render the diagnostic line.
    pub fn render(&self) -> (r: String)
        ensures
            r@ == self.render_spec(),
    {
        match self {
            OdbcSecretsCliError::OdbcSecretsLibError { error } => error.render(),
            OdbcSecretsCliError::ClapError { message } => {
                let mut out = String::from_str("`clap::error::Error` error. ");
                out.append(message.as_str());
                out
            },
            OdbcSecretsCliError::NotImplementedError { message } => {
                let mut out = String::from_str("not implemented. ");
                out.append(message.as_str());
                out
            },
        }
    }

    /// The exit code this failure reports. A wrapped lower-layer failure
    /// keeps the lower layer's code.
    pub open spec fn exit_code_spec(&self) -> u8 {
        match self {
            OdbcSecretsCliError::OdbcSecretsLibError { error } => error.exit_code_spec(),
            _ => clamped_exit(self.code_spec() as int),
        }
    }

    /// The diagnostic lines this failure reports. A wrapped lower-layer
    /// failure keeps the lower layer's diagnostics.
    pub open spec fn diagnostics_spec(&self) -> Seq<Seq<char>> {
        match self {
            OdbcSecretsCliError::OdbcSecretsLibError { error } => error.diagnostics_spec(),
            _ => seq![self.render_spec()] + clamp_note(self.code_spec() as int),
        }
    }

    /// Encode this failure as a process exit report.
    pub fn report(&self) -> (r: Report)
        ensures
            r.exit_code == self.exit_code_spec(),
            r.diagnostics.deep_view() == self.diagnostics_spec(),
    {
        match self {
            OdbcSecretsCliError::OdbcSecretsLibError { error } => error.report(),
            _ => {
                let mut diagnostics: Vec<String> = Vec::new();
                diagnostics.push(self.render());
                let code = self.discriminant();
                if code > MAX_DIRECT_EXIT {
                    let mut note = String::from_str("exit code ");
                    note.append(i32_to_dec(code as i32).as_str());
                    diagnostics.push(note);
                    proof {
                        reveal_strlit("exit code ");
                    }
                }
                let exit_code = clamp_exit_u16(code);
                proof {
                    assert(diagnostics.deep_view() =~= self.diagnostics_spec());
                }
                Report { exit_code, diagnostics }
            },
        }
    }
}

impl core::convert::From<OdbcSecretsLibError> for OdbcSecretsCliError {
    /// Wrap a lower-layer failure one level.
    fn from(error: OdbcSecretsLibError) -> Self {
        OdbcSecretsCliError::OdbcSecretsLibError { error }
    }
}

impl vstd::std_specs::convert::FromSpecImpl<OdbcSecretsLibError> for OdbcSecretsCliError {
    open spec fn obeys_from_spec() -> bool {
        true
    }

    open spec fn from_spec(error: OdbcSecretsLibError) -> Self {
        OdbcSecretsCliError::OdbcSecretsLibError { error }
    }
}

/// The outcome of a whole invocation: ordinary success, success that
/// carries a pre-computed exit code, or a taxonomy failure. The caller
/// resolves which terminal shape applies; no run-time type inspection is
/// involved.
pub enum SuccessOrOdbcSecretsLibError<T> {
    /// The work finished; exit code 0.
    Success(T),
    /// The work finished and a sub-operation already decided the exit code.
    SuccessWithExitCode(u8),
    /// The work failed with a taxonomy member.
    Failure(OdbcSecretsCliError),
}

impl<T> SuccessOrOdbcSecretsLibError<T> {
    /// The process exit code of the whole invocation. This is a total
    /// function of the outcome value: identical outcomes always exit with
    /// the identical code.
    pub open spec fn exit_code_spec(&self) -> u8 {
        match self {
            SuccessOrOdbcSecretsLibError::Success(_) => 0u8,
            SuccessOrOdbcSecretsLibError::SuccessWithExitCode(code) => *code,
            SuccessOrOdbcSecretsLibError::Failure(error) => error.exit_code_spec(),
        }
    }

    /// The diagnostic lines of the whole invocation: none on success.
    pub open spec fn diagnostics_spec(&self) -> Seq<Seq<char>> {
        match self {
            SuccessOrOdbcSecretsLibError::Success(_) => Seq::empty(),
            SuccessOrOdbcSecretsLibError::SuccessWithExitCode(_) => Seq::empty(),
            SuccessOrOdbcSecretsLibError::Failure(error) => error.diagnostics_spec(),
        }
    }

    /// Encode the outcome of an invocation as a process exit report:
    /// 0 on ordinary success, a pre-computed code when a sub-operation
    /// already decided it, the taxonomy mapping otherwise.
    pub fn report(self) -> (r: Report)
        ensures
            r.exit_code == self.exit_code_spec(),
            r.diagnostics.deep_view() == self.diagnostics_spec(),
    {
        match self {
            SuccessOrOdbcSecretsLibError::Success(_) => {
                let diagnostics: Vec<String> = Vec::new();
                proof {
                    assert(diagnostics.deep_view() =~= self.diagnostics_spec());
                }
                Report { exit_code: 0, diagnostics }
            },
            SuccessOrOdbcSecretsLibError::SuccessWithExitCode(code) => {
                let diagnostics: Vec<String> = Vec::new();
                proof {
                    assert(diagnostics.deep_view() =~= self.diagnostics_spec());
                }
                Report { exit_code: code, diagnostics }
            },
            SuccessOrOdbcSecretsLibError::Failure(error) => error.report(),
        }
    }
}

/// Law: the exit code and the diagnostics are functions of the outcome
/// value alone. Two invocations that end in the same outcome report the
/// same exit code, run after run.
pub proof fn lemma_exit_code_deterministic<T>(
    a: SuccessOrOdbcSecretsLibError<T>,
    b: SuccessOrOdbcSecretsLibError<T>,
)
    requires
        a == b,
    ensures
        a.exit_code_spec() == b.exit_code_spec(),
        a.diagnostics_spec() == b.diagnostics_spec(),
{
}

impl<T> core::convert::From<Result<T, OdbcSecretsCliError>> for SuccessOrOdbcSecretsLibError<T> {
    /// Fold an ordinary result into the outcome type.
    fn from(value: Result<T, OdbcSecretsCliError>) -> Self {
        match value {
            Ok(val) => SuccessOrOdbcSecretsLibError::Success(val),
            Err(error) => SuccessOrOdbcSecretsLibError::Failure(error),
        }
    }
}

impl<T> vstd::std_specs::convert::FromSpecImpl<Result<T, OdbcSecretsCliError>> for SuccessOrOdbcSecretsLibError<T> {
    open spec fn obeys_from_spec() -> bool {
        true
    }

    open spec fn from_spec(value: Result<T, OdbcSecretsCliError>) -> Self {
        match value {
            Ok(val) => SuccessOrOdbcSecretsLibError::Success(val),
            Err(error) => SuccessOrOdbcSecretsLibError::Failure(error),
        }
    }
}

} // verus!

use odbc_secrets_cli::decimal::{i32_to_dec, u64_to_dec};
use odbc_secrets_cli::error::{
    clamp_exit_i32, clamp_exit_u16, OdbcSecretsCliError, OdbcSecretsLibError, Report,
    SuccessOrOdbcSecretsLibError, CODE_CLAP, CODE_ENCODING, CODE_NOT_IMPLEMENTED, CODE_ODBC,
    CODE_ODBC_SECRETS_LIB, CODE_SECRET_NOT_FOUND, CODE_STD_IO, CODE_VAULT_CLIENT,
    GENERIC_FAILURE,
};

#[test]
fn decimal_rendering_exact() {
    assert_eq!(u64_to_dec(0).as_str(), "0");
    assert_eq!(u64_to_dec(7).as_str(), "7");
    assert_eq!(u64_to_dec(5432).as_str(), "5432");
    assert_eq!(u64_to_dec(65535).as_str(), "65535");
    assert_eq!(i32_to_dec(-113).as_str(), "-113");
    assert_eq!(i32_to_dec(255).as_str(), "255");
    assert_eq!(i32_to_dec(i32::MIN).as_str(), "-2147483648");
}

#[test]
fn clamping_passes_small_codes_through() {
    assert_eq!(clamp_exit_u16(0), 0);
    assert_eq!(clamp_exit_u16(44), 44);
    assert_eq!(clamp_exit_u16(255), 255);
    assert_eq!(clamp_exit_i32(111), 111);
}

#[test]
fn clamping_reduces_large_codes_to_generic_failure() {
    assert_eq!(clamp_exit_u16(256), GENERIC_FAILURE);
    assert_eq!(clamp_exit_u16(668), GENERIC_FAILURE);
    assert_eq!(clamp_exit_i32(-2), GENERIC_FAILURE);
    assert_eq!(clamp_exit_i32(i32::MAX), GENERIC_FAILURE);
}

#[test]
fn variant_codes_are_fixed_and_distinct() {
    let codes = [
        CODE_SECRET_NOT_FOUND,
        CODE_STD_IO,
        CODE_VAULT_CLIENT,
        CODE_ODBC,
        CODE_ENCODING,
        CODE_ODBC_SECRETS_LIB,
        CODE_CLAP,
        CODE_NOT_IMPLEMENTED,
    ];
    for (i, a) in codes.iter().enumerate() {
        for (j, b) in codes.iter().enumerate() {
            if i != j {
                assert_ne!(a, b);
            }
        }
    }
    let e = OdbcSecretsLibError::VaultClientError {
        message: String::from("connection refused"),
    };
    assert_eq!(e.discriminant(), CODE_VAULT_CLIENT);
    let wrapped = OdbcSecretsCliError::from(e);
    assert_eq!(wrapped.discriminant(), CODE_ODBC_SECRETS_LIB);
}

#[test]
fn io_failure_reports_native_os_error_number() {
    // "connection refused" is errno 111 on this platform; the report passes
    // it through as the exit code and prints the number itself.
    let e = OdbcSecretsLibError::StdIoError {
        raw_os_error: Some(111),
        message: String::from("Connection refused (os error 111)"),
    };
    let report: Report = e.report();
    assert_eq!(report.exit_code, 111);
    assert_eq!(report.diagnostics.len(), 1);
    assert_eq!(report.diagnostics[0].as_str(), "111");
}

#[test]
fn io_failure_without_native_number_uses_fixed_code() {
    let e = OdbcSecretsLibError::StdIoError {
        raw_os_error: None,
        message: String::from("broken pipe"),
    };
    let report = e.report();
    // 760 does not fit an exit status: generic failure plus a warning line.
    assert_eq!(report.exit_code, GENERIC_FAILURE);
    assert_eq!(report.diagnostics.len(), 2);
    assert_eq!(
        report.diagnostics[0].as_str(),
        "`std::io::Error` error. broken pipe"
    );
    assert_eq!(report.diagnostics[1].as_str(), "exit code 760");
}

#[test]
fn secret_not_found_keeps_low_range_code() {
    let e = OdbcSecretsLibError::SecretNotFound {
        mount: String::from("secret"),
        path: String::from("odbc-conn"),
    };
    let report = e.report();
    assert_eq!(report.exit_code, CODE_SECRET_NOT_FOUND as u8);
    assert_eq!(report.diagnostics.len(), 1);
    assert_eq!(
        report.diagnostics[0].as_str(),
        "secret not found at secret/odbc-conn"
    );
}

#[test]
fn wrapped_lib_error_delegates_to_nested_code() {
    // The wrapper's own code (668) is never used when a lower-layer failure
    // is nested: reporting delegates recursively.
    let nested = OdbcSecretsLibError::StdIoError {
        raw_os_error: Some(13),
        message: String::from("Permission denied (os error 13)"),
    };
    let wrapped = OdbcSecretsCliError::from(nested);
    let report = wrapped.report();
    assert_eq!(report.exit_code, 13);
    assert_eq!(report.diagnostics[0].as_str(), "13");
}

#[test]
fn clap_error_clamps_and_names_its_code() {
    let e = OdbcSecretsCliError::ClapError {
        message: String::from("Provide either `--command-file` or `--command`"),
    };
    let report = e.report();
    assert_eq!(report.exit_code, GENERIC_FAILURE);
    assert_eq!(report.diagnostics.len(), 2);
    assert_eq!(
        report.diagnostics[0].as_str(),
        "`clap::error::Error` error. Provide either `--command-file` or `--command`"
    );
    assert_eq!(report.diagnostics[1].as_str(), "exit code 739");
}

#[test]
fn success_reports_zero_without_diagnostics() {
    let outcome: SuccessOrOdbcSecretsLibError<u32> =
        SuccessOrOdbcSecretsLibError::from(Ok::<u32, OdbcSecretsCliError>(17));
    let report = outcome.report();
    assert_eq!(report.exit_code, 0);
    assert!(report.diagnostics.is_empty());
}

#[test]
fn precomputed_exit_code_passes_through() {
    let outcome: SuccessOrOdbcSecretsLibError<u32> =
        SuccessOrOdbcSecretsLibError::SuccessWithExitCode(42);
    let report = outcome.report();
    assert_eq!(report.exit_code, 42);
    assert!(report.diagnostics.is_empty());
}

#[test]
fn identical_failing_outcomes_exit_identically() {
    // Exit-code determinism: the same failing input reports the same code,
    // run after run.
    let make = || {
        SuccessOrOdbcSecretsLibError::<()>::Failure(OdbcSecretsCliError::OdbcSecretsLibError {
            error: OdbcSecretsLibError::VaultClientError {
                message: String::from("error sending request"),
            },
        })
    };
    let first = make().report();
    let second = make().report();
    assert_eq!(first.exit_code, second.exit_code);
    assert_eq!(first.diagnostics, second.diagnostics);
    assert_eq!(first.exit_code, GENERIC_FAILURE);
}

#[test]
fn driver_and_encoding_failures_render_and_clamp() {
    let driver = OdbcSecretsLibError::OdbcError {
        message: String::from("unable to connect"),
    };
    assert_eq!(driver.discriminant(), CODE_ODBC);
    let report = driver.report();
    assert_eq!(report.exit_code, GENERIC_FAILURE);
    assert_eq!(
        report.diagnostics[0].as_str(),
        "`odbc_api` error. unable to connect"
    );
    assert_eq!(report.diagnostics[1].as_str(), "exit code 762");

    let encoding = OdbcSecretsLibError::EncodingError {
        message: String::from("invalid utf-8"),
    };
    assert_eq!(encoding.discriminant(), CODE_ENCODING);
    let report = encoding.report();
    assert_eq!(report.exit_code, GENERIC_FAILURE);
    assert_eq!(
        report.diagnostics[0].as_str(),
        "output encoding error. invalid utf-8"
    );
}

#[test]
fn folding_an_err_result_reports_the_failure() {
    let outcome: SuccessOrOdbcSecretsLibError<u32> = SuccessOrOdbcSecretsLibError::from(Err::<
        u32,
        OdbcSecretsCliError,
    >(
        OdbcSecretsCliError::ClapError {
            message: String::from("Specify secret service `--address`"),
        },
    ));
    let report = outcome.report();
    assert_ne!(report.exit_code, 0);
    assert_eq!(
        report.diagnostics[0].as_str(),
        "`clap::error::Error` error. Specify secret service `--address`"
    );
}

#[test]
fn not_implemented_engine_has_its_own_code() {
    let e = OdbcSecretsCliError::NotImplementedError {
        message: String::from("infisical"),
    };
    assert_eq!(e.discriminant(), CODE_NOT_IMPLEMENTED);
    let report = e.report();
    assert_eq!(report.diagnostics[0].as_str(), "not implemented. infisical");
    assert_eq!(report.exit_code, GENERIC_FAILURE);
}

use odbc_secrets_cli::plan::{empty_result_note, plan_invocation, split_params, InvocationPlan};
use odbc_secrets_cli::stream::{
    column_buffer_width, encode_batches, encode_data_row, encode_line, truncate_cell,
    StreamEncoder, DEFAULT_BATCH_SIZE, DEFAULT_COLUMN_CAP,
};

fn cells(values: &[&str]) -> Vec<Vec<u8>> {
    values.iter().map(|v| v.as_bytes().to_vec()).collect()
}

#[test]
fn short_cells_pass_unmodified() {
    let cell = b"abc".to_vec();
    assert_eq!(truncate_cell(&cell, 4096), b"abc".to_vec());
    assert_eq!(truncate_cell(&cell, 3), b"abc".to_vec());
}

#[test]
fn long_cells_are_cut_to_exactly_the_cap() {
    let cell = vec![b'x'; 5000];
    let truncated = truncate_cell(&cell, 4096);
    assert_eq!(truncated.len(), 4096);
    assert_eq!(truncated, vec![b'x'; 4096]);
    assert_eq!(truncate_cell(&cell, 0), Vec::<u8>::new());
}

#[test]
fn header_line_is_comma_delimited() {
    let header = encode_line(&cells(&["col1", "col2"]));
    assert_eq!(header, b"col1,col2".to_vec());
    assert_eq!(encode_line(&cells(&["only"])), b"only".to_vec());
    assert_eq!(encode_line(&cells(&[])), Vec::<u8>::new());
}

#[test]
fn data_rows_are_truncated_cell_by_cell() {
    let row = cells(&["alpha", "beta"]);
    assert_eq!(encode_data_row(&row, 4), b"alph,beta".to_vec());
    assert_eq!(encode_data_row(&row, 4096), b"alpha,beta".to_vec());
}

#[test]
fn one_row_two_columns_streams_as_header_plus_one_line() {
    // A one-row, two-column result: the output is the header line
    // `col1,col2` followed by exactly one data line.
    let names = cells(&["col1", "col2"]);
    let batches = vec![vec![cells(&["1", "Alice"])]];
    let lines = encode_batches(&names, &batches, DEFAULT_BATCH_SIZE, DEFAULT_COLUMN_CAP);
    assert_eq!(lines.len(), 2);
    assert_eq!(lines[0], b"col1,col2".to_vec());
    assert_eq!(lines[1], b"1,Alice".to_vec());
}

#[test]
fn line_count_is_rows_plus_header_for_every_batching() {
    // Seven rows split as 3+3+1 under a bound of 3, and the same seven rows
    // under a bound large enough for one batch: identical output, exactly
    // one header line plus one line per row.
    let names = cells(&["n"]);
    let rows: Vec<Vec<Vec<u8>>> = (0..7).map(|i| cells(&[&i.to_string()])).collect();
    let small: Vec<Vec<Vec<Vec<u8>>>> = rows.chunks(3).map(|c| c.to_vec()).collect();
    let big = vec![rows.clone()];
    let lines_small = encode_batches(&names, &small, 3, DEFAULT_COLUMN_CAP);
    let lines_big = encode_batches(&names, &big, 7, DEFAULT_COLUMN_CAP);
    assert_eq!(lines_small.len(), 8);
    assert_eq!(lines_small, lines_big);
    for (i, line) in lines_small.iter().skip(1).enumerate() {
        assert_eq!(line, &i.to_string().into_bytes());
    }
}

#[test]
fn empty_result_set_emits_only_the_header() {
    let names = cells(&["a", "b", "c"]);
    let batches: Vec<Vec<Vec<Vec<u8>>>> = Vec::new();
    let lines = encode_batches(&names, &batches, 1, DEFAULT_COLUMN_CAP);
    assert_eq!(lines, vec![b"a,b,c".to_vec()]);
}

#[test]
fn encoder_emits_batches_in_row_order() {
    let names = cells(&["v"]);
    let (mut encoder, header) = StreamEncoder::start(&names, 2, 8);
    assert_eq!(header, b"v".to_vec());
    let first = encoder.encode_batch(&vec![cells(&["one"]), cells(&["two"])]);
    let second = encoder.encode_batch(&vec![cells(&["three"])]);
    assert_eq!(first, vec![b"one".to_vec(), b"two".to_vec()]);
    assert_eq!(second, vec![b"three".to_vec()]);
    let empty = encoder.encode_batch(&Vec::new());
    assert!(empty.is_empty());
}

#[test]
fn buffer_width_is_capped() {
    assert_eq!(column_buffer_width(10, 4096), 10);
    assert_eq!(column_buffer_width(1 << 20, 4096), 4096);
    assert_eq!(column_buffer_width(4096, 4096), 4096);
}

#[test]
fn params_split_positionally_on_commas() {
    let pieces = |s: &str| -> Vec<String> { split_params(&String::from(s)) };
    assert_eq!(pieces("a,b"), vec![String::from("a"), String::from("b")]);
    assert_eq!(pieces("single"), vec![String::from("single")]);
    assert_eq!(pieces(""), vec![String::new()]);
    assert_eq!(
        pieces("a,,b"),
        vec![String::from("a"), String::new(), String::from("b")]
    );
    assert_eq!(
        pieces(",x,"),
        vec![String::new(), String::from("x"), String::new()]
    );
}

#[test]
fn empty_result_note_is_fixed() {
    assert_eq!(empty_result_note().as_str(), "empty result, nothing produced");
}

#[test]
fn plan_prints_when_asked_to() {
    let plan = plan_invocation(
        String::from("DSN=x"),
        true,
        Some(String::from("SELECT 1")),
        None,
    );
    match plan {
        InvocationPlan::PrintConnectionString { connection_string } => {
            assert_eq!(connection_string.as_str(), "DSN=x");
        }
        _ => panic!("printing takes precedence over running"),
    }
}

#[test]
fn plan_requires_a_statement() {
    match plan_invocation(String::from("DSN=x"), false, None, None) {
        InvocationPlan::Fail { error } => {
            let report = error.report();
            assert_eq!(
                report.diagnostics[0].as_str(),
                "`clap::error::Error` error. Provide either `--command-file` or `--command`"
            );
        }
        _ => panic!("no statement is a usage error"),
    }
}

#[test]
fn plan_prefers_the_direct_command_over_the_file() {
    match plan_invocation(
        String::from("DSN=x"),
        false,
        Some(String::from("SELECT 1")),
        Some(String::from("SELECT 2")),
    ) {
        InvocationPlan::RunQuery { statement, .. } => {
            assert_eq!(statement.as_str(), "SELECT 1");
        }
        _ => panic!("a statement was supplied"),
    }
    match plan_invocation(String::from("DSN=x"), false, None, Some(String::from("SELECT 2"))) {
        InvocationPlan::RunQuery { statement, .. } => {
            assert_eq!(statement.as_str(), "SELECT 2");
        }
        _ => panic!("the file statement was supplied"),
    }
}

//! What happens once the connection string is resolved.
//!
//! The tool either prints the resolved connection string and stops, or runs
//! exactly one statement against it. The statement comes from the command
//! line or from a file; supplying neither is a usage error, raised before
//! any database connection is attempted.

use vstd::prelude::*;

use crate::error::{CliErrorModel, OdbcSecretsCliError};

verus! {

/// The step after resolution, decided from plain values alone.
pub enum InvocationPlan {
    /// Print the resolved connection string and exit successfully, with no
    /// database contact.
    PrintConnectionString { connection_string: String },
    /// Run this one statement against the resolved connection string.
    RunQuery { connection_string: String, statement: String },
    /// Usage error: no statement was supplied.
    Fail { error: OdbcSecretsCliError },
}

/// Mathematical model of the plan.
pub enum PlanModel {
    PrintConnectionString { connection_string: Seq<char> },
    RunQuery { connection_string: Seq<char>, statement: Seq<char> },
    Fail { error: CliErrorModel },
}

impl View for InvocationPlan {
    type V = PlanModel;

    open spec fn view(&self) -> PlanModel {
        match self {
            InvocationPlan::PrintConnectionString { connection_string } => PlanModel::PrintConnectionString {
                connection_string: connection_string@,
            },
            InvocationPlan::RunQuery { connection_string, statement } => PlanModel::RunQuery {
                connection_string: connection_string@,
                statement: statement@,
            },
            InvocationPlan::Fail { error } => PlanModel::Fail { error: error@ },
        }
    }
}

/// The usage-error model raised when no statement was supplied.
pub open spec fn missing_statement_error() -> CliErrorModel {
    CliErrorModel::Clap { message: "Provide either `--command-file` or `--command`"@ }
}

/// The plan for a resolved connection string: print it when asked to; fail
/// when no statement is available; otherwise run the statement, preferring
/// the one given directly over the one read from a file.
pub open spec fn plan_model(
    connection_string: Seq<char>,
    print_and_exit: bool,
    command: Option<Seq<char>>,
    file_contents: Option<Seq<char>>,
) -> PlanModel {
    if print_and_exit {
        PlanModel::PrintConnectionString { connection_string }
    } else if command is None && file_contents is None {
        PlanModel::Fail { error: missing_statement_error() }
    } else if command is Some {
        PlanModel::RunQuery { connection_string, statement: command->Some_0 }
    } else {
        PlanModel::RunQuery { connection_string, statement: file_contents->Some_0 }
    }
}

/// The character separating positional values in the structured parameter
/// encoding of the command line.
pub const PARAM_SEPARATOR: char = ',';

/// The pieces of `s` between occurrences of `sep`, in order: empty pieces
/// are kept, and a string without the separator is one piece. The values
/// are bound to statement placeholders positionally, never concatenated
/// into the statement text.
pub open spec fn split_on(s: Seq<char>, sep: char) -> Seq<Seq<char>>
    decreases s.len(),
{
    if s.len() == 0 {
        seq![Seq::<char>::empty()]
    } else if s[0] == sep {
        seq![Seq::<char>::empty()] + split_on(s.drop_first(), sep)
    } else {
        let rest = split_on(s.drop_first(), sep);
        seq![seq![s[0]] + rest[0]] + rest.drop_first()
    }
}

/// Splitting yields at least one piece.
pub proof fn lemma_split_on_len(s: Seq<char>, sep: char)
    ensures
        split_on(s, sep).len() >= 1,
    decreases s.len(),
{
    if s.len() > 0 {
        lemma_split_on_len(s.drop_first(), sep);
    }
}

/// How splitting decomposes at the first separator: a string without one is
/// a single piece; otherwise the prefix before it is the first piece and
/// the rest splits on its own.
proof fn lemma_split_at_first_sep(s: Seq<char>, sep: char, i: int)
    requires
        0 <= i <= s.len(),
        forall|j: int| 0 <= j < i ==> s[j] != sep,
        i < s.len() ==> s[i] == sep,
    ensures
        i == s.len() ==> split_on(s, sep) == seq![s],
        i < s.len() ==> split_on(s, sep) == seq![s.take(i)] + split_on(s.skip(i + 1), sep),
    decreases i,
{
    lemma_split_on_len(s, sep);
    if i == 0 {
        if s.len() == 0 {
            assert(split_on(s, sep) =~~= seq![s]);
        } else {
            assert(s.take(0) =~= Seq::<char>::empty());
            assert(s.skip(1) =~= s.drop_first());
            assert(split_on(s, sep) =~= seq![s.take(0)] + split_on(s.skip(1), sep));
        }
    } else {
        lemma_split_at_first_sep(s.drop_first(), sep, i - 1);
        let rest = split_on(s.drop_first(), sep);
        if i == s.len() {
            assert(s[0] != sep);
            assert(rest == seq![s.drop_first()]);
            assert(split_on(s, sep) == seq![seq![s[0]] + rest[0]] + rest.drop_first());
            assert(seq![s[0]] + s.drop_first() =~= s);
            assert(rest.drop_first() =~= Seq::<Seq<char>>::empty());
            assert(split_on(s, sep) =~= seq![s]);
        } else {
            assert(rest == seq![s.drop_first().take(i - 1)] + split_on(
                s.drop_first().skip(i),
                sep,
            ));
            assert(rest[0] == s.drop_first().take(i - 1));
            assert(seq![s[0]] + s.drop_first().take(i - 1) =~= s.take(i));
            assert(s.drop_first().skip(i) =~= s.skip(i + 1));
            assert(rest.drop_first() =~= split_on(s.skip(i + 1), sep));
            assert(split_on(s, sep) =~= seq![s.take(i)] + split_on(s.skip(i + 1), sep));
        }
    }
}

/// The position of the first separator in `s` at or after `i`, or the
/// length of `s` when there is none.
fn first_sep(s: &str, i: usize) -> (r: usize)
    requires
        i <= s@.len(),
        forall|j: int| 0 <= j < i ==> s@[j] != PARAM_SEPARATOR,
    ensures
        i <= r <= s@.len(),
        forall|j: int| 0 <= j < r ==> s@[j] != PARAM_SEPARATOR,
        r < s@.len() ==> s@[r as int] == PARAM_SEPARATOR,
    decreases s@.len() - i,
{
    if i == s.unicode_len() {
        i
    } else if s.get_char(i) == PARAM_SEPARATOR {
        i
    } else {
        first_sep(s, i + 1)
    }
}

/// Split the tail of the parameter string, appending the pieces to `out`.
fn split_str_into(s: &str, out: &mut Vec<String>)
    ensures
        final(out).deep_view() == old(out).deep_view() + split_on(s@, PARAM_SEPARATOR),
    decreases s@.len(),
{
    let sep = first_sep(s, 0);
    let n = s.unicode_len();
    proof {
        lemma_split_at_first_sep(s@, PARAM_SEPARATOR, sep as int);
    }
    if sep == n {
        out.push(String::from_str(s));
        proof {
            assert(out.deep_view() =~~= old(out).deep_view() + split_on(s@, PARAM_SEPARATOR));
        }
    } else {
        let piece = s.substring_char(0, sep);
        out.push(String::from_str(piece));
        let ghost mid = out.deep_view();
        proof {
            assert(piece@ =~= s@.take(sep as int));
            assert(mid =~~= old(out).deep_view() + seq![s@.take(sep as int)]);
        }
        let rest = s.substring_char(sep + 1, n);
        proof {
            assert(rest@ =~= s@.skip(sep as int + 1));
        }
        split_str_into(rest, out);
        proof {
            assert(out.deep_view() =~~= old(out).deep_view() + split_on(s@, PARAM_SEPARATOR));
        }
    }
}

/// Split the structured parameter string into its positional values.
pub fn split_params(params: &String) -> (r: Vec<String>)
    ensures
        r.deep_view() == split_on(params@, PARAM_SEPARATOR),
{
    let mut out: Vec<String> = Vec::new();
    split_str_into(params.as_str(), &mut out);
    proof {
        assert(out.deep_view() =~~= split_on(params@, PARAM_SEPARATOR));
    }
    out
}

/// The note reported when execution yields no result stream (a data-change
/// statement, say): nothing goes to the output, this line goes to the error
/// stream, and the invocation still exits successfully.
pub fn empty_result_note() -> (r: String)
    ensures
        r@ == "empty result, nothing produced"@,
{
    String::from_str("empty result, nothing produced")
}

/// Decide the step after resolution. `file_contents` is the statement file,
/// already read by the caller when one was named.
pub fn plan_invocation(
    connection_string: String,
    print_and_exit: bool,
    command: Option<String>,
    file_contents: Option<String>,
) -> (r: InvocationPlan)
    ensures
        r@ == plan_model(
            connection_string@,
            print_and_exit,
            crate::resolver::opt_view(command),
            crate::resolver::opt_view(file_contents),
        ),
{
    if print_and_exit {
        InvocationPlan::PrintConnectionString { connection_string }
    } else {
        match (command, file_contents) {
            (None, None) => InvocationPlan::Fail {
                error: OdbcSecretsCliError::ClapError {
                    message: String::from_str("Provide either `--command-file` or `--command`"),
                },
            },
            (Some(statement), _) => InvocationPlan::RunQuery { connection_string, statement },
            (None, Some(statement)) => InvocationPlan::RunQuery { connection_string, statement },
        }
    }
}

} // verus!
